use vstd::prelude::*;

use crate::interactor::{
    lemma_interaction_paths_share_repository, DependOnCreateDataService, InteractionHandler,
};
use crate::mixin::MixinHandler;
use crate::simple::{DependOnCreateSimpleDataService, SimpleHandler};
use crate::{create_outcome, DataRepository, DependOnRepository, Repository};

verus! {

/// Every strategy wired over the concrete repository answers `create` with
/// the identifier 1, whatever the input text.
pub proof fn lemma_data_repository_handlers_create_one(
    s: &SimpleHandler<DataRepository>,
    i: &InteractionHandler<DataRepository>,
    m: &MixinHandler<DataRepository>,
)
    ensures
        create_outcome(s.simple_data_service().repo().outcome()) == Ok::<u64, u64>(1),
        create_outcome(i.data_service().repo().outcome()) == Ok::<u64, u64>(1),
        create_outcome(m.repo().outcome()) == Ok::<u64, u64>(1),
{
}

/// The three strategies are interchangeable: over repositories that answer
/// alike, their `create` operations give the same success or failure and
/// the same value.
pub proof fn lemma_strategies_agree<R: Repository>(
    s: &SimpleHandler<R>,
    i: &InteractionHandler<R>,
    m: &MixinHandler<R>,
)
    requires
        i.well_formed(),
        s.repo().outcome() == i.repo().outcome(),
        m.repo().outcome() == i.repo().outcome(),
    ensures
        create_outcome(s.simple_data_service().repo().outcome()) == create_outcome(
            i.data_service().repo().outcome(),
        ),
        create_outcome(m.repo().outcome()) == create_outcome(i.data_service().repo().outcome()),
{
    lemma_interaction_paths_share_repository(i);
}

/// A failure code of the capability reaches the caller of every strategy
/// unchanged.
pub proof fn lemma_failure_propagates<R: Repository>(
    s: &SimpleHandler<R>,
    i: &InteractionHandler<R>,
    m: &MixinHandler<R>,
    code: u64,
)
    requires
        i.well_formed(),
        s.repo().outcome() == Err::<(), u64>(code),
        i.repo().outcome() == Err::<(), u64>(code),
        m.repo().outcome() == Err::<(), u64>(code),
    ensures
        create_outcome(s.simple_data_service().repo().outcome()) == Err::<u64, u64>(code),
        create_outcome(i.data_service().repo().outcome()) == Err::<u64, u64>(code),
        create_outcome(m.repo().outcome()) == Err::<u64, u64>(code),
{
    lemma_interaction_paths_share_repository(i);
}

} // verus!

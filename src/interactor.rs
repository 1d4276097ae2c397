use vstd::prelude::*;

use crate::{create_outcome, DataRepository, DependOnRepository, Pool, Repository};

verus! {

/// The delegation strategy: the service is implemented on a dedicated
/// object that holds the repository.
pub trait CreateDataService: 'static + Send + Sync + DependOnRepository {
    fn create(&self, obj: String) -> (r: Result<u64, u64>)
        ensures
            r == create_outcome(self.repo().outcome()),
    ;
}

/// The delegate that performs the use case on behalf of a handler.
pub struct CreateDataInteractor<T> {
    handler: T,
}

impl<T: Repository> CreateDataInteractor<T> {
    pub fn new(handler: T) -> (r: CreateDataInteractor<T>)
        ensures
            r.repo() == handler,
    {
        CreateDataInteractor { handler }
    }
}

impl<T> DependOnRepository for CreateDataInteractor<T> where T: Repository {
    type Repository = T;

    closed spec fn repo(&self) -> T {
        self.handler
    }

    fn repository(&self) -> (r: &T) {
        &self.handler
    }
}

impl<T> CreateDataService for CreateDataInteractor<T> where T: Repository {
    fn create(&self, _obj: String) -> (r: Result<u64, u64>) {
        self.handler.create()?;
        Ok(1)
    }
}

/// Exposes the interactor that a consumer owns.
pub trait DependOnCreateDataService: 'static + Send + Sync {
    type CreateDataService: CreateDataService;

    spec fn data_service(&self) -> Self::CreateDataService;

    fn create_data_service(&self) -> (r: &Self::CreateDataService)
        ensures
            *r == self.data_service(),
    ;
}

/// Root of the delegation strategy: it owns the repository and an
/// interactor over a copy of the same repository handle.
pub struct InteractionHandler<R> {
    repo: R,
    interactor: CreateDataInteractor<R>,
}

impl<R> InteractionHandler<R> {
    /// The handler's own repository and the interactor's are one handle.
    pub closed spec fn well_formed(&self) -> bool {
        self.interactor.handler == self.repo
    }
}

impl InteractionHandler<DataRepository> {
    pub fn init() -> (r: InteractionHandler<DataRepository>)
        ensures
            r.well_formed(),
            r.repo().outcome() == Ok::<(), u64>(()),
    {
        Self::with_repository(DataRepository::new(Pool))
    }
}

impl<R: Repository + Copy> InteractionHandler<R> {
    pub fn with_repository(repo: R) -> (r: InteractionHandler<R>)
        ensures
            r.well_formed(),
            r.repo() == repo,
            r.data_service().repo() == repo,
    {
        let shared = repo;
        InteractionHandler { repo, interactor: CreateDataInteractor::new(shared) }
    }
}

/// The handler's own repository and its interactor's repository are the
/// same resource, so both paths through a handler report the same outcome,
/// a failure code included.
pub proof fn lemma_interaction_paths_share_repository<R: Repository>(h: &InteractionHandler<R>)
    requires
        h.well_formed(),
    ensures
        h.data_service().repo() == h.repo(),
        h.data_service().repo().outcome() == h.repo().outcome(),
        create_outcome(h.data_service().repo().outcome()) == create_outcome(h.repo().outcome()),
{
}

impl<R: Repository> DependOnRepository for InteractionHandler<R> {
    type Repository = R;

    closed spec fn repo(&self) -> R {
        self.repo
    }

    fn repository(&self) -> (r: &R) {
        &self.repo
    }
}

impl<R: Repository> DependOnCreateDataService for InteractionHandler<R> {
    type CreateDataService = CreateDataInteractor<R>;

    closed spec fn data_service(&self) -> CreateDataInteractor<R> {
        self.interactor
    }

    fn create_data_service(&self) -> (r: &CreateDataInteractor<R>) {
        &self.interactor
    }
}

} // verus!

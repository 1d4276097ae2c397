use vstd::prelude::*;

use crate::{create_outcome, DataRepository, DependOnRepository, Pool, Repository};

verus! {

/// The direct strategy: every consumer of a repository is a service, by
/// way of the default `create`.
pub trait CreateSimpleDataService: 'static + Send + Sync + DependOnRepository {
    fn create(&self, _obj: String) -> (r: Result<u64, u64>)
        ensures
            r == create_outcome(self.repo().outcome()),
    {
        self.repository().create()?;
        Ok(1)
    }
}

impl<T> CreateSimpleDataService for T where T: DependOnRepository {}

/// Exposes the service that a consumer resolves to.
pub trait DependOnCreateSimpleDataService: 'static + Send + Sync {
    type CreateSimpleDataService: CreateSimpleDataService;

    spec fn simple_data_service(&self) -> Self::CreateSimpleDataService;

    fn create_simple_data_service(&self) -> (r: &Self::CreateSimpleDataService)
        ensures
            *r == self.simple_data_service(),
    ;
}

/// Root of the direct strategy: it owns the repository and is its own
/// service.
pub struct SimpleHandler<R> {
    repo: R,
}

impl SimpleHandler<DataRepository> {
    pub fn init() -> (r: SimpleHandler<DataRepository>)
        ensures
            r.repo().outcome() == Ok::<(), u64>(()),
    {
        SimpleHandler { repo: DataRepository::new(Pool) }
    }
}

impl<R: Repository> SimpleHandler<R> {
    pub fn with_repository(repo: R) -> (r: SimpleHandler<R>)
        ensures
            r.repo() == repo,
    {
        SimpleHandler { repo }
    }
}

impl<R: Repository> DependOnRepository for SimpleHandler<R> {
    type Repository = R;

    closed spec fn repo(&self) -> R {
        self.repo
    }

    fn repository(&self) -> (r: &R) {
        &self.repo
    }
}

impl<R: Repository> DependOnCreateSimpleDataService for SimpleHandler<R> {
    type CreateSimpleDataService = Self;

    open spec fn simple_data_service(&self) -> Self {
        *self
    }

    fn create_simple_data_service(&self) -> (r: &Self) {
        self
    }
}

} // verus!

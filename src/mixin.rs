use vstd::prelude::*;

use crate::{create_outcome, DataRepository, DependOnRepository, Pool, Repository};

verus! {

/// The use case as a function of the consumer `T`, hosted by a stateless
/// implementation type.
pub trait CreateUserService<T>: 'static + Sync + Send where T: ?Sized + DependOnRepository {
    fn create(this: &T, id: String) -> (r: Result<u64, u64>)
        ensures
            r == create_outcome(this.repo().outcome()),
    ;
}

/// The mixin strategy: a consumer names the implementation type that
/// serves it, and `create` forwards to that type with the consumer itself.
pub trait MixinCreateUserService: 'static + Sync + Send + DependOnRepository {
    type Definite: CreateUserService<Self>;

    fn create(&self, id: String) -> (r: Result<u64, u64>)
        ensures
            r == create_outcome(self.repo().outcome()),
    {
        Self::Definite::create(self, id)
    }
}

/// The stateless implementation type of the mixin strategy.
pub struct UserService;

impl<T> CreateUserService<T> for UserService where T: DependOnRepository {
    fn create(this: &T, _id: String) -> (r: Result<u64, u64>) {
        this.repository().create()?;
        Ok(1)
    }
}

/// Root of the mixin strategy: it owns the repository and names
/// `UserService` as its implementation.
pub struct MixinHandler<R> {
    repo: R,
}

impl MixinHandler<DataRepository> {
    pub fn init() -> (r: MixinHandler<DataRepository>)
        ensures
            r.repo().outcome() == Ok::<(), u64>(()),
    {
        MixinHandler { repo: DataRepository::new(Pool) }
    }
}

impl<R: Repository> MixinHandler<R> {
    pub fn with_repository(repo: R) -> (r: MixinHandler<R>)
        ensures
            r.repo() == repo,
    {
        MixinHandler { repo }
    }
}

impl<R: Repository> DependOnRepository for MixinHandler<R> {
    type Repository = R;

    closed spec fn repo(&self) -> R {
        self.repo
    }

    fn repository(&self) -> (r: &R) {
        &self.repo
    }
}

impl<R: Repository> MixinCreateUserService for MixinHandler<R> {
    type Definite = UserService;
}

} // verus!

use vstd::prelude::*;

pub mod interactor;
pub mod mixin;
pub mod simple;
pub mod equivalence;

verus! {

/// What a service operation returns once its one capability call came back
/// with `outcome`: the record identifier 1 on success, the capability's
/// failure code unchanged otherwise.
pub open spec fn create_outcome(outcome: Result<(), u64>) -> Result<u64, u64> {
    match outcome {
        Ok(_) => Ok(1),
        Err(code) => Err(code),
    }
}

/// The innermost capability: "can create a record".
pub trait Repository: 'static + Send + Sync {
    /// What `create` answers for this repository.
    spec fn outcome(&self) -> Result<(), u64>;

    fn create(&self) -> (r: Result<(), u64>)
        ensures
            r == self.outcome(),
    ;
}

/// A shared backing resource, such as a connection pool.
#[derive(Clone, Copy)]
pub struct Pool;

/// The concrete repository over a `Pool`; it always succeeds.
#[derive(Clone, Copy)]
pub struct DataRepository(Pool);

impl DataRepository {
    pub fn new(pool: Pool) -> (r: DataRepository)
        ensures
            r.outcome() == Ok::<(), u64>(()),
    {
        DataRepository(pool)
    }
}

impl Repository for DataRepository {
    open spec fn outcome(&self) -> Result<(), u64> {
        Ok(())
    }

    fn create(&self) -> (r: Result<(), u64>) {
        Ok(())
    }
}

/// A stand-in capability whose every `create` fails with one fixed code.
#[derive(Clone, Copy)]
pub struct FailingRepository {
    code: u64,
}

impl FailingRepository {
    pub fn new(code: u64) -> (r: FailingRepository)
        ensures
            r.outcome() == Err::<(), u64>(code),
    {
        FailingRepository { code }
    }

    pub closed spec fn spec_code(&self) -> u64 {
        self.code
    }

    pub fn code(&self) -> (r: u64)
        ensures
            r == self.spec_code(),
    {
        self.code
    }
}

impl Repository for FailingRepository {
    closed spec fn outcome(&self) -> Result<(), u64> {
        Err(self.code)
    }

    fn create(&self) -> (r: Result<(), u64>) {
        Err(self.code)
    }
}

/// A consumer that holds exactly one repository, reachable by reference.
pub trait DependOnRepository: 'static + Send + Sync {
    type Repository: Repository;

    /// The one repository instance this consumer resolves to.
    spec fn repo(&self) -> Self::Repository;

    fn repository(&self) -> (r: &Self::Repository)
        ensures
            *r == self.repo(),
    ;
}

} // verus!

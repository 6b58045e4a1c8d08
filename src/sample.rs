//! A sample entity and a stand-in pool, for trying the generated repositories.
use vstd::prelude::*;

verus! {

/// A pool that holds no connections.
#[derive(Clone, Copy, Debug, PartialEq, Eq, Structural)]
pub struct DummyPool;

/// An account record.
#[derive(Clone, Debug, PartialEq, Eq)]
pub struct Account {
    pub id: String,
    pub sub: String,
    pub name: String,
}

/// A stand-in pool for a repository whose queries are not implemented yet.
pub fn dummy_pool() -> (r: DummyPool)
    ensures
        r == DummyPool,
{
    DummyPool
}

} // verus!

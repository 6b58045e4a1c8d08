//! The blocking repository traits that generated repositories implement,
//! one per capability, failing with diesel's error type.
use vstd::prelude::*;
use crate::model::Paged;

verus! {

/// Declares `diesel::result::Error` so that the traits below can name it as
/// their error type. Values of it are only carried, never inspected, so
/// nothing about them is assumed.
#[verifier::external_type_specification]
#[verifier::external_body]
pub struct ExDieselError(diesel::result::Error);

/// Retrieves a record by its identifier.
pub trait FindById<T, ID> {
    fn find_by_id(&self, id: ID) -> Result<T, diesel::result::Error>;
}

/// Retrieves the one record a query selects.
pub trait FindOneByQuery<T, Q> {
    fn find_one_by_query(&self, query: Q) -> Result<T, diesel::result::Error>;
}

/// Retrieves the records a query selects.
pub trait FindByQuery<T, Q> {
    fn find_by_query(&self, query: Q) -> Result<Vec<T>, diesel::result::Error>;
}

/// Retrieves every record of the table.
pub trait FindAll<T> {
    fn find_all(&self) -> Result<Vec<T>, diesel::result::Error>;
}

/// Inserts a new record and returns the stored record.
pub trait Save<T, NewRecord> {
    fn save(&self, new_record: NewRecord) -> Result<T, diesel::result::Error>;
}

/// Updates a record and returns the stored record.
pub trait Update<T, UpdateRecord> {
    fn update(&self, update_record: UpdateRecord) -> Result<T, diesel::result::Error>;
}

/// Replaces a record, inserting it when it does not exist.
pub trait Replace<T, NewRecord> {
    fn replace(&self, new_record: NewRecord) -> Result<T, diesel::result::Error>;
}

/// Deletes the record with the given identifier.
pub trait Delete<ID> {
    fn delete(&self, id: ID) -> Result<(), diesel::result::Error>;
}

/// Counts the records a query selects.
pub trait Count<Q> {
    fn count(&self, query: Q) -> Result<i64, diesel::result::Error>;
}

/// Retrieves one page of the records a query selects.
pub trait FindByQueryPaged<T> {
    fn find_by_query_paged<Q: diesel::QueryDsl>(
        &self,
        query: Q,
        page: i64,
        per_page: i64,
    ) -> Result<Paged<T>, diesel::result::Error>;
}

/// Retrieves one page of the table.
pub trait FindAllPaged<T> {
    fn find_all_paged(&self, page: i64, per_page: i64) -> Result<Paged<T>, diesel::result::Error>;
}

/// Retrieves the records with the given identifiers.
pub trait FindByIdBatch<T, ID> {
    fn find_by_id_batch(&self, ids: &[ID]) -> Result<Vec<T>, diesel::result::Error>;
}

/// Inserts several records at once.
pub trait SaveBatch<T, NewRecord> {
    fn save_batch(&self, new_records: &[NewRecord]) -> Result<Vec<T>, diesel::result::Error>;
}

/// Updates several records at once.
pub trait UpdateBatch<T, UpdateRecord> {
    fn update_batch(&self, update_records: &[UpdateRecord]) -> Result<Vec<T>, diesel::result::Error>;
}

/// Deletes the records with the given identifiers.
pub trait DeleteBatch<ID> {
    fn delete_batch(&self, ids: &[ID]) -> Result<(), diesel::result::Error>;
}

/// Retrieves every record of the table.
pub trait FindAllRepo<T> {
    fn find_all(&self) -> Result<Vec<T>, diesel::result::Error>;
}

/// Retrieves the record with an integer identifier, if there is one.
pub trait FindOneRepo<T> {
    fn find_one(&self, id: i32) -> Result<Option<T>, diesel::result::Error>;
}

/// Retrieves one page of the table.
pub trait FindAllPagingRepo<T> {
    fn find_all_paging(&self, page: i64, per_page: i64) -> Result<Vec<T>, diesel::result::Error>;
}

} // verus!

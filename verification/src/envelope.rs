//! The uniform response envelope and the failure taxonomy.
//!
//! Every store operation reports through `ApiResponse`: success carries the
//! payload, failure carries a typed `StoreError` that an embedding can render
//! through `ApiResponse::failure`. Absent rows are not failures: point
//! lookups succeed with an empty payload.

use vstd::prelude::*;

verus! {

/// Why a store operation failed.
///
/// `StorageUnavailable`: the backing store is not ready (here: the store was
/// not initialized, or the embedding could not open its backing file).
/// `ConstraintViolation`: a duplicate id, a duplicate user email, or a
/// missing owning user. `QueryError`: an internal malformed-query defect;
/// the verified operations never produce it, it exists so that an embedding
/// can surface such a defect in its own storage layer through the same
/// taxonomy.
#[derive(Clone, Copy, Debug, PartialEq, Eq, Structural)]
pub enum StoreError {
    StorageUnavailable,
    ConstraintViolation,
    QueryError,
}

impl StoreError {
    /// The human-readable message for this failure kind.
    pub open spec fn text(&self) -> Seq<char> {
        match self {
            StoreError::StorageUnavailable => "storage unavailable"@,
            StoreError::ConstraintViolation => "constraint violation"@,
            StoreError::QueryError => "query error"@,
        }
    }

    pub fn message(&self) -> (r: String)
        ensures
            r@ == self.text(),
    {
        match self {
            StoreError::StorageUnavailable => "storage unavailable".to_owned(),
            StoreError::ConstraintViolation => "constraint violation".to_owned(),
            StoreError::QueryError => "query error".to_owned(),
        }
    }
}

/// One page of a range query: the rows of the requested page, the total
/// count of matching rows across all pages, and the request's page number
/// (1-based) and page size.
#[derive(Debug, PartialEq)]
pub struct ApiPagedResult<T> {
    pub items: Vec<T>,
    pub total: usize,
    pub page: usize,
    pub page_size: usize,
}

/// The uniform envelope every operation returns: a success flag, an optional
/// payload, and an optional human-readable message.
#[derive(Debug, PartialEq)]
pub struct ApiResponse<T> {
    pub success: bool,
    pub data: Option<T>,
    pub message: Option<String>,
}

impl<T> ApiResponse<T> {
    /// The success envelope around a payload.
    pub fn ok(data: T) -> (r: Self)
        ensures
            r.success == true,
            r.data == Some(data),
            r.message is None,
    {
        ApiResponse { success: true, data: Some(data), message: None }
    }

    /// The failure envelope for a typed error.
    pub fn failure(e: &StoreError) -> (r: Self)
        ensures
            r.success == false,
            r.data is None,
            r.message matches Some(m) && m@ == e.text(),
    {
        ApiResponse { success: false, data: None, message: Some(e.message()) }
    }
}

} // verus!

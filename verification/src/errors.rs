//! Error kinds: those the outside stores report, and the canonical kinds the
//! storage router and the scheduler hand to their callers.

use vstd::prelude::*;
use vstd::string::StringExecFns;

verus! {

/// An error as the durable store reports it.
#[derive(Clone, Copy, Debug, PartialEq, Eq, Structural)]
pub enum DatabaseError {
    DatabaseConnectionError,
    NotFound,
    UniqueViolation,
    NoFieldsToUpdate,
    QueryGenerationFailed,
    Others,
}

/// An error as the cache reports it once a connection is held.
#[derive(Clone, Copy, Debug, PartialEq, Eq, Structural)]
pub enum RedisError {
    SetHashFailed,
    SetHashFieldFailed,
    GetHashFieldFailed,
    StreamAppendFailed,
    NotFound,
    RedisConnectionError,
    JsonSerializationFailed,
    JsonDeserializationFailed,
    UnknownResult,
}

/// Why a call to the cache did not succeed.
#[derive(Debug, PartialEq)]
pub enum CacheFailure {
    /// No connection to the cache could be had; the text says why.
    Unavailable(String),
    /// The cache was reached and the operation failed.
    Operation(RedisError),
}

/// A cache failure, with its reason as a text.
pub enum CacheFailureView {
    Unavailable(Seq<char>),
    Operation(RedisError),
}

impl View for CacheFailure {
    type V = CacheFailureView;

    open spec fn view(&self) -> CacheFailureView {
        match *self {
            CacheFailure::Unavailable(reason) => CacheFailureView::Unavailable(reason@),
            CacheFailure::Operation(e) => CacheFailureView::Operation(e),
        }
    }
}

/// The canonical storage error kinds.
#[derive(Debug, PartialEq)]
pub enum StorageError {
    /// The durable store failed in a way that has no kind of its own.
    DatabaseError(String),
    /// Nothing is stored under the identifier asked for.
    ValueNotFound(String),
    /// The record conflicts with one that exists. Permanent: the same write
    /// will conflict again.
    DuplicateValue { entity: &'static str, key: Option<String> },
    /// The durable store could not be reached.
    DatabaseConnectionError,
    /// A cache or queue operation failed.
    KVError,
    /// A record could not be encoded for the cache or the queue. Permanent:
    /// the same record will not encode next time.
    SerializationFailed,
    /// What the cache holds could not be decoded as a record.
    DeserializationFailed,
    /// The customer asked for was redacted.
    CustomerRedacted,
    /// No connection to the cache could be had.
    RedisError(String),
    /// An answer arrived that the operation in progress was not waiting for.
    UnexpectedFlow,
}

/// A storage error, with its texts as sequences of characters.
pub enum StorageErrorView {
    DatabaseError(Seq<char>),
    ValueNotFound(Seq<char>),
    DuplicateValue { entity: Seq<char>, key: Option<Seq<char>> },
    DatabaseConnectionError,
    KVError,
    SerializationFailed,
    DeserializationFailed,
    CustomerRedacted,
    RedisError(Seq<char>),
    UnexpectedFlow,
}

impl View for StorageError {
    type V = StorageErrorView;

    open spec fn view(&self) -> StorageErrorView {
        match *self {
            StorageError::DatabaseError(text) => StorageErrorView::DatabaseError(text@),
            StorageError::ValueNotFound(text) => StorageErrorView::ValueNotFound(text@),
            StorageError::DuplicateValue { entity, key } => StorageErrorView::DuplicateValue {
                entity: entity@,
                key: match key {
                    Some(k) => Some(k@),
                    None => None,
                },
            },
            StorageError::DatabaseConnectionError => StorageErrorView::DatabaseConnectionError,
            StorageError::KVError => StorageErrorView::KVError,
            StorageError::SerializationFailed => StorageErrorView::SerializationFailed,
            StorageError::DeserializationFailed => StorageErrorView::DeserializationFailed,
            StorageError::CustomerRedacted => StorageErrorView::CustomerRedacted,
            StorageError::RedisError(text) => StorageErrorView::RedisError(text@),
            StorageError::UnexpectedFlow => StorageErrorView::UnexpectedFlow,
        }
    }
}

impl StorageErrorView {
    /// The lookup found nothing.
    pub open spec fn is_not_found(self) -> bool {
        self is ValueNotFound
    }

    /// The write conflicts with an existing record.
    pub open spec fn is_unique_violation(self) -> bool {
        self is DuplicateValue
    }

    /// Whether the caller may try the same operation again: a store that
    /// could not be reached, or a cache operation that failed, may succeed
    /// next time; a conflict, a miss or an unreadable payload will not.
    pub open spec fn retryable(self) -> bool {
        self is DatabaseConnectionError || self is KVError || self is RedisError
    }
}

impl StorageError {
    /// Whether the lookup found nothing.
    pub fn is_db_not_found(&self) -> (r: bool)
        ensures
            r == self@.is_not_found(),
    {
        match self {
            StorageError::ValueNotFound(_) => true,
            _ => false,
        }
    }

    /// Whether the write conflicts with an existing record.
    pub fn is_db_unique_violation(&self) -> (r: bool)
        ensures
            r == self@.is_unique_violation(),
    {
        match self {
            StorageError::DuplicateValue { .. } => true,
            _ => false,
        }
    }

    /// Whether the caller may try the same operation again.
    pub fn is_retryable(&self) -> (r: bool)
        ensures
            r == self@.retryable(),
    {
        match self {
            StorageError::DatabaseConnectionError
            | StorageError::KVError
            | StorageError::RedisError(_) => true,
            _ => false,
        }
    }
}

/// The canonical kind of an error of the durable store.
pub open spec fn data_error(e: DatabaseError) -> StorageErrorView {
    match e {
        DatabaseError::DatabaseConnectionError => StorageErrorView::DatabaseConnectionError,
        DatabaseError::NotFound => StorageErrorView::ValueNotFound("Value not found"@),
        DatabaseError::UniqueViolation => StorageErrorView::DuplicateValue {
            entity: "entity "@,
            key: None,
        },
        DatabaseError::NoFieldsToUpdate => StorageErrorView::DatabaseError("No fields to update"@),
        DatabaseError::QueryGenerationFailed => StorageErrorView::DatabaseError(
            "Query generation failed"@,
        ),
        DatabaseError::Others => StorageErrorView::DatabaseError("Others"@),
    }
}

/// The canonical error for an error of the durable store, so that callers
/// never branch on the store's own error type.
pub fn diesel_error_to_data_error(diesel_error: &DatabaseError) -> (r: StorageError)
    ensures
        r@ == data_error(*diesel_error),
{
    match diesel_error {
        DatabaseError::DatabaseConnectionError => StorageError::DatabaseConnectionError,
        DatabaseError::NotFound => StorageError::ValueNotFound(
            String::from_str("Value not found"),
        ),
        DatabaseError::UniqueViolation => StorageError::DuplicateValue {
            entity: "entity ",
            key: None,
        },
        DatabaseError::NoFieldsToUpdate => StorageError::DatabaseError(
            String::from_str("No fields to update"),
        ),
        DatabaseError::QueryGenerationFailed => StorageError::DatabaseError(
            String::from_str("Query generation failed"),
        ),
        DatabaseError::Others => StorageError::DatabaseError(String::from_str("Others")),
    }
}

/// The canonical kind of a failed call to the cache: no connection is
/// reported with its reason; a payload that could not be encoded or decoded
/// as such; anything else as a cache error.
pub open spec fn cache_error(failure: CacheFailureView) -> StorageErrorView {
    match failure {
        CacheFailureView::Unavailable(reason) => StorageErrorView::RedisError(reason),
        CacheFailureView::Operation(RedisError::JsonSerializationFailed) => {
            StorageErrorView::SerializationFailed
        },
        CacheFailureView::Operation(RedisError::JsonDeserializationFailed) => {
            StorageErrorView::DeserializationFailed
        },
        CacheFailureView::Operation(_) => StorageErrorView::KVError,
    }
}

/// The canonical error for a failed call to the cache.
pub fn cache_failure_to_data_error(failure: CacheFailure) -> (r: StorageError)
    ensures
        r@ == cache_error(failure@),
{
    match failure {
        CacheFailure::Unavailable(reason) => StorageError::RedisError(reason),
        CacheFailure::Operation(RedisError::JsonSerializationFailed) => {
            StorageError::SerializationFailed
        },
        CacheFailure::Operation(RedisError::JsonDeserializationFailed) => {
            StorageError::DeserializationFailed
        },
        CacheFailure::Operation(_) => StorageError::KVError,
    }
}

/// What the caller of a customer operation is told went wrong.
#[derive(Clone, Copy, Debug, PartialEq, Eq, Structural)]
pub enum CustomersErrorResponse {
    CustomerRedacted,
    InternalServerError,
    MandateActive,
    CustomerNotFound,
}

/// What a storage error means to the caller of a customer operation.
pub open spec fn customer_error(e: StorageErrorView) -> CustomersErrorResponse {
    if e.is_not_found() {
        CustomersErrorResponse::CustomerNotFound
    } else if e is CustomerRedacted {
        CustomersErrorResponse::CustomerRedacted
    } else {
        CustomersErrorResponse::InternalServerError
    }
}

impl StorageError {
    /// What the error means to the caller of a customer operation.
    pub fn switch(&self) -> (r: CustomersErrorResponse)
        ensures
            r == customer_error(self@),
    {
        match self {
            StorageError::ValueNotFound(_) => CustomersErrorResponse::CustomerNotFound,
            StorageError::CustomerRedacted => CustomersErrorResponse::CustomerRedacted,
            _ => CustomersErrorResponse::InternalServerError,
        }
    }
}

/// Errors of the scheduler.
#[derive(Clone, Copy, Debug, PartialEq, Eq, Structural)]
pub enum ProcessTrackerError {
    /// A task names a workflow that nothing implements, or a part of the
    /// scheduler broke one of its own invariants.
    UnexpectedFlow,
    /// The scheduler could not be set up; fatal at startup.
    ConfigurationError,
    /// Claiming tasks failed, or the claimed tasks could not be marked as
    /// started.
    ProcessFetchingFailed,
    /// A task's status could not be recorded.
    ProcessUpdateFailed,
    /// A workflow cannot do what the task asks for.
    NotImplemented,
}

} // verus!

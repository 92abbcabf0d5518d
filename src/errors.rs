use vstd::prelude::*;
use crate::codec::PayloadError;

verus! {

/// The failures that the event store reports for an operation.
#[derive(Debug, Clone)]
pub enum OperationError {
    WrongExpectedVersion(String),
    StreamDeleted(String),
    InvalidTransaction,
    AccessDenied(String),
    ProtobufDecodingError(String),
    ServerError(Option<String>),
    InvalidOperation(String),
    StreamNotFound(String),
    AuthenticationRequired,
    Aborted,
    WrongClientImpl,
    ConnectionHasDropped,
    NotImplemented,
    ConnectionClosed,
}

/// The closed set of errors that storage operations surface.
#[derive(Debug, Clone)]
pub enum DatabaseError {
    /// The connection to the store failed; the caller may retry.
    ConnectionFailed,
    /// Any other failure of the store, passed on as it came.
    DatabaseError(OperationError),
    /// The store refused access.
    AccessDenied(String),
    /// A payload could not be encoded or decoded.
    SerializationError(PayloadError),
    /// The stream is absent or was deleted.
    NotFound,
}

/// Whether the store error says that the stream is absent or deleted.
pub open spec fn is_missing_stream(e: OperationError) -> bool {
    e is StreamNotFound || e is StreamDeleted
}

impl DatabaseError {
    /// Maps a store failure into the error set once, at the boundary.
    pub fn from_operation_error(e: OperationError) -> (r: DatabaseError)
        ensures
            e matches OperationError::AccessDenied(s) ==> r == DatabaseError::AccessDenied(s),
            e is AuthenticationRequired ==> (r matches DatabaseError::AccessDenied(s) && s@ == "Not authenticated"@),
            is_missing_stream(e) ==> r is NotFound,
            (e is Aborted || e is ConnectionHasDropped) ==> r is ConnectionFailed,
            !(e is AccessDenied || e is AuthenticationRequired || is_missing_stream(e) || e is Aborted
                || e is ConnectionHasDropped) ==> r == DatabaseError::DatabaseError(e),
    {
        match e {
            OperationError::AccessDenied(s) => DatabaseError::AccessDenied(s),
            OperationError::AuthenticationRequired => DatabaseError::AccessDenied("Not authenticated".to_owned()),
            OperationError::StreamDeleted(_) => DatabaseError::NotFound,
            OperationError::StreamNotFound(_) => DatabaseError::NotFound,
            OperationError::Aborted => DatabaseError::ConnectionFailed,
            OperationError::ConnectionHasDropped => DatabaseError::ConnectionFailed,
            other => DatabaseError::DatabaseError(other),
        }
    }

    /// Whether this is the error for an absent or deleted stream.
    pub fn is_not_found(&self) -> (r: bool)
        ensures
            r == (*self is NotFound),
    {
        match self {
            DatabaseError::NotFound => true,
            _ => false,
        }
    }
}

/// Turns "not found" outcomes of a lookup into an absent result.
pub trait ESResultExt<T>: Sized {
    fn map_not_found(self) -> Result<Option<T>, OperationError>;
}

impl<T> ESResultExt<T> for Result<Option<T>, OperationError> {
    /// `Some(x)` when found, `None` when the stream is absent or deleted, and
    /// any other error as it came.
    fn map_not_found(self) -> (r: Result<Option<T>, OperationError>) {
        map_not_found(self)
    }
}

/// Turns "not found" outcomes of a lookup into an absent result: `Some(x)`
/// when found, `None` when the stream is absent or deleted, and any other
/// error as it came.
pub fn map_not_found<T>(res: Result<Option<T>, OperationError>) -> (r: Result<Option<T>, OperationError>)
    ensures
        res matches Ok(x) ==> r == Ok::<Option<T>, OperationError>(x),
        res matches Err(e) ==> (if is_missing_stream(e) {
            r == Ok::<Option<T>, OperationError>(None)
        } else {
            r == Err::<Option<T>, OperationError>(e)
        }),
{
    match res {
        Ok(x) => Ok(x),
        Err(e) => match e {
            OperationError::StreamNotFound(_) => Ok(None),
            OperationError::StreamDeleted(_) => Ok(None),
            other => Err(other),
        },
    }
}

} // verus!

use vstd::prelude::*;

verus! {

/// Error kinds surfaced to callers of the management service.
#[derive(Clone, Copy, Debug, PartialEq, Eq, Structural)]
pub enum ServiceError {
    /// Missing metadata, malformed identifiers, or an otherwise ill-formed request.
    InvalidRequest,
    /// Internal encoding failure, e.g. an invalid synthetic fusion URL.
    DataError,
    /// The underlying storage rejected a read or a write.
    StorageError,
    /// An authorization rule was violated, or a lookup failed (lookups are
    /// indistinguishable from denials, to avoid existence oracles).
    PermissionDenied,
    /// Task construction rejected the request, e.g. a slot-name mismatch.
    BadTask,
}

impl ServiceError {
    /// The short human-readable message for this error kind.
    pub fn message(&self) -> (r: String)
        ensures
            self is InvalidRequest ==> r@ == "invalid request"@,
            self is DataError ==> r@ == "data error"@,
            self is StorageError ==> r@ == "storage error"@,
            self is PermissionDenied ==> r@ == "permission denied"@,
            self is BadTask ==> r@ == "bad task"@,
    {
        match self {
            ServiceError::InvalidRequest => String::from_str("invalid request"),
            ServiceError::DataError => String::from_str("data error"),
            ServiceError::StorageError => String::from_str("storage error"),
            ServiceError::PermissionDenied => String::from_str("permission denied"),
            ServiceError::BadTask => String::from_str("bad task"),
        }
    }
}

/// The error envelope carried on the wire: a kind tag with a human string.
#[derive(Clone, Debug, PartialEq, Eq)]
pub enum TeaclaveServiceResponseError {
    RequestError(String),
}

impl From<ServiceError> for TeaclaveServiceResponseError {
    fn from(error: ServiceError) -> (r: TeaclaveServiceResponseError) {
        TeaclaveServiceResponseError::RequestError(error.message())
    }
}

impl vstd::std_specs::convert::FromSpecImpl<ServiceError> for TeaclaveServiceResponseError {
    open spec fn obeys_from_spec() -> bool {
        false
    }

    open spec fn from_spec(t: ServiceError) -> TeaclaveServiceResponseError {
        TeaclaveServiceResponseError::RequestError(arbitrary())
    }
}

} // verus!

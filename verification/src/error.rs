//! The failures that an operation of a torrent client can report.

use crate::client::qbittorrent::QbClientError;
use vstd::prelude::*;
use vstd::std_specs::convert::FromSpecImpl;

verus! {

/// The closed set of failures. The transport's and the decoder's failures
/// carry their cause as text, for diagnostics.
#[derive(Debug, PartialEq, Eq)]
pub enum ClientError {
    /// The transport failed: connection refused, timeout, or a response that
    /// is no success and no other kind of failure.
    Http(String),
    /// The daemon rejected the session or the credentials: log in again.
    Authorization,
    /// The daemon's response could not be decoded into the expected shape.
    Parsing(String),
}

impl QbClientError {
    /// The failure of the domain that stands for this failure of the daemon's
    /// client: kind for kind, with the same cause.
    pub open spec fn to_domain(self) -> ClientError {
        match self {
            QbClientError::Http(cause) => ClientError::Http(cause),
            QbClientError::Authorization => ClientError::Authorization,
            QbClientError::Json(cause) => ClientError::Parsing(cause),
        }
    }
}

impl From<QbClientError> for ClientError {
    /// The failure that the caller sees for a failure of the daemon's
    /// client: the same kind, with the same cause.
    fn from(err: QbClientError) -> (domain: Self)
        ensures
            domain == err.to_domain(),
    {
        match err {
            QbClientError::Http(cause) => ClientError::Http(cause),
            QbClientError::Authorization => ClientError::Authorization,
            QbClientError::Json(cause) => ClientError::Parsing(cause),
        }
    }
}

impl FromSpecImpl<QbClientError> for ClientError {
    open spec fn obeys_from_spec() -> bool {
        true
    }

    open spec fn from_spec(err: QbClientError) -> ClientError {
        err.to_domain()
    }
}

} // verus!

//! Bindings of the domain model to concrete torrent daemons.
//!
//! An operation of a torrent client has three steps: the caller's values
//! become the daemon's records, the request is made, and the daemon's answer
//! becomes the caller's result. The first and the last step are decided
//! here, one module per daemon; the request itself is the caller's to make.

pub mod qbittorrent;

use crate::error::ClientError;
use vstd::prelude::*;

verus! {

/// What every operation of a torrent client returns: its value, or one of
/// the failures of [`ClientError`].
pub type ClientResult<T> = Result<T, ClientError>;

} // verus!

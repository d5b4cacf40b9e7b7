//! Ingestion and query logic of a small log collector: log events arrive as
//! JSON datagrams, are decoded and checked, stored, and served back as a JSON
//! array over HTTP.
use vstd::prelude::*;

pub mod codec;
pub mod event;
pub mod query;
pub mod receiver;
pub mod store;
pub mod text;

verus! {

/// Largest datagram payload that the receiver accepts, in bytes.
pub const MAX_DATAGRAM_LEN: usize = 65536;

} // verus!

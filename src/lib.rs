//! The core of a keyed t-digest store: a digest's state held as exact
//! IEEE-754 bit patterns, its byte codec, and the decisions taken on merge
//! and quantile requests.

pub mod digest;
pub mod codec;
pub mod merge;
pub mod query;

//! Bridge between a host runtime and an Overpass query compiler: dialect
//! selection, a scoped store for host-supplied quoting callables, and a plain
//! model of parsed requests and their selectors.

pub mod error;
pub mod registry;
pub mod selectors;
pub mod request;
pub mod dialect;
pub mod session;

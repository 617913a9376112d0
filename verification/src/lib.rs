//! A small CRUD library for a single "todo item" resource.
//!
//! The core is the routing layer: five operations (list, get, create,
//! update, delete) over an id-keyed store of items, each returning an
//! HTTP-style response whose status code and body are pinned down by
//! contracts. The store itself is an in-memory collection with an
//! auto-incrementing id, modelled by a ghost sequence of item views.

pub mod laws;
pub mod response;
pub mod routes;
pub mod store;
pub mod todo;

//! Request handling for a small service that keeps debt records in a
//! document store: the record model, the five operations on it, and the
//! responses they give.

pub mod error;
pub mod model;
pub mod models;
pub mod routes;
pub mod strings;

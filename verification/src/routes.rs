//! The operations of the service and the text of their responses.

pub mod json;
pub mod response;
pub mod route;
pub mod store;

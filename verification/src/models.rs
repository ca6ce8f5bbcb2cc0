//! The record model and the values it is made of.

pub mod datetime;
pub mod debt;
pub mod oid;

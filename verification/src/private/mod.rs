//! Internals of the library that are not part of the C API.

pub mod bson;
pub mod safety;

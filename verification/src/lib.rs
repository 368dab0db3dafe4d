//! Verified core of an OpenAPI document generator: integer schema bounds,
//! nullable schemas, query and path parameter expansion, and the response
//! table of an operation.

pub mod integer;
pub mod openapi;
pub mod outside;
pub mod parameters;
pub mod responses;
pub mod schema_ref;

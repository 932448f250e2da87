//! Embedding bridge between a native columnar query engine and a host
//! scripting runtime.
//!
//! The core is (a) a type-dispatch marshaller that converts one result
//! batch's columns into host arrays, by declared element type, and (b) a
//! scalar-function bridge that lets a host callable act as a per-row
//! user-defined function, propagating nulls and failing whole batches on
//! any callable error. A thin context facade records table and function
//! registrations; the engine itself (parsing, planning, file ingestion) is
//! an external collaborator reached from unverified glue code.

pub mod arrow_float;
pub mod column;
pub mod context;
pub mod error;
pub mod marshal;
pub mod udf;

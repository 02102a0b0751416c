//! Typed-column substrate of an in-memory analytical engine.
//!
//! The crate describes a column's logical data type, binds each logical type
//! to one physical in-memory array representation through stateless marker
//! types, layers numeric capabilities over the markers so that generic
//! kernels are written once, and exposes a verified rolling-aggregation
//! surface for integer-marked columns.

pub mod backing;
pub mod chunked;
pub mod datatypes;
pub mod dtype;
pub mod numeric;
pub mod rolling;
pub mod series_ops;

//! Decoding of class-tagged polymorphic JSON documents, as a Jenkins API
//! client needs it: a closed tagged union with a fallback variant for
//! unrecognized discriminants, an open common-record strategy that captures
//! undeclared fields in an overflow container, a class registry, and a
//! uniform read interface over the common build fields.
pub mod builds;
pub mod closed;
pub mod common;
pub mod error;
pub mod open;
pub mod registry;
pub mod text;
pub mod user;
pub mod value;

//! Builder-method synthesis for record declarations.
//!
//! Given a record declaration with named fields, this library resolves the
//! `smelter` directives attached to the type and to its fields and returns,
//! for every field that is not suppressed, the description of two methods:
//! one that consumes the receiver and one that changes it in place.

pub mod code_gen;
pub mod directives;
pub mod instance;
pub mod model;
pub mod naming;
pub mod theorems;

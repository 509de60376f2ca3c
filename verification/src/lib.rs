//! Generator of strongly-typed client bindings from a GraphQL introspection
//! schema: a pure, deterministic transformation from an immutable schema value
//! to one module of target-language source text.

pub mod model;
pub mod naming;
pub mod typeref;
pub mod fields;
pub mod fragment;
pub mod object;
pub mod scalar;
pub mod enums;
pub mod input_object;
pub mod strorder;
pub mod generator;
pub mod laws;

pub use generator::generate;

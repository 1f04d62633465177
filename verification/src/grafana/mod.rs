//! Validation, deterministic layout, and lowering to Grafana JSON.
pub mod field;
pub mod layout;
pub mod normalize;
pub mod panel;
pub mod query;
pub mod transform;
pub mod validate;
pub mod variable;
pub mod wire;

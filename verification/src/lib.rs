//! A verified core for a script-extensible lint-rule catalog.
//!
//! Script modules, evaluated by an embedding runtime, publish rule metadata
//! through a single registration entry point.  This crate holds the verified
//! heart of that system: the JSON-shaped value model, the rule/schema data
//! model with its parsing and validation semantics, the rule registry, the
//! module-locator handling (resolution, scheme gating, byte-order-mark
//! stripping), and the decision logic of the module-loading sequence.

pub mod json;
pub mod rule;
pub mod rule_exec_env_ffi;
pub mod rule_executor;
pub mod urls;

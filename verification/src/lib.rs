//! A native plugin host: modules are opened by filesystem path, checked for a
//! fixed identity record and constructor export, and torn down in a safe order.
//!
//! The crate verifies the two delicate parts of that machinery: the
//! code-generation step that turns ordinary text into nul-terminated,
//! interior-nul-free byte strings (so identity data is readable across the
//! module boundary), and the loader/handle logic that orders resolution and
//! teardown so that no reference into a module's memory outlives the module.

pub mod audits;
pub mod codegen;
pub mod config;
pub mod discord;
pub mod func_struct;
pub mod loader;
pub mod logging;
pub mod metrics;
pub mod plugin;
pub mod str_to_cstr;
pub mod struct_literal;

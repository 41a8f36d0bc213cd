//! Introspects a PostgreSQL catalog snapshot and emits statically typed Rust
//! bindings: one declaration per database-defined type and one callable
//! wrapper per function or procedure.
//!
//! The pipeline has two stages. Stage one turns raw catalog rows into a
//! closed type graph and a function catalog. Stage two resolves every
//! referenced type into a Rust representation with capability flags
//! (copyable, serializable) and assembles the generated module.
pub mod diag;
pub mod laws;
pub mod names;
pub mod oidmap;
pub mod render;
pub mod resolve;
pub mod stage1;
pub mod stage2;
pub mod types;

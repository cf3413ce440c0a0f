//! A strictly typed intermediate representation for quantum programs that
//! follow a fixed base profile: straight-line sequences of single-qubit
//! gates, controlled gates, rotations, measurements, resets, classical
//! integer operations, external-function calls, and two-way branching on a
//! classical result.
//!
//! The crate provides the typed value and variable system, the closed
//! instruction set, a builder with a stack of instruction frames for scoped
//! control-flow construction, and the aggregate program model that a backend
//! can lower to a compiler intermediate form.

pub mod builder;
pub mod decimal;
pub mod inst;
pub mod laws;
pub mod model;
pub mod module;
pub mod types;
pub mod values;

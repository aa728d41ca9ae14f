//! A streaming table function that greets: `hello(name, count => n)` yields
//! the rows `Hello <name> n`, `Hello <name> n-1`, ..., `Hello <name> 1`.
//!
//! The crate holds the lifecycle that a query engine drives (bind, global
//! init, per-worker init, repeated production steps, release), stated over
//! plain values so that every transition carries a proved contract.

pub mod error;
pub mod text;
pub mod state;
pub mod vtab;
pub mod scan;

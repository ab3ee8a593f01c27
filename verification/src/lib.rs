//! Core of a monitoring agent: user-authored check scripts are compiled and
//! validated against a fixed entry-point contract, executed inside a fresh
//! interpreter wired to a small set of host capabilities (HTTP calls, a
//! remote-command policy), and their results kept as structured snapshots so
//! that callers can watch for change over time. Endpoints aggregate named
//! checks, and a manager holds the named registry of all of them.

pub mod bridge;
pub mod compare;
pub mod engine;
pub mod errors;
pub mod json;
pub mod manager;
pub mod queryable;
pub mod value;

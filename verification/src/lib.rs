//! Lowering of a contract's public interface to its call dispatcher.
//!
//! Given the functions a contract exposes, this crate builds the selector
//! switch that decodes call data, invokes the matching routine and encodes
//! its result. Every function is verified against a mathematical model of
//! the emitted tree.

pub mod abi;
pub mod assignments;
pub mod digest;
pub mod errors;
pub mod ir;
pub mod laws;
pub mod scopes;
pub mod text;
pub mod types;

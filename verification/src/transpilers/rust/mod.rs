//! The Rust transpiler.

pub mod transpiler;

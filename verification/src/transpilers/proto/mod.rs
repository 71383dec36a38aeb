//! The protobuf transpiler.

pub mod interface;
pub mod transpiler;

//! Turns exported TypeScript declarations (interfaces, enums and classes of
//! remote-call methods) into Rust record definitions or protobuf messages.
//!
//! The declarations arrive as plain values (see [`ast`]); every function
//! here is a pure function from those values to text, with its result
//! specified over the values' mathematical views.
//!
//! What cannot be transpiled is handled in one of three ways:
//!
//! - a keyword type that is no primitive, a method without a usable return
//!   type, and a method without a remote call are errors
//!   ([`utils::TranspileError`]): nothing is written;
//! - a type of a shape that is not handled is written as a placeholder
//!   token, visible in the output;
//! - a member, a parameter or an argument of a shape that is not handled is
//!   left out, and the rest of its declaration is written.
//!
//! The modules:
//!
//! - [`ast`]: the declarations that are read;
//! - [`classify`]: which shape a declaration has;
//! - [`utils`]: from types to tokens, for either backend;
//! - [`interface`], [`enums`], [`class`]: records, enums and methods;
//! - [`transpilers`]: whole modules, as protobuf or as Rust;
//! - [`text`], [`collect`], [`model`]: text, lists and views.

pub mod ast;
pub mod class;
pub mod classify;
pub mod collect;
pub mod enums;
pub mod interface;
pub mod model;
pub mod text;
pub mod transpilers;
pub mod utils;

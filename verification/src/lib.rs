//! A safety layer over a native compiler-frontend library that parses source
//! files into an abstract syntax tree (AST) reachable only through opaque
//! handles and a callback-driven visitor protocol.
//!
//! The verified core covers the pure logic of that layer: the closed
//! classification of native result codes and node kinds, the encoding of
//! visitor decisions, the traversal protocol that those decisions drive, the
//! exactly-once disposal discipline for native resources, and the handling of
//! command-line input. The native calls themselves live in the surrounding
//! application, which hands this crate plain values and takes plain values
//! back.

pub mod cli;
pub mod error;
pub mod index;
pub mod kind;
pub mod text;
pub mod tu;
pub mod util;
pub mod visit;

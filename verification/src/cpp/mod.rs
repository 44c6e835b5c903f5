//! Emitters of the C++ side of the bindings: the header and the class implementations.

pub mod helpers;
pub mod codegen;
pub mod header;
pub mod code;

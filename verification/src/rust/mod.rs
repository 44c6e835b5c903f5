//! Emitters of the Rust side of the bindings: the interface module with the types, the trait
//! to implement, and the `extern "C"` functions that C++ calls.

pub mod cg;
pub mod util;
pub mod emitter;
pub mod model;
pub mod trait_;
pub mod c_ffi;
pub mod render;
pub mod write;
pub mod write_helper;

//! The definitions in the generated C++ source.

pub mod object;
pub mod model_getter_setter;
pub mod single_pass;

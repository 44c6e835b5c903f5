//! Builders for the parts of a configuration: objects, item properties and signals.

pub mod item_prop;
pub mod obj;
pub mod sig;

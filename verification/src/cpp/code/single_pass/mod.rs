//! Writers that produce a whole part of the C++ source in one pass over the object, with the
//! text of every case written out in place: the class definition, the property accessors,
//! and the accessors of a model's item properties.

pub mod model_getter_setter;
pub mod object;
pub mod properties;

//! The C functions of a scalar property.

use crate::configuration::{Object, Property};
use crate::rust::cg::{cg_fn, fn_arg, fn_attr, fn_extern_abi, fn_line, fn_new, fn_ret, fn_vis, FnModel};
use crate::rust::util::{rust_type, spec_rust_type};
use crate::text::{snake, snake_case};
use super::{base, spec_base};
use vstd::prelude::*;
use vstd::string::*;

verus! {

pub open spec fn getter_model(o: Object, name: Seq<char>, p: Property) -> FnModel {
    FnModel::new((spec_base(o, name) + "_get"@)).abi("C"@).attr("no_mangle"@).vis("pub unsafe"@).arg("ptr"@, ("*const "@ + o.name@)).ret(spec_rust_type(p)).line(("(&*ptr)."@ + snake(name) + "()"@))
}

/// The C getter of a scalar property.
pub fn getter(object: &Object, prop_name: &str, property: &Property) -> (r: codegen::Function)
    ensures
        cg_fn(r) == getter_model(*object, prop_name@, *property),
{
    let mut func = fn_new(String::from_str(base(object, prop_name).as_str()).concat("_get").as_str());
    fn_extern_abi(&mut func, "C");
    fn_attr(&mut func, "no_mangle");
    fn_vis(&mut func, "pub unsafe");
    fn_arg(&mut func, "ptr", String::from_str("*const ").concat(object.name.as_str()).as_str());
    fn_ret(&mut func, rust_type(property).as_str());
    fn_line(&mut func, String::from_str("(&*ptr).").concat(snake_case(prop_name).as_str()).concat("()").as_str());
    func
}

pub open spec fn setter_model(o: Object, name: Seq<char>, p: Property) -> FnModel {
    FnModel::new((spec_base(o, name) + "_set"@)).abi("C"@).attr("no_mangle"@).vis("pub unsafe"@).arg("ptr"@, ("*mut "@ + o.name@)).arg("value"@, spec_rust_type(p)).line(("(&mut *ptr).set_"@ + snake(name) + "(value)"@))
}

/// The C setter of a scalar property.
pub fn setter(object: &Object, prop_name: &str, property: &Property) -> (r: codegen::Function)
    ensures
        cg_fn(r) == setter_model(*object, prop_name@, *property),
{
    let mut func = fn_new(String::from_str(base(object, prop_name).as_str()).concat("_set").as_str());
    fn_extern_abi(&mut func, "C");
    fn_attr(&mut func, "no_mangle");
    fn_vis(&mut func, "pub unsafe");
    fn_arg(&mut func, "ptr", String::from_str("*mut ").concat(object.name.as_str()).as_str());
    fn_arg(&mut func, "value", rust_type(property).as_str());
    fn_line(&mut func, String::from_str("(&mut *ptr).set_").concat(snake_case(prop_name).as_str()).concat("(value)").as_str());
    func
}

} // verus!

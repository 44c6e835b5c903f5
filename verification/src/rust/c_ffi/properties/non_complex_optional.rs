//! The C functions of an optional scalar property.

use crate::configuration::{Object, Property};
use crate::rust::cg::{block_line, block_new, cg_fn, fn_arg, fn_attr, fn_extern_abi, fn_line, fn_new, fn_push_block, fn_ret, fn_vis, BlockModel, FnModel};
use crate::rust::util::{rust_type, spec_rust_type};
use crate::text::{snake, snake_case};
use super::{base, spec_base};
use vstd::prelude::*;
use vstd::string::*;

verus! {

pub open spec fn getter_model(o: Object, name: Seq<char>, p: Property) -> FnModel {
    FnModel::new((spec_base(o, name) + "_get"@)).abi("C"@).attr("no_mangle"@).vis("pub unsafe"@).arg("ptr"@, ("*const "@ + o.name@)).ret(("COption<"@ + p.property_type.spec_rust_type() + ">"@)).block(BlockModel::new(("match (&*ptr)."@ + snake(name) + "()"@)).line("Some(value) => COption { data: value, some: true },"@).line(("None => COption { data: "@ + p.property_type.spec_rust_type() + "::default(), some: false},"@)))
}

/// The C getter of an optional scalar property: the value, or a default marked absent.
pub fn getter(object: &Object, prop_name: &str, property: &Property) -> (r: codegen::Function)
    ensures
        cg_fn(r) == getter_model(*object, prop_name@, *property),
{
    let mut func = fn_new(String::from_str(base(object, prop_name).as_str()).concat("_get").as_str());
    fn_extern_abi(&mut func, "C");
    fn_attr(&mut func, "no_mangle");
    fn_vis(&mut func, "pub unsafe");
    fn_arg(&mut func, "ptr", String::from_str("*const ").concat(object.name.as_str()).as_str());
    fn_ret(&mut func, String::from_str("COption<").concat(property.property_type.rust_type()).concat(">").as_str());
    let mut match_block = block_new(String::from_str("match (&*ptr).").concat(snake_case(prop_name).as_str()).concat("()").as_str());
    block_line(&mut match_block, "Some(value) => COption { data: value, some: true },");
    block_line(&mut match_block, String::from_str("None => COption { data: ").concat(property.property_type.rust_type()).concat("::default(), some: false},").as_str());
    fn_push_block(&mut func, match_block);
    func
}

pub open spec fn setter_model(o: Object, name: Seq<char>, p: Property) -> FnModel {
    FnModel::new((spec_base(o, name) + "_set"@)).abi("C"@).attr("no_mangle"@).vis("pub unsafe"@).arg("ptr"@, ("*mut "@ + o.name@)).arg("value"@, spec_rust_type(p)).line(("(&mut *ptr).set_"@ + snake(name) + "(value)"@))
}

/// The C setter of an optional scalar property.
pub fn setter(object: &Object, prop_name: &str, property: &Property) -> (r: codegen::Function)
    ensures
        cg_fn(r) == setter_model(*object, prop_name@, *property),
{
    let mut func = fn_new(String::from_str(base(object, prop_name).as_str()).concat("_set").as_str());
    fn_extern_abi(&mut func, "C");
    fn_attr(&mut func, "no_mangle");
    fn_vis(&mut func, "pub unsafe");
    fn_arg(&mut func, "ptr", String::from_str("*mut ").concat(object.name.as_str()).as_str());
    fn_arg(&mut func, "value", rust_type(property).as_str());
    fn_line(&mut func, String::from_str("(&mut *ptr).set_").concat(snake_case(prop_name).as_str()).concat("(value)").as_str());
    func
}

} // verus!

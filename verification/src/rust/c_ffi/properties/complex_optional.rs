//! The C functions of an optional string or byte-array property.

use crate::configuration::{Object, Property};
use crate::rust::cg::{block_line, block_new, cg_fn, fn_arg, fn_attr, fn_extern_abi, fn_line, fn_new, fn_push_block, fn_vis, BlockModel, FnModel};

use crate::text::{snake, snake_case};
use super::{base, spec_base};
use vstd::prelude::*;
use vstd::string::*;

verus! {

pub open spec fn getter_model(o: Object, name: Seq<char>, p: Property) -> FnModel {
    FnModel::new((spec_base(o, name) + "_get"@)).abi("C"@).attr("no_mangle"@).vis("pub unsafe"@).arg("ptr"@, ("*const "@ + o.name@)).arg("prop"@, ("*mut "@ + p.spec_name_of_type())).arg("set"@, ("fn(*mut "@ + p.spec_name_of_type() + ", *const c_char, c_int)"@)).line("let obj = &*ptr;"@).line(("let value = obj."@ + snake(name) + "();"@)).block(BlockModel::new("if let Some(value) = value"@).line("let str_: *const c_char = value.as_ptr() as (*const c_char);"@).line("set(prop, str_, to_c_int(value.len()));"@))
}

/// The C getter of an optional string or byte-array property: it hands the value, if any, to the C++ setter.
pub fn getter(object: &Object, prop_name: &str, property: &Property) -> (r: codegen::Function)
    ensures
        cg_fn(r) == getter_model(*object, prop_name@, *property),
{
    let mut func = fn_new(String::from_str(base(object, prop_name).as_str()).concat("_get").as_str());
    fn_extern_abi(&mut func, "C");
    fn_attr(&mut func, "no_mangle");
    fn_vis(&mut func, "pub unsafe");
    fn_arg(&mut func, "ptr", String::from_str("*const ").concat(object.name.as_str()).as_str());
    fn_arg(&mut func, "prop", String::from_str("*mut ").concat(property.name_of_type()).as_str());
    fn_arg(&mut func, "set", String::from_str("fn(*mut ").concat(property.name_of_type()).concat(", *const c_char, c_int)").as_str());
    fn_line(&mut func, "let obj = &*ptr;");
    fn_line(&mut func, String::from_str("let value = obj.").concat(snake_case(prop_name).as_str()).concat("();").as_str());
    let mut block = block_new("if let Some(value) = value");
    block_line(&mut block, "let str_: *const c_char = value.as_ptr() as (*const c_char);");
    block_line(&mut block, "set(prop, str_, to_c_int(value.len()));");
    fn_push_block(&mut func, block);
    func
}

pub open spec fn qbytearray_setter_model(o: Object, name: Seq<char>) -> FnModel {
    FnModel::new((spec_base(o, name) + "_set"@)).abi("C"@).attr("no_mangle"@).vis("pub unsafe"@).arg("ptr"@, ("*mut "@ + o.name@)).arg("value"@, "*const c_char"@).arg("len"@, "c_int"@).line("let obj = &mut *ptr;"@).line("let value = qba_slice!(value, len);"@).line(("obj.set_"@ + snake(name) + "(Some(value.into()));"@))
}

/// The C setter of an optional byte-array property.
pub fn qbytearray_setter(object: &Object, prop_name: &str) -> (r: codegen::Function)
    ensures
        cg_fn(r) == qbytearray_setter_model(*object, prop_name@),
{
    let mut func = fn_new(String::from_str(base(object, prop_name).as_str()).concat("_set").as_str());
    fn_extern_abi(&mut func, "C");
    fn_attr(&mut func, "no_mangle");
    fn_vis(&mut func, "pub unsafe");
    fn_arg(&mut func, "ptr", String::from_str("*mut ").concat(object.name.as_str()).as_str());
    fn_arg(&mut func, "value", "*const c_char");
    fn_arg(&mut func, "len", "c_int");
    fn_line(&mut func, "let obj = &mut *ptr;");
    fn_line(&mut func, "let value = qba_slice!(value, len);");
    fn_line(&mut func, String::from_str("obj.set_").concat(snake_case(prop_name).as_str()).concat("(Some(value.into()));").as_str());
    func
}

pub open spec fn qstring_setter_model(o: Object, name: Seq<char>) -> FnModel {
    FnModel::new((spec_base(o, name) + "_set"@)).abi("C"@).attr("no_mangle"@).vis("pub unsafe"@).arg("ptr"@, ("*mut "@ + o.name@)).arg("value"@, "*const c_ushort"@).arg("len"@, "c_int"@).line("let obj = &mut *ptr;"@).line("let mut s = String::new();"@).line("set_string_from_utf16(&mut s, value, len);"@).line(("obj.set_"@ + snake(name) + "(Some(s));"@))
}

/// The C setter of an optional string property.
pub fn qstring_setter(object: &Object, prop_name: &str) -> (r: codegen::Function)
    ensures
        cg_fn(r) == qstring_setter_model(*object, prop_name@),
{
    let mut func = fn_new(String::from_str(base(object, prop_name).as_str()).concat("_set").as_str());
    fn_extern_abi(&mut func, "C");
    fn_attr(&mut func, "no_mangle");
    fn_vis(&mut func, "pub unsafe");
    fn_arg(&mut func, "ptr", String::from_str("*mut ").concat(object.name.as_str()).as_str());
    fn_arg(&mut func, "value", "*const c_ushort");
    fn_arg(&mut func, "len", "c_int");
    fn_line(&mut func, "let obj = &mut *ptr;");
    fn_line(&mut func, "let mut s = String::new();");
    fn_line(&mut func, "set_string_from_utf16(&mut s, value, len);");
    fn_line(&mut func, String::from_str("obj.set_").concat(snake_case(prop_name).as_str()).concat("(Some(s));").as_str());
    func
}

} // verus!

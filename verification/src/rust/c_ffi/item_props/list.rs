//! The C functions through which C++ reads and writes the item properties of a list's rows.

use crate::configuration::{ItemProperty, Object};
use crate::rust::cg::{block_line, block_new, cg_fn, fn_arg, fn_line, fn_push_block, fn_ret, BlockModel, FnModel};
use crate::rust::c_ffi::models::list::{c_fn, c_fn_head};
use crate::rust::util::{rust_c_type, spec_rust_c_type};
use crate::text::{snake, snake_case};
use vstd::prelude::*;
use vstd::string::*;

verus! {

/// The row index as the Rust implementation takes it (a negative row becomes row 0).
pub open spec fn row_ix() -> Seq<char> {
    "to_usize(row).unwrap_or(0)"@
}

pub open spec fn complex_data_model(o: Object, name: Seq<char>, ip: ItemProperty) -> FnModel {
    let f = c_fn_head(o, "_data_"@ + snake(name)).arg("ptr"@, "*const "@ + o.name@).arg("row"@, "c_int"@).arg(
        "d"@,
        "*mut "@ + ip.spec_name_of_type(),
    ).arg("set"@, "fn(*mut "@ + ip.spec_name_of_type() + ", *const c_char, len: c_int)"@).line("let obj = &*ptr;"@).line(
        "let data = obj."@ + snake(name) + "("@ + row_ix() + ");"@,
    );
    if ip.optional {
        f.block(
            BlockModel::new("if let Some(data) = data"@).line("let str_: *const c_char = data.as_ptr() as (*const c_char);"@).line(
                "set(d, str_, to_c_int(data.len()));"@,
            ),
        )
    } else {
        f.line("let str_: *const c_char = data.as_ptr() as *const c_char;"@).line("set(d, str_, to_c_int(data.len()));"@)
    }
}

/// The C getter `<object>_data_<name>` of a string or byte-array item property: the value of
/// the row, if any, is handed to the C++ callback `set`.
pub fn complex_data(object: &Object, name: &str, item_prop: &ItemProperty) -> (r: codegen::Function)
    ensures
        cg_fn(r) == complex_data_model(*object, name@, *item_prop),
{
    let lc = snake_case(name);
    let mut func = c_fn(object, String::from_str("_data_").concat(lc.as_str()).as_str());
    fn_arg(&mut func, "ptr", String::from_str("*const ").concat(object.name.as_str()).as_str());
    fn_arg(&mut func, "row", "c_int");
    fn_arg(&mut func, "d", String::from_str("*mut ").concat(item_prop.name_of_type()).as_str());
    fn_arg(
        &mut func,
        "set",
        String::from_str("fn(*mut ").concat(item_prop.name_of_type()).concat(", *const c_char, len: c_int)").as_str(),
    );
    fn_line(&mut func, "let obj = &*ptr;");
    fn_line(
        &mut func,
        String::from_str("let data = obj.").concat(lc.as_str()).concat("(").concat("to_usize(row).unwrap_or(0)").concat(");").as_str(),
    );
    if item_prop.optional {
        let mut block = block_new("if let Some(data) = data");
        block_line(&mut block, "let str_: *const c_char = data.as_ptr() as (*const c_char);");
        block_line(&mut block, "set(d, str_, to_c_int(data.len()));");
        fn_push_block(&mut func, block);
    } else {
        fn_line(&mut func, "let str_: *const c_char = data.as_ptr() as *const c_char;");
        fn_line(&mut func, "set(d, str_, to_c_int(data.len()));");
    }
    func
}

pub open spec fn non_complex_data_model(o: Object, name: Seq<char>, ip: ItemProperty) -> FnModel {
    let f = c_fn_head(o, "_data_"@ + snake(name)).arg("ptr"@, "*const "@ + o.name@).arg("row"@, "c_int"@).ret(
        spec_rust_c_type(ip),
    ).line("let obj = &*ptr;"@);
    if ip.optional {
        f.line("obj."@ + snake(name) + "("@ + row_ix() + ").into()"@)
    } else {
        f.line("obj."@ + snake(name) + "("@ + row_ix() + ")"@)
    }
}

/// The C getter `<object>_data_<name>` of a scalar item property.
pub fn non_complex_data(object: &Object, name: &str, item_prop: &ItemProperty) -> (r: codegen::Function)
    ensures
        cg_fn(r) == non_complex_data_model(*object, name@, *item_prop),
{
    let lc = snake_case(name);
    let mut func = c_fn(object, String::from_str("_data_").concat(lc.as_str()).as_str());
    fn_arg(&mut func, "ptr", String::from_str("*const ").concat(object.name.as_str()).as_str());
    fn_arg(&mut func, "row", "c_int");
    fn_ret(&mut func, rust_c_type(item_prop).as_str());
    fn_line(&mut func, "let obj = &*ptr;");
    if item_prop.optional {
        fn_line(
            &mut func,
            String::from_str("obj.").concat(lc.as_str()).concat("(").concat("to_usize(row).unwrap_or(0)").concat(").into()").as_str(),
        );
    } else {
        fn_line(
            &mut func,
            String::from_str("obj.").concat(lc.as_str()).concat("(").concat("to_usize(row).unwrap_or(0)").concat(")").as_str(),
        );
    }
    func
}

pub open spec fn non_complex_set_model(o: Object, name: Seq<char>, ip: ItemProperty) -> FnModel {
    let f = c_fn_head(o, "_set_data_"@ + snake(name)).arg("ptr"@, "*mut "@ + o.name@).arg("row"@, "c_int"@).arg(
        "value"@,
        ip.item_property_type.spec_rust_type(),
    ).ret("bool"@);
    if ip.optional {
        f.line("(&mut *ptr).set_"@ + snake(name) + "("@ + row_ix() + ", Some(value))"@)
    } else {
        f.line("(&mut *ptr).set_"@ + snake(name) + "("@ + row_ix() + ", value)"@)
    }
}

/// The C setter `<object>_set_data_<name>` of a scalar item property.
pub fn non_complex_set(object: &Object, name: &str, item_prop: &ItemProperty) -> (r: codegen::Function)
    ensures
        cg_fn(r) == non_complex_set_model(*object, name@, *item_prop),
{
    let lc = snake_case(name);
    let mut func = c_fn(object, String::from_str("_set_data_").concat(lc.as_str()).as_str());
    fn_arg(&mut func, "ptr", String::from_str("*mut ").concat(object.name.as_str()).as_str());
    fn_arg(&mut func, "row", "c_int");
    fn_arg(&mut func, "value", item_prop.item_property_type.rust_type());
    fn_ret(&mut func, "bool");
    if item_prop.optional {
        fn_line(
            &mut func,
            String::from_str("(&mut *ptr).set_").concat(lc.as_str()).concat("(").concat("to_usize(row).unwrap_or(0)").concat(
                ", Some(value))",
            ).as_str(),
        );
    } else {
        fn_line(
            &mut func,
            String::from_str("(&mut *ptr).set_").concat(lc.as_str()).concat("(").concat("to_usize(row).unwrap_or(0)").concat(
                ", value)",
            ).as_str(),
        );
    }
    func
}

pub open spec fn set_none_model(o: Object, name: Seq<char>) -> FnModel {
    c_fn_head(o, "_set_data_"@ + snake(name) + "_none"@).arg("ptr"@, "*mut "@ + o.name@).arg("row"@, "c_int"@).ret("bool"@).line(
        "(&mut *ptr).set_"@ + snake(name) + "("@ + row_ix() + ", None)"@,
    )
}

/// The C function `<object>_set_data_<name>_none` that clears an optional item property.
pub fn set_none(object: &Object, name: &str, item_prop: &ItemProperty) -> (r: codegen::Function)
    ensures
        cg_fn(r) == set_none_model(*object, name@),
{
    let lc = snake_case(name);
    let mut func = c_fn(object, String::from_str("_set_data_").concat(lc.as_str()).concat("_none").as_str());
    fn_arg(&mut func, "ptr", String::from_str("*mut ").concat(object.name.as_str()).as_str());
    fn_arg(&mut func, "row", "c_int");
    fn_ret(&mut func, "bool");
    fn_line(
        &mut func,
        String::from_str("(&mut *ptr).set_").concat(lc.as_str()).concat("(").concat("to_usize(row).unwrap_or(0)").concat(
            ", None)",
        ).as_str(),
    );
    func
}

pub open spec fn qstring_set_model(o: Object, name: Seq<char>, ip: ItemProperty) -> FnModel {
    let f = c_fn_head(o, "_set_data_"@ + snake(name)).arg("ptr"@, "*mut "@ + o.name@).arg("row"@, "c_int"@).arg(
        "str_"@,
        "*const c_ushort"@,
    ).arg("len"@, "c_int"@).ret("bool"@).line("let obj = &mut *ptr;"@).line("let mut value = String::new();"@).line(
        "set_string_from_utf16(&mut value, str_, len);"@,
    );
    if ip.optional {
        f.line("obj.set_"@ + snake(name) + "("@ + row_ix() + ", Some(value))"@)
    } else {
        f.line("obj.set_"@ + snake(name) + "("@ + row_ix() + ", value)"@)
    }
}

/// The C setter `<object>_set_data_<name>` of a string item property: the UTF-16 text is
/// decoded first.
pub fn qstring_set(object: &Object, name: &str, item_prop: &ItemProperty) -> (r: codegen::Function)
    ensures
        cg_fn(r) == qstring_set_model(*object, name@, *item_prop),
{
    let lc = snake_case(name);
    let mut func = c_fn(object, String::from_str("_set_data_").concat(lc.as_str()).as_str());
    fn_arg(&mut func, "ptr", String::from_str("*mut ").concat(object.name.as_str()).as_str());
    fn_arg(&mut func, "row", "c_int");
    fn_arg(&mut func, "str_", "*const c_ushort");
    fn_arg(&mut func, "len", "c_int");
    fn_ret(&mut func, "bool");
    fn_line(&mut func, "let obj = &mut *ptr;");
    fn_line(&mut func, "let mut value = String::new();");
    fn_line(&mut func, "set_string_from_utf16(&mut value, str_, len);");
    if item_prop.optional {
        fn_line(
            &mut func,
            String::from_str("obj.set_").concat(lc.as_str()).concat("(").concat("to_usize(row).unwrap_or(0)").concat(
                ", Some(value))",
            ).as_str(),
        );
    } else {
        fn_line(
            &mut func,
            String::from_str("obj.set_").concat(lc.as_str()).concat("(").concat("to_usize(row).unwrap_or(0)").concat(", value)").as_str(),
        );
    }
    func
}

pub open spec fn qbytearray_set_model(o: Object, name: Seq<char>, ip: ItemProperty) -> FnModel {
    let f = c_fn_head(o, "_set_data_"@ + snake(name)).arg("ptr"@, "*mut "@ + o.name@).arg("row"@, "c_int"@).arg(
        "bs"@,
        "*const c_char"@,
    ).arg("len"@, "c_int"@).ret("bool"@).line("let obj = &mut *ptr;"@).line("let slice = qba_slice!(bs, len);"@);
    if ip.optional {
        f.line("obj.set_"@ + snake(name) + "("@ + row_ix() + ", Some(slice))"@)
    } else {
        f.line("obj.set_"@ + snake(name) + "("@ + row_ix() + ", slice)"@)
    }
}

/// The C setter `<object>_set_data_<name>` of a byte-array item property.
pub fn qbytearray_set(object: &Object, name: &str, item_prop: &ItemProperty) -> (r: codegen::Function)
    ensures
        cg_fn(r) == qbytearray_set_model(*object, name@, *item_prop),
{
    let lc = snake_case(name);
    let mut func = c_fn(object, String::from_str("_set_data_").concat(lc.as_str()).as_str());
    fn_arg(&mut func, "ptr", String::from_str("*mut ").concat(object.name.as_str()).as_str());
    fn_arg(&mut func, "row", "c_int");
    fn_arg(&mut func, "bs", "*const c_char");
    fn_arg(&mut func, "len", "c_int");
    fn_ret(&mut func, "bool");
    fn_line(&mut func, "let obj = &mut *ptr;");
    fn_line(&mut func, "let slice = qba_slice!(bs, len);");
    if item_prop.optional {
        fn_line(
            &mut func,
            String::from_str("obj.set_").concat(lc.as_str()).concat("(").concat("to_usize(row).unwrap_or(0)").concat(
                ", Some(slice))",
            ).as_str(),
        );
    } else {
        fn_line(
            &mut func,
            String::from_str("obj.set_").concat(lc.as_str()).concat("(").concat("to_usize(row).unwrap_or(0)").concat(", slice)").as_str(),
        );
    }
    func
}

} // verus!

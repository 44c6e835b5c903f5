//! The C function through which C++ calls one of an object's functions.

use crate::configuration::{Argument, FunctionDef, Object, SimpleType};
use crate::rust::cg::{cg_fn, fn_arg, fn_attr, fn_extern_abi, fn_line, fn_new, fn_ret, fn_vis, same_head, FnModel};
use crate::text::{snake, snake_case};
use vstd::prelude::*;
use vstd::string::*;

verus! {

/// How one argument of the function is received: a string or byte array arrives as a pointer
/// and a length and is rebuilt first; any other type is passed as is.
pub open spec fn arg_model(f: FnModel, a: Argument) -> FnModel {
    match a.argument_type {
        SimpleType::QString => f.arg(a.name@ + "_str"@, "*const c_ushort"@).arg(a.name@ + "_len"@, "c_int"@).line(
            "let mut "@ + a.name@ + " = String::new();"@,
        ).line("set_string_from_utf16(&mut "@ + a.name@ + ", "@ + a.name@ + "_str, "@ + a.name@ + "_len);"@),
        SimpleType::QByteArray => f.arg(a.name@ + "_str"@, "*const c_char"@).arg(a.name@ + "_len"@, "c_int"@).line(
            "let "@ + a.name@ + " = { qba_slice!("@ + a.name@ + "_str, "@ + a.name@ + "_len) };"@,
        ),
        _ => f.arg(a.name@, a.argument_type.spec_rust_type()),
    }
}

pub open spec fn args_model(f: FnModel, args: Seq<Argument>, n: int) -> FnModel
    decreases n,
{
    if n <= 0 {
        f
    } else {
        arg_model(args_model(f, args, n - 1), args[n - 1])
    }
}

pub open spec fn arg_name_lines(f: FnModel, args: Seq<Argument>, n: int) -> FnModel
    decreases n,
{
    if n <= 0 {
        f
    } else {
        arg_name_lines(f, args, n - 1).line(args[n - 1].name@ + ","@)
    }
}

/// The argument list of the call: one line per argument name, then the closing parenthesis.
pub open spec fn arg_names_model(f: FnModel, fn_def: FunctionDef) -> FnModel {
    arg_name_lines(f, fn_def.arguments@, fn_def.arguments@.len() as int).line(")"@)
}

pub open spec fn receiver_model(f: FnModel, o: Object, fn_def: FunctionDef) -> FnModel {
    if fn_def.mutable {
        f.arg("ptr"@, "*mut "@ + o.name@).line("let obj = &mut *ptr;"@)
    } else {
        f.arg("ptr"@, "*const "@ + o.name@).line("let obj = &*ptr;"@)
    }
}

pub open spec fn function_model(name: Seq<char>, fn_def: FunctionDef, o: Object) -> FnModel {
    let head = FnModel::new(snake(o.name@) + "_"@ + snake(name)).attr("no_mangle"@).vis("pub unsafe"@).abi("C"@);
    let f = args_model(receiver_model(head, o, fn_def), fn_def.arguments@, fn_def.arguments@.len() as int);
    if fn_def.return_type.spec_is_complex() {
        let ret = fn_def.return_type.spec_name();
        arg_names_model(
            f.arg("data"@, "*mut "@ + ret).arg("set"@, "fn(*mut "@ + ret + ", str_: *const c_char, len: c_int)"@).line(
                "let ret = obj."@ + snake(name) + "("@,
            ),
            fn_def,
        ).line(";"@).line("let str_: *const c_char = ret.as_ptr() as (*const c_char);"@).line(
            "set(data, str_, ret.len() as i32);"@,
        )
    } else {
        arg_names_model(f.ret(fn_def.return_type.spec_rust_type()).line("obj."@ + snake(name) + "("@), fn_def)
    }
}

/// Adds the argument names of the call, one per line, and the closing parenthesis.
pub fn write_arg_names(fn_def: &FunctionDef, func: &mut codegen::Function)
    ensures
        cg_fn(*final(func)) == arg_names_model(cg_fn(*old(func)), *fn_def),
{
    let ghost f0 = cg_fn(*func);
    let mut i: usize = 0;
    while i < fn_def.arguments.len()
        invariant
            i <= fn_def.arguments@.len(),
            cg_fn(*func) == arg_name_lines(f0, fn_def.arguments@, i as int),
        decreases fn_def.arguments@.len() - i,
    {
        let arg = &fn_def.arguments[i];
        fn_line(func, String::from_str(arg.name.as_str()).concat(",").as_str());
        i = i + 1;
    }
    fn_line(func, ")");
}

/// The C function `<object>_<function>` that calls the function on the Rust object. A string
/// or byte-array result is handed to the C++ callback `set` instead of being returned.
pub fn function(fn_name: &str, fn_def: &FunctionDef, object: &Object) -> (r: codegen::Function)
    ensures
        cg_fn(r) == function_model(fn_name@, *fn_def, *object),
{
    let mut func = fn_new(snake_case(object.name.as_str()).concat("_").concat(snake_case(fn_name).as_str()).as_str());
    fn_attr(&mut func, "no_mangle");
    fn_vis(&mut func, "pub unsafe");
    fn_extern_abi(&mut func, "C");
    if fn_def.mutable {
        fn_arg(&mut func, "ptr", String::from_str("*mut ").concat(object.name.as_str()).as_str());
        fn_line(&mut func, "let obj = &mut *ptr;");
    } else {
        fn_arg(&mut func, "ptr", String::from_str("*const ").concat(object.name.as_str()).as_str());
        fn_line(&mut func, "let obj = &*ptr;");
    }
    let ghost f0 = cg_fn(func);
    let mut i: usize = 0;
    while i < fn_def.arguments.len()
        invariant
            i <= fn_def.arguments@.len(),
            cg_fn(func) == args_model(f0, fn_def.arguments@, i as int),
        decreases fn_def.arguments@.len() - i,
    {
        let arg = &fn_def.arguments[i];
        let name = arg.name.as_str();
        match &arg.argument_type {
            SimpleType::QString => {
                fn_arg(&mut func, String::from_str(name).concat("_str").as_str(), "*const c_ushort");
                fn_arg(&mut func, String::from_str(name).concat("_len").as_str(), "c_int");
                fn_line(&mut func, String::from_str("let mut ").concat(name).concat(" = String::new();").as_str());
                fn_line(
                    &mut func,
                    String::from_str("set_string_from_utf16(&mut ").concat(name).concat(", ").concat(name).concat(
                        "_str, ",
                    ).concat(name).concat("_len);").as_str(),
                );
            },
            SimpleType::QByteArray => {
                fn_arg(&mut func, String::from_str(name).concat("_str").as_str(), "*const c_char");
                fn_arg(&mut func, String::from_str(name).concat("_len").as_str(), "c_int");
                fn_line(
                    &mut func,
                    String::from_str("let ").concat(name).concat(" = { qba_slice!(").concat(name).concat(
                        "_str, ",
                    ).concat(name).concat("_len) };").as_str(),
                );
            },
            _ => {
                fn_arg(&mut func, name, arg.argument_type.rust_type());
            },
        }
        i = i + 1;
    }
    if fn_def.return_type.is_complex() {
        let ret = fn_def.return_type.name();
        fn_arg(&mut func, "data", String::from_str("*mut ").concat(ret).as_str());
        fn_arg(
            &mut func,
            "set",
            String::from_str("fn(*mut ").concat(ret).concat(", str_: *const c_char, len: c_int)").as_str(),
        );
        fn_line(&mut func, String::from_str("let ret = obj.").concat(snake_case(fn_name).as_str()).concat("(").as_str());
        write_arg_names(fn_def, &mut func);
        fn_line(&mut func, ";");
        fn_line(&mut func, "let str_: *const c_char = ret.as_ptr() as (*const c_char);");
        fn_line(&mut func, "set(data, str_, ret.len() as i32);");
    } else {
        fn_ret(&mut func, fn_def.return_type.rust_type());
        fn_line(&mut func, String::from_str("obj.").concat(snake_case(fn_name).as_str()).concat("(").as_str());
        write_arg_names(fn_def, &mut func);
    }
    func
}

/// Receiving the arguments leaves the function's name, ABI, attributes and visibility as
/// they were.
pub proof fn lemma_args_keep_head(f: FnModel, args: Seq<Argument>, n: int)
    ensures
        same_head(f, args_model(f, args, n)),
    decreases n,
{
    if n > 0 {
        lemma_args_keep_head(f, args, n - 1);
    }
}

/// Passing the argument names on leaves the function's name, ABI, attributes and visibility
/// as they were.
pub proof fn lemma_arg_names_keep_head(f: FnModel, args: Seq<Argument>, n: int)
    ensures
        same_head(f, arg_name_lines(f, args, n)),
    decreases n,
{
    if n > 0 {
        lemma_arg_names_keep_head(f, args, n - 1);
    }
}

} // verus!

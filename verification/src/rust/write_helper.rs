//! A C function for one of an object's functions, written out as text.

use crate::configuration::{Argument, FunctionDef, Object, SimpleType};
use crate::text::{snake, snake_case, str_eq};
use vstd::prelude::*;
use vstd::string::*;

verus! {

pub open spec fn param_text(w: Seq<char>, a: Argument) -> Seq<char> {
    if a.argument_type.spec_name() == "QString"@ {
        w + a.name@ + "_str: *const c_ushort, "@ + a.name@ + "_len: c_int"@
    } else if a.argument_type.spec_name() == "QByteArray"@ {
        w + a.name@ + "_str: *const c_char, "@ + a.name@ + "_len: c_int"@
    } else {
        w + a.name@ + ": "@ + a.argument_type.spec_rust_type()
    }
}

pub open spec fn params_text(w: Seq<char>, args: Seq<Argument>, n: int) -> Seq<char>
    decreases n,
{
    if n <= 0 {
        w
    } else {
        param_text(params_text(w, args, n - 1) + ", "@, args[n - 1])
    }
}

pub open spec fn ret_text(w: Seq<char>, f: FunctionDef) -> Seq<char> {
    if f.return_type.spec_is_complex() {
        w + ", d: *mut "@ + f.return_type.spec_name() + ", set: fn(*mut "@ + f.return_type.spec_name()
            + ", str: *const c_char, len: c_int)) {\n"@
    } else if f.return_type is Void {
        w + ") {\n"@
    } else {
        w + ") -> "@ + f.return_type.spec_rust_type() + " {\n"@
    }
}

pub open spec fn conv_text(w: Seq<char>, a: Argument) -> Seq<char> {
    if a.argument_type.spec_name() == "QString"@ {
        w + "    let mut "@ + a.name@ + " = String::new();\n    set_string_from_utf16(&mut "@ + a.name@ + ", "@ + a.name@
            + "_str, "@ + a.name@ + "_len);\n"@
    } else if a.argument_type.spec_name() == "QByteArray"@ {
        w + "let "@ + a.name@ + " = { qba_slice!("@ + a.name@ + "_str, "@ + a.name@ + "_len) };\n"@
    } else {
        w
    }
}

pub open spec fn convs_text(w: Seq<char>, args: Seq<Argument>, n: int) -> Seq<char>
    decreases n,
{
    if n <= 0 {
        w
    } else {
        conv_text(convs_text(w, args, n - 1), args[n - 1])
    }
}

pub open spec fn names_text(w: Seq<char>, args: Seq<Argument>, n: int) -> Seq<char>
    decreases n,
{
    if n <= 0 {
        w
    } else if n == 1 {
        names_text(w, args, n - 1) + args[n - 1].name@
    } else {
        names_text(w, args, n - 1) + ", "@ + args[n - 1].name@
    }
}

/// The text of the C function `<lcname>_<function>` that calls the function on the Rust
/// object: strings and byte arrays arrive as pointers and lengths and are rebuilt first, and a
/// string or byte-array result is handed to the callback `set`.
pub open spec fn function_text(w: Seq<char>, name: Seq<char>, f: FunctionDef, lcname: Seq<char>, o: Object) -> Seq<char> {
    let lower = snake(name);
    let args = f.arguments@;
    let n = args.len() as int;
    let w1 = w + "\n#[no_mangle]\npub unsafe extern \"C\" fn "@ + lcname + "_"@ + lower + "(ptr: *"@ + (if f.mutable {
        "mut"@
    } else {
        "const"@
    }) + " "@ + o.name@;
    let w2 = ret_text(params_text(w1, args, n), f);
    let w3 = convs_text(w2, args, n) + (if f.mutable {
        "    let o = &mut *ptr;\n"@
    } else {
        "    let o = &*ptr;\n"@
    });
    let w4 = names_text(
        w3 + (if f.return_type.spec_is_complex() {
            "    let r = o."@
        } else {
            "    o."@
        }) + lower + "("@,
        args,
        n,
    ) + ")"@;
    let w5 = if f.return_type.spec_is_complex() {
        w4 + ";\n"@ + "    let s: *const c_char = r.as_ptr() as (*const c_char);\n    set(d, s, r.len() as i32);\n"@
    } else {
        w4 + "\n"@
    };
    w5 + "}\n"@
}

/// Writes the C function through which C++ calls the object's function `name`.
pub fn write_function(r: &mut String, name: &String, func: &FunctionDef, lcname: &str, object: &Object)
    ensures
        final(r)@ == function_text(old(r)@, name@, *func, lcname@, *object),
{
    let ghost w0 = r@;
    let lower_case = snake_case(name.as_str());
    r.append("\n#[no_mangle]\npub unsafe extern \"C\" fn ");
    r.append(lcname);
    r.append("_");
    r.append(lower_case.as_str());
    r.append("(ptr: *");
    r.append(if func.mutable { "mut" } else { "const" });
    r.append(" ");
    r.append(object.name.as_str());
    let ghost w1 = r@;
    let mut i: usize = 0;
    while i < func.arguments.len()
        invariant
            i <= func.arguments@.len(),
            r@ == params_text(w1, func.arguments@, i as int),
        decreases func.arguments@.len() - i,
    {
        let arg = &func.arguments[i];
        r.append(", ");
        if str_eq(arg.argument_type.name(), "QString") {
            r.append(arg.name.as_str());
            r.append("_str: *const c_ushort, ");
            r.append(arg.name.as_str());
            r.append("_len: c_int");
        } else if str_eq(arg.argument_type.name(), "QByteArray") {
            r.append(arg.name.as_str());
            r.append("_str: *const c_char, ");
            r.append(arg.name.as_str());
            r.append("_len: c_int");
        } else {
            r.append(arg.name.as_str());
            r.append(": ");
            r.append(arg.argument_type.rust_type());
        }
        i = i + 1;
    }
    if func.return_type.is_complex() {
        r.append(", d: *mut ");
        r.append(func.return_type.name());
        r.append(", set: fn(*mut ");
        r.append(func.return_type.name());
        r.append(", str: *const c_char, len: c_int)) {\n");
    } else if let SimpleType::Void = func.return_type {
        r.append(") {\n");
    } else {
        r.append(") -> ");
        r.append(func.return_type.rust_type());
        r.append(" {\n");
    }
    let ghost w2 = r@;
    let mut j: usize = 0;
    while j < func.arguments.len()
        invariant
            j <= func.arguments@.len(),
            r@ == convs_text(w2, func.arguments@, j as int),
        decreases func.arguments@.len() - j,
    {
        let arg = &func.arguments[j];
        if str_eq(arg.argument_type.name(), "QString") {
            r.append("    let mut ");
            r.append(arg.name.as_str());
            r.append(" = String::new();\n    set_string_from_utf16(&mut ");
            r.append(arg.name.as_str());
            r.append(", ");
            r.append(arg.name.as_str());
            r.append("_str, ");
            r.append(arg.name.as_str());
            r.append("_len);\n");
        } else if str_eq(arg.argument_type.name(), "QByteArray") {
            r.append("let ");
            r.append(arg.name.as_str());
            r.append(" = { qba_slice!(");
            r.append(arg.name.as_str());
            r.append("_str, ");
            r.append(arg.name.as_str());
            r.append("_len) };\n");
        }
        j = j + 1;
    }
    if func.mutable {
        r.append("    let o = &mut *ptr;\n");
    } else {
        r.append("    let o = &*ptr;\n");
    }
    if func.return_type.is_complex() {
        r.append("    let r = o.");
    } else {
        r.append("    o.");
    }
    r.append(lower_case.as_str());
    r.append("(");
    let ghost w3 = r@;
    let mut k: usize = 0;
    while k < func.arguments.len()
        invariant
            k <= func.arguments@.len(),
            r@ == names_text(w3, func.arguments@, k as int),
        decreases func.arguments@.len() - k,
    {
        if k > 0 {
            r.append(", ");
        }
        r.append(func.arguments[k].name.as_str());
        k = k + 1;
    }
    r.append(")");
    if func.return_type.is_complex() {
        r.append(";\n");
        r.append("    let s: *const c_char = r.as_ptr() as (*const c_char);\n    set(d, s, r.len() as i32);\n");
    } else {
        r.append("\n");
    }
    r.append("}\n");
}

} // verus!

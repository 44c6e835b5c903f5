//! The definitions of an object's invokable functions.

use crate::configuration::{Argument, FunctionDef, Object};
use crate::text::{snake, snake_case, str_eq};
use vstd::prelude::*;
use vstd::string::*;

verus! {

pub open spec fn write_param_defs(w: Seq<char>, args: Seq<Argument>, n: int) -> Seq<char>
    decreases n,
{
    if n <= 0 {
        w
    } else {
        let a = args[n - 1];
        write_param_defs(w, args, n - 1) + a.argument_type.spec_cpp_set_type() + " "@ + a.name@ + (if n < args.len() {
            ", "@
        } else {
            ""@
        })
    }
}

pub open spec fn call_arg(a: Argument) -> Seq<char> {
    if a.argument_type.spec_name() == "QString"@ {
        ", "@ + a.name@ + ".utf16(), "@ + a.name@ + ".size()"@
    } else if a.argument_type.spec_name() == "QByteArray"@ {
        ", "@ + a.name@ + ".data(), "@ + a.name@ + ".size()"@
    } else {
        ", "@ + a.name@
    }
}

/// The arguments with which the C++ wrapper calls the C function: strings and byte arrays
/// as a pointer and a size.
pub open spec fn call_args(args: Seq<Argument>, n: int) -> Seq<char>
    decreases n,
{
    if n <= 0 {
        Seq::empty()
    } else {
        call_args(args, n - 1) + call_arg(args[n - 1])
    }
}

pub open spec fn write_function_def(w: Seq<char>, obj: Object, name: Seq<char>, f: FunctionDef) -> Seq<char> {
    let base = snake(obj.name@) + "_"@ + snake(name);
    let al = call_args(f.arguments@, f.arguments@.len() as int);
    let w1 = write_param_defs(w + f.return_type.spec_name() + " "@ + obj.name@ + "::"@ + name + "("@, f.arguments@, f.arguments@.len() as int) + ")"@ + (if f.mutable {
        ""@
    } else {
        " const"@
    }) + "\n{\n"@;
    let w2 = if f.return_type.spec_name() == "QString"@ {
        w1 + "    "@ + f.return_type.spec_name() + " s;\n    "@ + base + "(m_d"@ + al + ", &s, set_qstring);\n    return s;\n"@
    } else if f.return_type.spec_name() == "QByteArray"@ {
        w1 + "    "@ + f.return_type.spec_name() + " s;\n    "@ + base + "(m_d"@ + al + ", &s, set_qbytearray);\n    return s;\n"@
    } else {
        w1 + "    return "@ + base + "(m_d"@ + al + ");\n"@
    };
    w2 + "}\n"@
}

pub open spec fn write_function_defs(w: Seq<char>, obj: Object, n: int) -> Seq<char>
    decreases n,
{
    if n <= 0 {
        w
    } else {
        write_function_def(write_function_defs(w, obj, n - 1), obj, obj.functions@[n - 1].0@, obj.functions@[n - 1].1)
    }
}

/// Writes the definition of every invokable function: it passes its arguments to the C
/// function and returns what that gives back.
pub fn functions(writebuf: &mut String, obj: &Object)
    ensures
        final(writebuf)@ == write_function_defs(old(writebuf)@, *obj, obj.functions@.len() as int),
{
    let lcname = snake_case(obj.name.as_str());
    let ghost w0 = writebuf@;
    let mut i: usize = 0;
    while i < obj.functions.len()
        invariant
            i <= obj.functions@.len(),
            lcname@ == snake(obj.name@),
            writebuf@ == write_function_defs(w0, *obj, i as int),
        decreases obj.functions@.len() - i,
    {
        let name = &obj.functions[i].0;
        let func = &obj.functions[i].1;
        let ghost f = *func;
        let base = lcname.clone().concat("_").concat(snake_case(name.as_str()).as_str());
        writebuf.append(func.name_of_type());
        writebuf.append(" ");
        writebuf.append(obj.name.as_str());
        writebuf.append("::");
        writebuf.append(name.as_str());
        writebuf.append("(");
        let ghost w1 = writebuf@;
        let n = func.arguments.len();
        let mut j: usize = 0;
        while j < n
            invariant
                n == func.arguments@.len(),
                j <= n,
                writebuf@ == write_param_defs(w1, func.arguments@, j as int),
            decreases n - j,
        {
            let arg = &func.arguments[j];
            writebuf.append(arg.argument_type.cpp_set_type());
            writebuf.append(" ");
            writebuf.append(arg.name.as_str());
            writebuf.append(if j + 1 < n { ", " } else { "" });
            j = j + 1;
        }
        writebuf.append(")");
        writebuf.append(if func.mutable { "" } else { " const" });
        writebuf.append("\n{\n");
        let mut arg_list = String::new();
        let mut k: usize = 0;
        while k < n
            invariant
                n == func.arguments@.len(),
                k <= n,
                arg_list@ =~= call_args(func.arguments@, k as int),
            decreases n - k,
        {
            let arg = &func.arguments[k];
            if str_eq(arg.name_of_type(), "QString") {
                arg_list.append(", ");
                arg_list.append(arg.name.as_str());
                arg_list.append(".utf16(), ");
                arg_list.append(arg.name.as_str());
                arg_list.append(".size()");
            } else if str_eq(arg.name_of_type(), "QByteArray") {
                arg_list.append(", ");
                arg_list.append(arg.name.as_str());
                arg_list.append(".data(), ");
                arg_list.append(arg.name.as_str());
                arg_list.append(".size()");
            } else {
                arg_list.append(", ");
                arg_list.append(arg.name.as_str());
            }
            k = k + 1;
        }
        if str_eq(func.return_type.name(), "QString") {
            writebuf.append("    ");
            writebuf.append(func.name_of_type());
            writebuf.append(" s;\n    ");
            writebuf.append(base.as_str());
            writebuf.append("(m_d");
            writebuf.append(arg_list.as_str());
            writebuf.append(", &s, set_qstring);\n    return s;\n");
        } else if str_eq(func.return_type.name(), "QByteArray") {
            writebuf.append("    ");
            writebuf.append(func.name_of_type());
            writebuf.append(" s;\n    ");
            writebuf.append(base.as_str());
            writebuf.append("(m_d");
            writebuf.append(arg_list.as_str());
            writebuf.append(", &s, set_qbytearray);\n    return s;\n");
        } else {
            writebuf.append("    return ");
            writebuf.append(base.as_str());
            writebuf.append("(m_d");
            writebuf.append(arg_list.as_str());
            writebuf.append(");\n");
        }
        writebuf.append("}\n");
        i = i + 1;
    }
}

} // verus!

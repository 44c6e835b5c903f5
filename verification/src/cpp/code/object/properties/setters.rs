//! The setter definitions of a C++ class's properties.

use crate::configuration::{Object, Property, SimpleType, Type};
use crate::text::{ascii_initial, snake, snake_case, spec_upper_initial, str_eq, upper_initial};
use vstd::prelude::*;
use vstd::string::*;

verus! {

pub open spec fn prop_base(obj: Object, name: Seq<char>) -> Seq<char> {
    snake(obj.name@) + "_"@ + snake(name)
}

pub open spec fn write_non_optional(w: Seq<char>, prop: Property, base: Seq<char>) -> Seq<char> {
    match prop.property_type {
        Type::Simple(SimpleType::QString) => w + base + "_set(m_d, reinterpret_cast<const ushort*>(v.data()), v.size());\n"@,
        Type::Simple(SimpleType::QByteArray) => w + base + "_set(m_d, v.data(), v.size());\n"@,
        _ => w + base + "_set(m_d, v);\n"@,
    }
}

/// Writes the call through which a non-optional setter hands its value to Rust.
pub fn non_optional(write_buf: &mut String, prop: &Property, name: &str, obj: &Object)
    ensures
        final(write_buf)@ == write_non_optional(old(write_buf)@, *prop, prop_base(*obj, name@)),
{
    let base = snake_case(obj.name.as_str()).concat("_").concat(snake_case(name).as_str());
    match &prop.property_type {
        Type::Simple(SimpleType::QString) => {
            write_buf.append(base.as_str());
            write_buf.append("_set(m_d, reinterpret_cast<const ushort*>(v.data()), v.size());\n");
        },
        Type::Simple(SimpleType::QByteArray) => {
            write_buf.append(base.as_str());
            write_buf.append("_set(m_d, v.data(), v.size());\n");
        },
        _ => {
            write_buf.append(base.as_str());
            write_buf.append("_set(m_d, v);\n");
        },
    }
}

pub open spec fn setter_arg_type(prop: Property) -> Seq<char> {
    if prop.optional && !prop.property_type.spec_is_complex() {
        "const QVariant&"@
    } else {
        prop.property_type.spec_cpp_set_type()
    }
}

pub open spec fn write_optional_set(w: Seq<char>, prop: Property, base: Seq<char>) -> Seq<char> {
    let tn = prop.spec_name_of_type();
    if tn == "QString"@ {
        w + base + "_set(m_d, reinterpret_cast<const ushort*>(v.data()), v.size());\n"@
    } else if tn == "QByteArray"@ {
        w + base + "_set(m_d, v.data(), v.size());\n"@
    } else if prop.optional {
        w + base + "_set(m_d, v.value<"@ + prop.spec_name_of_type() + ">());\n"@
    } else {
        w + base + "_set(m_d, v);\n"@
    }
}

pub open spec fn write_setters(w: Seq<char>, obj: Object, name: Seq<char>, prop: Property) -> Seq<char> {
    let base = prop_base(obj, name);
    let t = setter_arg_type(prop);
    let w1 = w + "void "@ + obj.name@ + "::set"@ + spec_upper_initial(name) + "("@ + t + " v) {\n"@;
    let w2 = if prop.optional {
        let w_test = if prop.property_type.spec_is_complex() {
            w1 + "if (v.isNull()) {\n"@
        } else {
            w1 + "if (v.isNull() || !v.canConvert<"@ + prop.spec_name_of_type() + ">()) {\n"@
        };
        write_optional_set(w_test + base + "_set_none(m_d);\n"@ + "} else {\n"@, prop, base) + "}\n"@
    } else {
        write_non_optional(w1, prop, base)
    };
    w2 + "}\n"@
}

/// Writes the setter definition of a writable property: it hands the value to Rust, and an
/// empty or unconvertible value of an optional property as "none".
pub fn setters(write_buf: &mut String, obj: &Object, name: &str, prop: &Property)
    requires
        ascii_initial(name@),
    ensures
        final(write_buf)@ == write_setters(old(write_buf)@, *obj, name@, *prop),
{
    let base = snake_case(obj.name.as_str()).concat("_").concat(snake_case(name).as_str());
    let t = if prop.optional && !prop.is_complex() {
        "const QVariant&"
    } else {
        prop.property_type.cpp_set_type()
    };
    write_buf.append("void ");
    write_buf.append(obj.name.as_str());
    write_buf.append("::set");
    write_buf.append(upper_initial(name).as_str());
    write_buf.append("(");
    write_buf.append(t);
    write_buf.append(" v) {\n");
    if prop.optional {
        if prop.is_complex() {
            write_buf.append("if (v.isNull()) {\n");
        } else {
            write_buf.append("if (v.isNull() || !v.canConvert<");
            write_buf.append(prop.name_of_type());
            write_buf.append(">()) {\n");
        }
        write_buf.append(base.as_str());
        write_buf.append("_set_none(m_d);\n");
        write_buf.append("} else {\n");
        if str_eq(prop.name_of_type(), "QString") {
            write_buf.append(base.as_str());
            write_buf.append("_set(m_d, reinterpret_cast<const ushort*>(v.data()), v.size());\n");
        } else if str_eq(prop.name_of_type(), "QByteArray") {
            write_buf.append(base.as_str());
            write_buf.append("_set(m_d, v.data(), v.size());\n");
        } else if prop.optional {
            write_buf.append(base.as_str());
            write_buf.append("_set(m_d, v.value<");
            write_buf.append(prop.name_of_type());
            write_buf.append(">());\n");
        } else {
            write_buf.append(base.as_str());
            write_buf.append("_set(m_d, v);\n");
        }
        write_buf.append("}\n");
    } else {
        non_optional(write_buf, prop, name, obj);
    }
    write_buf.append("}\n");
}

} // verus!

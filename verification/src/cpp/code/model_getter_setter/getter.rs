//! The bodies of a model's row getters.

use crate::configuration::{ItemProperty, Object};
use crate::text::{lower_text, snake, snake_case, to_lowercase};
use vstd::prelude::*;
use vstd::string::*;

verus! {

pub open spec fn write_qstring_getter(w: Seq<char>, name: Seq<char>, idx: Seq<char>, ip: ItemProperty, obj: Object) -> Seq<char> {
    w + "    QString s;\n"@ + "    "@ + snake(obj.name@) + "_data_"@ + snake(name) + "(m_d"@ + idx + ", &s, set_"@ + lower_text(ip.spec_name_of_type()) + ");\n"@ + "    return s;\n"@
}

/// Writes the body of a string getter, which Rust fills through a setter.
pub fn qstring(write_buf: &mut String, name: &str, idx: &str, item_prop: &ItemProperty, obj: &Object)
    ensures
        final(write_buf)@ == write_qstring_getter(old(write_buf)@, name@, idx@, *item_prop, *obj),
{
    write_buf.append("    QString s;\n");
    write_buf.append("    ");
    write_buf.append(snake_case(obj.name.as_str()).as_str());
    write_buf.append("_data_");
    write_buf.append(snake_case(name).as_str());
    write_buf.append("(m_d");
    write_buf.append(idx);
    write_buf.append(", &s, set_");
    write_buf.append(to_lowercase(item_prop.name_of_type()).as_str());
    write_buf.append(");\n");
    write_buf.append("    return s;\n");
}

pub open spec fn write_qbytearray_getter(w: Seq<char>, name: Seq<char>, idx: Seq<char>, ip: ItemProperty, obj: Object) -> Seq<char> {
    w + "    QByteArray b;\n"@ + "    "@ + snake(obj.name@) + "_data_"@ + snake(name) + "(m_d"@ + idx + ", &b, set_"@ + lower_text(ip.spec_name_of_type()) + ");\n"@ + "    return b;\n"@
}

/// Writes the body of a byte-array getter, which Rust fills through a setter.
pub fn qbytearray(write_buf: &mut String, name: &str, idx: &str, item_prop: &ItemProperty, obj: &Object)
    ensures
        final(write_buf)@ == write_qbytearray_getter(old(write_buf)@, name@, idx@, *item_prop, *obj),
{
    write_buf.append("    QByteArray b;\n");
    write_buf.append("    ");
    write_buf.append(snake_case(obj.name.as_str()).as_str());
    write_buf.append("_data_");
    write_buf.append(snake_case(name).as_str());
    write_buf.append("(m_d");
    write_buf.append(idx);
    write_buf.append(", &b, set_");
    write_buf.append(to_lowercase(item_prop.name_of_type()).as_str());
    write_buf.append(");\n");
    write_buf.append("    return b;\n");
}

pub open spec fn write_optional_item_getter(w: Seq<char>, name: Seq<char>, idx: Seq<char>, obj: Object) -> Seq<char> {
    w + "    QVariant v;\n"@ + "    v = "@ + snake(obj.name@) + "_data_"@ + snake(name) + "(m_d"@ + idx + ");\n"@ + "    return v;\n"@
}

/// Writes the body of an optional scalar getter, which returns a `QVariant`.
pub fn non_complex_optional(write_buf: &mut String, name: &str, idx: &str, obj: &Object)
    ensures
        final(write_buf)@ == write_optional_item_getter(old(write_buf)@, name@, idx@, *obj),
{
    write_buf.append("    QVariant v;\n");
    write_buf.append("    v = ");
    write_buf.append(snake_case(obj.name.as_str()).as_str());
    write_buf.append("_data_");
    write_buf.append(snake_case(name).as_str());
    write_buf.append("(m_d");
    write_buf.append(idx);
    write_buf.append(");\n");
    write_buf.append("    return v;\n");
}

pub open spec fn write_plain_item_getter(w: Seq<char>, name: Seq<char>, idx: Seq<char>, obj: Object) -> Seq<char> {
    w + "    return "@ + snake(obj.name@) + "_data_"@ + snake(name) + "(m_d"@ + idx + ");\n"@
}

/// Writes the body of a scalar getter.
pub fn non_complex_non_optional(write_buf: &mut String, name: &str, idx: &str, obj: &Object)
    ensures
        final(write_buf)@ == write_plain_item_getter(old(write_buf)@, name@, idx@, *obj),
{
    write_buf.append("    return ");
    write_buf.append(snake_case(obj.name.as_str()).as_str());
    write_buf.append("_data_");
    write_buf.append(snake_case(name).as_str());
    write_buf.append("(m_d");
    write_buf.append(idx);
    write_buf.append(");\n");
}

} // verus!

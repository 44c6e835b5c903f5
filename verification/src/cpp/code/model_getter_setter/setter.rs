//! The setters of a list model's rows.

use crate::configuration::{ItemProperty, Object, SimpleType, Type};
use crate::text::{ascii_initial, snake, snake_case, spec_upper_initial, str_eq, upper_initial};
use vstd::prelude::*;
use vstd::string::*;

verus! {

pub open spec fn write_optional_non_complex(w: Seq<char>, ip: ItemProperty, name: Seq<char>, idx: Seq<char>, obj: Object) -> Seq<char> {
    w + "    if (!value.canConvert(qMetaTypeId<"@ + ip.spec_name_of_type() + ">())) {\n        return false;\n    }\n"@ + "    set = "@ + snake(obj.name@) + "_set_data_"@ + snake(name) + "(m_d"@ + idx + ", value.value<"@ + ip.spec_name_of_type() + ">());\n"@
}

/// Writes the conversion check and the call for an optional scalar value.
pub fn optional_non_complex(write_buf: &mut String, item_prop: &ItemProperty, name: &str, idx: &str, obj: &Object)
    ensures
        final(write_buf)@ == write_optional_non_complex(old(write_buf)@, *item_prop, name@, idx@, *obj),
{
    let ip = item_prop;
    write_buf.append("    if (!value.canConvert(qMetaTypeId<");
    write_buf.append(item_prop.name_of_type());
    write_buf.append(">())) {\n        return false;\n    }\n");    write_buf.append("    set = ");
    write_buf.append(snake_case(obj.name.as_str()).as_str());
    write_buf.append("_set_data_");
    write_buf.append(snake_case(name).as_str());
    write_buf.append("(m_d");
    write_buf.append(idx);
    write_buf.append(", value.value<");
    write_buf.append(item_prop.name_of_type());
    write_buf.append(">());\n");
}

pub open spec fn setter_value(ip: ItemProperty) -> Seq<char> {
    match ip.item_property_type {
        Type::Simple(SimpleType::QString) => "value.utf16(), value.length()"@,
        Type::Simple(SimpleType::QByteArray) => "value.data(), value.length()"@,
        _ => "value"@,
    }
}

pub open spec fn write_setter_body(w: Seq<char>, ip: ItemProperty, name: Seq<char>, idx: Seq<char>, obj: Object) -> Seq<char> {
    if ip.optional && !ip.item_property_type.spec_is_complex() {
        write_optional_non_complex(w, ip, name, idx, obj)
    } else {
        let val = setter_value(ip);
        w + "    set = "@ + snake(obj.name@) + "_set_data_"@ + snake(name) + "(m_d"@ + idx + ", "@ + val + ");\n"@
    }
}

/// Writes the call that hands a row's new value to Rust.
pub fn setter_body(write_buf: &mut String, item_prop: &ItemProperty, name: &str, idx: &str, obj: &Object)
    ensures
        final(write_buf)@ == write_setter_body(old(write_buf)@, *item_prop, name@, idx@, *obj),
{
    if item_prop.optional && !item_prop.is_complex() {
        optional_non_complex(write_buf, item_prop, name, idx, obj);
    } else {
        let val = match &item_prop.item_property_type {
            Type::Simple(SimpleType::QString) => "value.utf16(), value.length()",
            Type::Simple(SimpleType::QByteArray) => "value.data(), value.length()",
            _ => "value",
        };
        write_buf.append("    set = ");
        write_buf.append(snake_case(obj.name.as_str()).as_str());
        write_buf.append("_set_data_");
        write_buf.append(snake_case(name).as_str());
        write_buf.append("(m_d");
        write_buf.append(idx);
        write_buf.append(", ");
        write_buf.append(val);
        write_buf.append(");\n");
    }
}

pub open spec fn none_test(ip: ItemProperty) -> Seq<char> {
    if ip.item_property_type.spec_is_complex() {
        "value.isNull()"@
    } else {
        "value.isNull() || !value.isValid()"@
    }
}

pub open spec fn write_optional(w: Seq<char>, ip: ItemProperty, name: Seq<char>, idx: Seq<char>, obj: Object) -> Seq<char> {
    let test = none_test(ip);
    write_setter_body(w + "    if ("@ + test + ") {\n"@ + "        set = "@ + snake(obj.name@) + "_set_data_"@ + snake(name) + "_none(m_d"@ + idx + ");\n"@ + "    } else {\n"@, ip, name, idx, obj) + "    }\n"@
}

/// Writes the setter part of an optional item property: an empty value clears the row's
/// value, any other is handed to Rust.
pub fn optional(write_buf: &mut String, item_prop: &ItemProperty, name: &str, idx: &str, obj: &Object)
    ensures
        final(write_buf)@ == write_optional(old(write_buf)@, *item_prop, name@, idx@, *obj),
{
    let test = if item_prop.is_complex() {
        "value.isNull()"
    } else {
        "value.isNull() || !value.isValid()"
    };
    write_buf.append("    if (");
    write_buf.append(test);
    write_buf.append(") {\n");    write_buf.append("        set = ");
    write_buf.append(snake_case(obj.name.as_str()).as_str());
    write_buf.append("_set_data_");
    write_buf.append(snake_case(name).as_str());
    write_buf.append("_none(m_d");
    write_buf.append(idx);
    write_buf.append(");\n");
    write_buf.append("    } else {\n");
    setter_body(write_buf, item_prop, name, idx, obj);
    write_buf.append("    }\n");
}

pub open spec fn setter_arg(read_type: Seq<char>, ip: ItemProperty) -> Seq<char> {
    if read_type == "QVariant"@ || ip.item_property_type.spec_is_complex() {
        "const "@ + read_type + "&"@
    } else {
        read_type
    }
}

pub open spec fn write_item_prop_setter(w: Seq<char>, name: Seq<char>, ip: ItemProperty, obj: Object, read_type: Seq<char>, idx: Seq<char>) -> Seq<char> {
    let rt = setter_arg(read_type, ip);
    let w1 = w + "bool "@ + obj.name@ + "::set"@ + spec_upper_initial(name) + "(int row, "@ + rt + " value)\n{\n"@ + "bool set = false;\n"@;
    let w2 = if ip.optional {
        write_optional(w1, ip, name, idx, obj)
    } else {
        write_setter_body(w1, ip, name, idx, obj)
    };
    w2 + "\n    if (set) {\n        QModelIndex index = createIndex(row, 0, row);\n        Q_EMIT dataChanged(index, index);\n    }\n    return set;\n}\n\n"@
}

/// Writes the setter of a list model's item property, which reports changed data.
pub fn item_prop_write(write_buf: &mut String, name: &str, item_prop: &ItemProperty, obj: &Object, read_type: String, idx: &str)
    requires
        ascii_initial(name@),
    ensures
        final(write_buf)@ == write_item_prop_setter(old(write_buf)@, name@, *item_prop, *obj, read_type@, idx@),
{
    let mut read_type = read_type;
    if str_eq(read_type.as_str(), "QVariant") || item_prop.is_complex() {
        read_type = String::from_str("const ").concat(read_type.as_str()).concat("&");
    }
    write_buf.append("bool ");
    write_buf.append(obj.name.as_str());
    write_buf.append("::set");
    write_buf.append(upper_initial(name).as_str());
    write_buf.append("(int row, ");
    write_buf.append(read_type.as_str());
    write_buf.append(" value)\n{\n");
    write_buf.append("bool set = false;\n");
    if item_prop.optional {
        optional(write_buf, item_prop, name, idx, obj);
    } else {
        setter_body(write_buf, item_prop, name, idx, obj);
    }
    write_buf.append("\n    if (set) {\n        QModelIndex index = createIndex(row, 0, row);\n        Q_EMIT dataChanged(index, index);\n    }\n    return set;\n}\n\n");
}

} // verus!

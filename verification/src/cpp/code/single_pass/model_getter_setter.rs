//! The getter and setter of one of a model's item properties, written in one pass.

use crate::configuration::{ItemProperty, Object, ObjectType};
use crate::cpp::helpers::{property_type, spec_property_type};
use crate::text::{ascii_initial, lower_text, snake, snake_case, spec_upper_initial, str_eq, to_lowercase, upper_initial};
use vstd::prelude::*;
use vstd::string::*;

verus! {

/// The text of the accessors of item property `name`: the getter for a row (a list) or an
/// index (a tree), and for a writable property the setter, which reports the changed data.
pub open spec fn model_accessors_text(w: Seq<char>, index: Seq<char>, name: Seq<char>, ip: ItemProperty, o: Object) -> Seq<char> {
    let lc = snake(o.name@);
    let idx = if o.object_type == ObjectType::List { ", row"@ } else { index };
    let r = spec_property_type(ip);
    let rs = if r == "QVariant"@ || ip.item_property_type.spec_is_complex() { "const "@ + r + "&"@ } else { r };
    let test = if ip.item_property_type.spec_is_complex() { "value.isNull()"@ } else { "value.isNull() || !value.isValid()"@ };
    let val = if ip.item_property_type.spec_is_complex() {
        if ip.spec_name_of_type() == "QString"@ { "value.utf16(), value.length()"@ } else { "value.data(), value.length()"@ }
    } else {
        "value"@
    };
    let w3 = if o.object_type == ObjectType::List { let w1 = w + r + " "@ + o.name@ + "::"@ + name + "(int row) const\n{\n"@; w1 } else { let w2 = w + r + " "@ + o.name@ + "::"@ + name + "(const QModelIndex& index) const\n{\n"@; w2 };
    let w10 = if ip.spec_name_of_type() == "QString"@ { let w4 = w3 + "    QString s;\n    "@ + lc + "_data_"@ + snake(name) + "(m_d"@ + idx + ", &s, set_"@ + lower_text(ip.spec_name_of_type()) + ");\n    return s;\n"@; w4 } else { let w9 = if ip.spec_name_of_type() == "QByteArray"@ { let w5 = w3 + "    QByteArray b;\n    "@ + lc + "_data_"@ + snake(name) + "(m_d"@ + idx + ", &b, set_"@ + lower_text(ip.spec_name_of_type()) + ");\n    return b;\n"@; w5 } else { let w8 = if ip.optional { let w6 = w3 + "    QVariant v;\n    v = "@ + lc + "_data_"@ + snake(name) + "(m_d"@ + idx + ");\n    return v;\n"@; w6 } else { let w7 = w3 + "    return "@ + lc + "_data_"@ + snake(name) + "(m_d"@ + idx + ");\n"@; w7 }; w8 }; w9 };
    let w11 = w10 + "}\n\n"@;
    let w26 = if ip.write { let w14 = if o.object_type == ObjectType::List { let w12 = w11 + "bool "@ + o.name@ + "::set"@ + spec_upper_initial(name) + "(int row, "@ + rs + " value)\n{\n"@; w12 } else { let w13 = w11 + "bool "@ + o.name@ + "::set"@ + spec_upper_initial(name) + "(const QModelIndex& index, "@ + rs + " value)\n{\n"@; w13 }; let w15 = w14 + "    bool set = false;\n"@; let w17 = if ip.optional { let w16 = w15 + "    if ("@ + test + ") {\n        set = "@ + lc + "_set_data_"@ + snake(name) + "_none(m_d"@ + idx + ");\n    } else {\n"@; w16 } else { w15 }; let w20 = if ip.optional && !ip.item_property_type.spec_is_complex() { let w18 = w17 + "    if (!value.canConvert(qMetaTypeId<"@ + ip.spec_name_of_type() + ">())) {\n        return false;\n    }\n    set = "@ + lc + "_set_data_"@ + snake(name) + "(m_d"@ + idx + ", value.value<"@ + ip.spec_name_of_type() + ">());\n"@; w18 } else { let w19 = w17 + "    set = "@ + lc + "_set_data_"@ + snake(name) + "(m_d"@ + idx + ", "@ + val + ");\n"@; w19 }; let w22 = if ip.optional { let w21 = w20 + "    }\n"@; w21 } else { w20 }; let w25 = if o.object_type == ObjectType::List { let w23 = w22 + "    if (set) {\n        QModelIndex index = createIndex(row, 0, row);\n        Q_EMIT dataChanged(index, index);\n    }\n    return set;\n}\n\n"@; w23 } else { let w24 = w22 + "    if (set) {\n        Q_EMIT dataChanged(index, index);\n    }\n    return set;\n}\n\n"@; w24 }; w25 } else { w11 };
    w26
}

/// Writes the getter and, for a writable property, the setter of item property `name`;
/// `index` is the index argument passed on to the C functions of a tree.
pub fn write_model_getter_setter(w: &mut String, index: &str, name: &str, ip: &ItemProperty, o: &Object)
    requires
        ip.write ==> ascii_initial(name@),
    ensures
        final(w)@ == model_accessors_text(old(w)@, index@, name@, *ip, *o),
{
    let lcname = snake_case(o.name.as_str());
    let idx = if o.object_type == ObjectType::List { ", row" } else { index };
    let r = property_type(ip);
    let rs = if str_eq(r.as_str(), "QVariant") || ip.is_complex() {
        String::from_str("const ").concat(r.as_str()).concat("&")
    } else {
        String::from_str(r.as_str())
    };
    let test = if ip.is_complex() { "value.isNull()" } else { "value.isNull() || !value.isValid()" };
    let val = if ip.is_complex() {
        if str_eq(ip.name_of_type(), "QString") { "value.utf16(), value.length()" } else { "value.data(), value.length()" }
    } else {
        "value"
    };
    if o.object_type == ObjectType::List {
        w.append(r.as_str());
        w.append(" ");
        w.append(o.name.as_str());
        w.append("::");
        w.append(name);
        w.append("(int row) const\n{\n");
    } else {
        w.append(r.as_str());
        w.append(" ");
        w.append(o.name.as_str());
        w.append("::");
        w.append(name);
        w.append("(const QModelIndex& index) const\n{\n");
    }
    if str_eq(ip.name_of_type(), "QString") {
        w.append("    QString s;\n    ");
        w.append(lcname.as_str());
        w.append("_data_");
        w.append(snake_case(name).as_str());
        w.append("(m_d");
        w.append(idx);
        w.append(", &s, set_");
        w.append(to_lowercase(ip.name_of_type()).as_str());
        w.append(");\n    return s;\n");
    } else {
        if str_eq(ip.name_of_type(), "QByteArray") {
            w.append("    QByteArray b;\n    ");
            w.append(lcname.as_str());
            w.append("_data_");
            w.append(snake_case(name).as_str());
            w.append("(m_d");
            w.append(idx);
            w.append(", &b, set_");
            w.append(to_lowercase(ip.name_of_type()).as_str());
            w.append(");\n    return b;\n");
        } else {
            if ip.optional {
                w.append("    QVariant v;\n    v = ");
                w.append(lcname.as_str());
                w.append("_data_");
                w.append(snake_case(name).as_str());
                w.append("(m_d");
                w.append(idx);
                w.append(");\n    return v;\n");
            } else {
                w.append("    return ");
                w.append(lcname.as_str());
                w.append("_data_");
                w.append(snake_case(name).as_str());
                w.append("(m_d");
                w.append(idx);
                w.append(");\n");
            }
        }
    }
    w.append("}\n\n");
    if ip.write {
        if o.object_type == ObjectType::List {
            w.append("bool ");
            w.append(o.name.as_str());
            w.append("::set");
            w.append(upper_initial(name).as_str());
            w.append("(int row, ");
            w.append(rs.as_str());
            w.append(" value)\n{\n");
        } else {
            w.append("bool ");
            w.append(o.name.as_str());
            w.append("::set");
            w.append(upper_initial(name).as_str());
            w.append("(const QModelIndex& index, ");
            w.append(rs.as_str());
            w.append(" value)\n{\n");
        }
        w.append("    bool set = false;\n");
        if ip.optional {
            w.append("    if (");
            w.append(test);
            w.append(") {\n        set = ");
            w.append(lcname.as_str());
            w.append("_set_data_");
            w.append(snake_case(name).as_str());
            w.append("_none(m_d");
            w.append(idx);
            w.append(");\n    } else {\n");
        }
        if ip.optional && !ip.is_complex() {
            w.append("    if (!value.canConvert(qMetaTypeId<");
            w.append(ip.name_of_type());
            w.append(">())) {\n        return false;\n    }\n    set = ");
            w.append(lcname.as_str());
            w.append("_set_data_");
            w.append(snake_case(name).as_str());
            w.append("(m_d");
            w.append(idx);
            w.append(", value.value<");
            w.append(ip.name_of_type());
            w.append(">());\n");
        } else {
            w.append("    set = ");
            w.append(lcname.as_str());
            w.append("_set_data_");
            w.append(snake_case(name).as_str());
            w.append("(m_d");
            w.append(idx);
            w.append(", ");
            w.append(val);
            w.append(");\n");
        }
        if ip.optional {
            w.append("    }\n");
        }
        if o.object_type == ObjectType::List {
            w.append("    if (set) {\n        QModelIndex index = createIndex(row, 0, row);\n        Q_EMIT dataChanged(index, index);\n    }\n    return set;\n}\n\n");
        } else {
            w.append("    if (set) {\n        Q_EMIT dataChanged(index, index);\n    }\n    return set;\n}\n\n");
        }
    }
}

} // verus!

//! A model's row getter and, for a writable item property, its setter.

pub mod getter;
pub mod setter;

use crate::configuration::{ItemProperty, Object, ObjectType, SimpleType, Type};
use crate::cpp::helpers::{property_type, spec_property_type};
use crate::text::ascii_initial;
use getter::{write_optional_item_getter, write_plain_item_getter, write_qbytearray_getter, write_qstring_getter};
use setter::write_item_prop_setter;
use vstd::prelude::*;
use vstd::string::*;

verus! {

pub open spec fn getter_index(obj: Object, index: Seq<char>) -> Seq<char> {
    if obj.object_type == ObjectType::List {
        ", row"@
    } else {
        index
    }
}

pub open spec fn write_model_getter_setter_spec(w: Seq<char>, index: Seq<char>, name: Seq<char>, ip: ItemProperty, obj: Object) -> Seq<char> {
    let idx = getter_index(obj, index);
    let w1 = if obj.object_type == ObjectType::List {
        w + spec_property_type(ip) + " "@ + obj.name@ + "::"@ + name + "(int row) const\n{\n"@
    } else {
        w + spec_property_type(ip) + " "@ + obj.name@ + "::"@ + name + "(const QModelIndex& index) const\n{\n"@
    };
    let w2 = match ip.item_property_type {
        Type::Simple(SimpleType::QString) => write_qstring_getter(w1, name, idx, ip, obj),
        Type::Simple(SimpleType::QByteArray) => write_qbytearray_getter(w1, name, idx, ip, obj),
        _ => if ip.optional {
            write_optional_item_getter(w1, name, idx, obj)
        } else {
            write_plain_item_getter(w1, name, idx, obj)
        },
    };
    let w3 = w2 + "}\n"@ + "\n"@;
    if !ip.write {
        w3
    } else {
        write_item_prop_setter(w3, name, ip, obj, spec_property_type(ip), idx)
    }
}

/// Writes a model's getter of an item property (by row for a list, by index for a tree) and,
/// if the item property is writable, its setter.
pub fn write_model_getter_setter(write_buf: &mut String, index: &str, name: &str, item_prop: &ItemProperty, obj: &Object)
    requires
        obj.object_type != ObjectType::Object,
        item_prop.write ==> ascii_initial(name@),
    ensures
        final(write_buf)@ == write_model_getter_setter_spec(old(write_buf)@, index@, name@, *item_prop, *obj),
{
    let read_type = property_type(item_prop);
    let ghost ip = *item_prop;
    let idx = match obj.object_type {
        ObjectType::List => {
            write_buf.append(read_type.as_str());
            write_buf.append(" ");
            write_buf.append(obj.name.as_str());
            write_buf.append("::");
            write_buf.append(name);
            write_buf.append("(int row) const\n{\n");
            ", row"
        },
        _ => {
            write_buf.append(read_type.as_str());
            write_buf.append(" ");
            write_buf.append(obj.name.as_str());
            write_buf.append("::");
            write_buf.append(name);
            write_buf.append("(const QModelIndex& index) const\n{\n");
            index
        },
    };
    match &item_prop.item_property_type {
        Type::Simple(SimpleType::QString) => {
            getter::qstring(write_buf, name, idx, item_prop, obj);
        },
        Type::Simple(SimpleType::QByteArray) => {
            getter::qbytearray(write_buf, name, idx, item_prop, obj);
        },
        _ => {
            if item_prop.optional {
                getter::non_complex_optional(write_buf, name, idx, obj);
            } else {
                getter::non_complex_non_optional(write_buf, name, idx, obj);
            }
        },
    }
    write_buf.append("}\n");
    write_buf.append("\n");
    if !item_prop.write {
        return;
    }
    setter::item_prop_write(write_buf, name, item_prop, obj, read_type, idx)
}

} // verus!

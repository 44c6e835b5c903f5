//! The model part of a list object's class declaration.

use crate::configuration::{ItemProperty, Object, ObjectType};
use crate::cpp::helpers::{model_is_writable, property_type, spec_property_type};
use crate::text::{ascii_initial, spec_upper_initial, str_eq, upper_initial};
use vstd::prelude::*;
use vstd::string::*;

verus! {

pub open spec fn read_write_type(ip: ItemProperty) -> Seq<char> {
    let read_type = spec_property_type(ip);
    if read_type == "QVariant"@ || ip.item_property_type.spec_is_complex() {
        "const "@ + read_type + "&"@
    } else {
        read_type
    }
}

pub open spec fn write_list_item(w: Seq<char>, name: Seq<char>, ip: ItemProperty) -> Seq<char> {
    let w1 = w + "Q_INVOKABLE "@ + spec_property_type(ip) + " "@ + name + "(int row) const;\n"@;
    if ip.write {
        w1 + "Q_INVOKABLE bool set"@ + spec_upper_initial(name) + "(int row, "@ + read_write_type(ip) + " value);\n"@
    } else {
        w1
    }
}

pub open spec fn write_list_items(w: Seq<char>, ips: Seq<(String, ItemProperty)>, n: int) -> Seq<char>
    decreases n,
{
    if n <= 0 {
        w
    } else {
        write_list_item(write_list_items(w, ips, n - 1), ips[n - 1].0@, ips[n - 1].1)
    }
}

/// Declares the row accessors of a list model: a getter per item property and, for a
/// writable one, a setter.
pub fn list(header_buf: &mut String, obj: &Object)
    requires
        obj.writable_item_names_ok(),
    ensures
        final(header_buf)@ == write_list_items(old(header_buf)@, obj.item_properties@, obj.item_properties@.len() as int),
{
    let ghost w0 = header_buf@;
    let mut i: usize = 0;
    while i < obj.item_properties.len()
        invariant
            i <= obj.item_properties@.len(),
            obj.writable_item_names_ok(),
            header_buf@ == write_list_items(w0, obj.item_properties@, i as int),
        decreases obj.item_properties@.len() - i,
    {
        let name = &obj.item_properties[i].0;
        let item_prop = &obj.item_properties[i].1;
        proof {
            assert(obj.item_properties@[i as int].1.write ==> ascii_initial(obj.item_properties@[i as int].0@));
        }
        let read_type = property_type(item_prop);
        let read_write_type = if str_eq(read_type.as_str(), "QVariant") || item_prop.item_property_type.is_complex() {
            String::from_str("const ").concat(read_type.as_str()).concat("&")
        } else {
            read_type.clone()
        };
        header_buf.append("Q_INVOKABLE ");
        header_buf.append(read_type.as_str());
        header_buf.append(" ");
        header_buf.append(name.as_str());
        header_buf.append("(int row) const;\n");
        if item_prop.write {
            header_buf.append("Q_INVOKABLE bool set");
            header_buf.append(upper_initial(name.as_str()).as_str());
            header_buf.append("(int row, ");
            header_buf.append(read_write_type.as_str());
            header_buf.append(" value);\n");
        }
        i = i + 1;
    }
}

pub open spec fn write_header_item_model_spec(w: Seq<char>, obj: Object, item_model_decls: Seq<char>) -> Seq<char> {
    let w1 = w + item_model_decls + "\n"@;
    let w2 = if exists|i: int| 0 <= i < obj.item_properties@.len() && (#[trigger] obj.item_properties@[i]).1.write {
        w1 + "bool setData(const QModelIndex &index, const QVariant &value, int role = Qt::EditRole) override;\n"@
    } else {
        w1
    };
    write_list_items(w2, obj.item_properties@, obj.item_properties@.len() as int) + "\nQ_SIGNALS:\n    // new data is ready to be made available to the model with fetchMore()\n    void newDataReady(const QModelIndex &parent) const;\nprivate:\n    QHash<QPair<int,Qt::ItemDataRole>, QVariant> m_headerData;\n    void initHeaderData();\n    void updatePersistentIndexes();\n"@
}

/// Writes the model part of a list object's class: the shared model declarations
/// `item_model_decls`, `setData` for a writable model, the row accessors, and the model's
/// signal and private members.
pub fn write_header_item_model(header_buf: &mut String, obj: &Object, item_model_decls: &str)
    requires
        obj.writable_item_names_ok(),
        obj.object_type == ObjectType::List,
    ensures
        final(header_buf)@ == write_header_item_model_spec(old(header_buf)@, *obj, item_model_decls@),
{
    header_buf.append(item_model_decls);
    header_buf.append("\n");
    if model_is_writable(obj) {
        header_buf.append("bool setData(const QModelIndex &index, const QVariant &value, int role = Qt::EditRole) override;\n");
    }
    list(header_buf, obj);
    header_buf.append("\nQ_SIGNALS:\n    // new data is ready to be made available to the model with fetchMore()\n    void newDataReady(const QModelIndex &parent) const;\nprivate:\n    QHash<QPair<int,Qt::ItemDataRole>, QVariant> m_headerData;\n    void initHeaderData();\n    void updatePersistentIndexes();\n");
}

} // verus!

//! The getter and setter definitions of a C++ class's properties.

pub mod setters;

use crate::configuration::{Object, Property};
use crate::text::{ascii_initial, lower_text, snake_case, to_lowercase};
use vstd::prelude::*;
use vstd::string::*;

use setters::{prop_base, setters, write_setters};

verus! {

pub open spec fn write_object_getters(w: Seq<char>, obj: Object, name: Seq<char>, prop: Property) -> Seq<char> {
    w + "\nconst "@ + prop.spec_name_of_type() + "* "@ + obj.name@ + "::"@ + name + "() const\n{\n    return m_"@ + name + ";\n}\n"@ + prop.spec_name_of_type() + "* "@ + obj.name@ + "::"@ + name + "()\n{\n    return m_"@ + name + ";\n}\n"@
}

/// Writes the getters of an object-typed property, which return the nested C++ object.
pub fn object(write_buf: &mut String, obj: &Object, name: &str, prop: &Property)
    ensures
        final(write_buf)@ == write_object_getters(old(write_buf)@, *obj, name@, *prop),
{
    write_buf.append("\nconst ");
    write_buf.append(prop.name_of_type());
    write_buf.append("* ");
    write_buf.append(obj.name.as_str());
    write_buf.append("::");
    write_buf.append(name);
    write_buf.append("() const\n{\n    return m_");
    write_buf.append(name);
    write_buf.append(";\n}\n");
    write_buf.append(prop.name_of_type());
    write_buf.append("* ");
    write_buf.append(obj.name.as_str());
    write_buf.append("::");
    write_buf.append(name);
    write_buf.append("()\n{\n    return m_");
    write_buf.append(name);
    write_buf.append(";\n}\n");
}

pub open spec fn write_complex_getter(w: Seq<char>, obj: Object, name: Seq<char>, prop: Property) -> Seq<char> {
    let base = prop_base(obj, name);
    w + "\n   "@ + prop.spec_name_of_type() + " "@ + obj.name@ + "::"@ + name + "() const\n   {\n       "@ + prop.spec_name_of_type() + " v;\n       "@ + base + "_get(m_d, &v, set_"@ + lower_text(prop.spec_name_of_type()) + ");\n       return v;\n   }\n"@
}

/// Writes the getter of a string or byte-array property, which Rust fills through a setter.
pub fn complex(write_buf: &mut String, obj: &Object, name: &str, prop: &Property)
    ensures
        final(write_buf)@ == write_complex_getter(old(write_buf)@, *obj, name@, *prop),
{
    let base = snake_case(obj.name.as_str()).concat("_").concat(snake_case(name).as_str());
    write_buf.append("\n   ");
    write_buf.append(prop.name_of_type());
    write_buf.append(" ");
    write_buf.append(obj.name.as_str());
    write_buf.append("::");
    write_buf.append(name);
    write_buf.append("() const\n   {\n       ");
    write_buf.append(prop.name_of_type());
    write_buf.append(" v;\n       ");
    write_buf.append(base.as_str());
    write_buf.append("_get(m_d, &v, set_");
    write_buf.append(to_lowercase(prop.name_of_type()).as_str());
    write_buf.append(");\n       return v;\n   }\n");
}

pub open spec fn write_optional_getter(w: Seq<char>, obj: Object, name: Seq<char>) -> Seq<char> {
    let base = prop_base(obj, name);
    w + "\nQVariant "@ + obj.name@ + "::"@ + name + "() const\n{\n    QVariant v;\n    auto r = "@ + base + "_get(m_d);\n    if (r.some) {\n        v.setValue(r.value);\n    }\n    return r;\n}\n"@
}

/// Writes the getter of an optional scalar property, which returns a `QVariant`.
pub fn non_complex_optional(write_buf: &mut String, obj: &Object, name: &str)
    ensures
        final(write_buf)@ == write_optional_getter(old(write_buf)@, *obj, name@),
{
    let base = snake_case(obj.name.as_str()).concat("_").concat(snake_case(name).as_str());
    write_buf.append("\nQVariant ");
    write_buf.append(obj.name.as_str());
    write_buf.append("::");
    write_buf.append(name);
    write_buf.append("() const\n{\n    QVariant v;\n    auto r = ");
    write_buf.append(base.as_str());
    write_buf.append("_get(m_d);\n    if (r.some) {\n        v.setValue(r.value);\n    }\n    return r;\n}\n");
}

pub open spec fn write_plain_getter(w: Seq<char>, obj: Object, name: Seq<char>, prop: Property) -> Seq<char> {
    let base = prop_base(obj, name);
    w + "\n"@ + prop.spec_name_of_type() + " "@ + obj.name@ + "::"@ + name + "() const\n{\n    return "@ + base + "_get(m_d);\n}\n"@
}

/// Writes the getter of a scalar property.
pub fn non_complex_non_optional(write_buf: &mut String, obj: &Object, name: &str, prop: &Property)
    ensures
        final(write_buf)@ == write_plain_getter(old(write_buf)@, *obj, name@, *prop),
{
    let base = snake_case(obj.name.as_str()).concat("_").concat(snake_case(name).as_str());
    write_buf.append("\n");
    write_buf.append(prop.name_of_type());
    write_buf.append(" ");
    write_buf.append(obj.name.as_str());
    write_buf.append("::");
    write_buf.append(name);
    write_buf.append("() const\n{\n    return ");
    write_buf.append(base.as_str());
    write_buf.append("_get(m_d);\n}\n");
}

pub open spec fn write_property_defs(w: Seq<char>, obj: Object, name: Seq<char>, prop: Property) -> Seq<char> {
    let w1 = if prop.property_type.spec_is_object() {
        write_object_getters(w, obj, name, prop)
    } else if prop.property_type.spec_is_complex() {
        write_complex_getter(w, obj, name, prop)
    } else if prop.optional {
        write_optional_getter(w, obj, name)
    } else {
        write_plain_getter(w, obj, name, prop)
    };
    if prop.write {
        write_setters(w1, obj, name, prop)
    } else {
        w1
    }
}

pub open spec fn write_properties_defs(w: Seq<char>, obj: Object, n: int) -> Seq<char>
    decreases n,
{
    if n <= 0 {
        w
    } else {
        write_property_defs(
            write_properties_defs(w, obj, n - 1),
            obj,
            obj.properties@[n - 1].0@,
            obj.properties@[n - 1].1,
        )
    }
}

/// Writes the getter (and, for a writable property, setter) definitions of every property.
pub fn properties(write_buf: &mut String, obj: &Object)
    requires
        obj.writable_names_ok(),
    ensures
        final(write_buf)@ == write_properties_defs(old(write_buf)@, *obj, obj.properties@.len() as int),
{
    let ghost w0 = write_buf@;
    let mut i: usize = 0;
    while i < obj.properties.len()
        invariant
            i <= obj.properties@.len(),
            obj.writable_names_ok(),
            write_buf@ == write_properties_defs(w0, *obj, i as int),
        decreases obj.properties@.len() - i,
    {
        let name = obj.properties[i].0.as_str();
        let prop = &obj.properties[i].1;
        proof {
            assert(obj.properties@[i as int].1.write ==> ascii_initial(obj.properties@[i as int].0@));
        }
        if prop.is_object() {
            object(write_buf, obj, name, prop);
        } else if prop.is_complex() {
            complex(write_buf, obj, name, prop);
        } else if prop.optional {
            non_complex_optional(write_buf, obj, name);
        } else {
            non_complex_non_optional(write_buf, obj, name, prop);
        }
        if prop.write {
            setters(write_buf, obj, name, prop);
        }
        i = i + 1;
    }
}

} // verus!

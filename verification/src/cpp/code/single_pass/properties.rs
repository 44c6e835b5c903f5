//! The accessors of an object's properties, each preceded by an empty line.

use crate::configuration::{Object, Property};
use crate::text::{ascii_initial, lower_text, snake, snake_case, spec_upper_initial, str_eq, to_lowercase, upper_initial};
use vstd::prelude::*;
use vstd::string::*;
use crate::cpp::code::object::properties::setters::setter_arg_type;

verus! {

pub open spec fn property_block_text(w: Seq<char>, obj: Object, lcname: Seq<char>, name: Seq<char>, prop: Property) -> Seq<char> {
    let base = lcname + "_"@ + snake(name);
    let t = setter_arg_type(prop);
    let w7 = if prop.property_type.spec_is_object() { let w1 = w + "\nconst "@ + prop.spec_name_of_type() + "* "@ + obj.name@ + "::"@ + name + "() const\n{\n    return m_"@ + name + ";\n}\n"@ + prop.spec_name_of_type() + "* "@ + obj.name@ + "::"@ + name + "()\n{\n    return m_"@ + name + ";\n}\n"@; w1 } else { let w6 = if prop.property_type.spec_is_complex() { let w2 = w + "\n"@ + prop.spec_name_of_type() + " "@ + obj.name@ + "::"@ + name + "() const\n{\n    "@ + prop.spec_name_of_type() + " v;\n    "@ + base + "_get(m_d, &v, set_"@ + lower_text(prop.spec_name_of_type()) + ");\n    return v;\n}\n"@; w2 } else { let w5 = if prop.optional { let w3 = w + "\nQVariant "@ + obj.name@ + "::"@ + name + "() const\n{\n    QVariant v;\n    auto r = "@ + base + "_get(m_d);\n    if (r.some) {\n        v.setValue(r.value);\n    }\n    return r;\n}\n"@; w3 } else { let w4 = w + "\n"@ + prop.spec_name_of_type() + " "@ + obj.name@ + "::"@ + name + "() const\n{\n    return "@ + base + "_get(m_d);\n}\n"@; w4 }; w5 }; w6 };
    let w28 = if prop.write { let w8 = w7 + "void "@ + obj.name@ + "::set"@ + spec_upper_initial(name) + "("@ + t + " v) {\n"@; let w26 = if prop.optional { let w11 = if prop.property_type.spec_is_complex() { let w9 = w8 + "if (v.isNull()) {\n"@; w9 } else { let w10 = w8 + "if (v.isNull() || !v.canConvert<"@ + prop.spec_name_of_type() + ">()) {\n"@; w10 }; let w12 = w11 + base + "_set_none(m_d);\n} else {\n"@; let w19 = if prop.spec_name_of_type() == "QString"@ { let w13 = w12 + base + "_set(m_d, reinterpret_cast<const ushort*>(v.data()), v.size());\n"@; w13 } else { let w18 = if prop.spec_name_of_type() == "QByteArray"@ { let w14 = w12 + base + "_set(m_d, v.data(), v.size());\n"@; w14 } else { let w17 = if prop.optional { let w15 = w12 + base + "_set(m_d, v.value<"@ + prop.spec_name_of_type() + ">());\n"@; w15 } else { let w16 = w12 + base + "_set(m_d, v);\n"@; w16 }; w17 }; w18 }; let w20 = w19 + "}\n"@; w20 } else { let w25 = if prop.spec_name_of_type() == "QString"@ { let w21 = w8 + base + "_set(m_d, reinterpret_cast<const ushort*>(v.data()), v.size());\n"@; w21 } else { let w24 = if prop.spec_name_of_type() == "QByteArray"@ { let w22 = w8 + base + "_set(m_d, v.data(), v.size());\n"@; w22 } else { let w23 = w8 + base + "_set(m_d, v);\n"@; w23 }; w24 }; w25 }; let w27 = w26 + "}\n"@; w27 } else { w7 };
    w28
}

pub open spec fn properties_block_text(w: Seq<char>, obj: Object, lcname: Seq<char>, n: int) -> Seq<char>
    decreases n,
{
    if n <= 0 {
        w
    } else {
        property_block_text(properties_block_text(w, obj, lcname, n - 1), obj, lcname, obj.properties@[n - 1].0@, obj.properties@[n - 1].1)
    }
}

/// Writes the getter of every property, and the setter of every writable one.
pub fn properties(w: &mut String, obj: &Object)
    requires
        obj.writable_names_ok(),
    ensures
        final(w)@ == properties_block_text(old(w)@, *obj, snake(obj.name@), obj.properties@.len() as int),
{
    let lcname_text = snake_case(obj.name.as_str());
    let ghost w0 = w@;
    let mut i: usize = 0;
    while i < obj.properties.len()
        invariant
            i <= obj.properties@.len(),
            obj.writable_names_ok(),
            lcname_text@ == snake(obj.name@),
            w@ == properties_block_text(w0, *obj, snake(obj.name@), i as int),
        decreases obj.properties@.len() - i,
    {
        let name = obj.properties[i].0.as_str();
        let prop = &obj.properties[i].1;
        proof {
            assert(prop.write ==> ascii_initial(name@));
        }
        let base = String::from_str(lcname_text.as_str()).concat("_").concat(snake_case(name).as_str());
        let t = if prop.optional && !prop.is_complex() {
            "const QVariant&"
        } else {
            prop.property_type.cpp_set_type()
        };
        if prop.is_object() {
            w.append("\nconst ");
            w.append(prop.name_of_type());
            w.append("* ");
            w.append(obj.name.as_str());
            w.append("::");
            w.append(name);
            w.append("() const\n{\n    return m_");
            w.append(name);
            w.append(";\n}\n");
            w.append(prop.name_of_type());
            w.append("* ");
            w.append(obj.name.as_str());
            w.append("::");
            w.append(name);
            w.append("()\n{\n    return m_");
            w.append(name);
            w.append(";\n}\n");
        } else {
            if prop.is_complex() {
                w.append("\n");
                w.append(prop.name_of_type());
                w.append(" ");
                w.append(obj.name.as_str());
                w.append("::");
                w.append(name);
                w.append("() const\n{\n    ");
                w.append(prop.name_of_type());
                w.append(" v;\n    ");
                w.append(base.as_str());
                w.append("_get(m_d, &v, set_");
                w.append(to_lowercase(prop.name_of_type()).as_str());
                w.append(");\n    return v;\n}\n");
            } else {
                if prop.optional {
                    w.append("\nQVariant ");
                    w.append(obj.name.as_str());
                    w.append("::");
                    w.append(name);
                    w.append("() const\n{\n    QVariant v;\n    auto r = ");
                    w.append(base.as_str());
                    w.append("_get(m_d);\n    if (r.some) {\n        v.setValue(r.value);\n    }\n    return r;\n}\n");
                } else {
                    w.append("\n");
                    w.append(prop.name_of_type());
                    w.append(" ");
                    w.append(obj.name.as_str());
                    w.append("::");
                    w.append(name);
                    w.append("() const\n{\n    return ");
                    w.append(base.as_str());
                    w.append("_get(m_d);\n}\n");
                }
            }
        }
        if prop.write {
            w.append("void ");
            w.append(obj.name.as_str());
            w.append("::set");
            w.append(upper_initial(name).as_str());
            w.append("(");
            w.append(t);
            w.append(" v) {\n");
            if prop.optional {
                if prop.is_complex() {
                    w.append("if (v.isNull()) {\n");
                } else {
                    w.append("if (v.isNull() || !v.canConvert<");
                    w.append(prop.name_of_type());
                    w.append(">()) {\n");
                }
                w.append(base.as_str());
                w.append("_set_none(m_d);\n} else {\n");
                if str_eq(prop.name_of_type(), "QString") {
                    w.append(base.as_str());
                    w.append("_set(m_d, reinterpret_cast<const ushort*>(v.data()), v.size());\n");
                } else {
                    if str_eq(prop.name_of_type(), "QByteArray") {
                        w.append(base.as_str());
                        w.append("_set(m_d, v.data(), v.size());\n");
                    } else {
                        if prop.optional {
                            w.append(base.as_str());
                            w.append("_set(m_d, v.value<");
                            w.append(prop.name_of_type());
                            w.append(">());\n");
                        } else {
                            w.append(base.as_str());
                            w.append("_set(m_d, v);\n");
                        }
                    }
                }
                w.append("}\n");
            } else {
                if str_eq(prop.name_of_type(), "QString") {
                    w.append(base.as_str());
                    w.append("_set(m_d, reinterpret_cast<const ushort*>(v.data()), v.size());\n");
                } else {
                    if str_eq(prop.name_of_type(), "QByteArray") {
                        w.append(base.as_str());
                        w.append("_set(m_d, v.data(), v.size());\n");
                    } else {
                        w.append(base.as_str());
                        w.append("_set(m_d, v);\n");
                    }
                }
            }
            w.append("}\n");
        }
        i = i + 1;
    }
}

} // verus!

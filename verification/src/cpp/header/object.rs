//! Pieces of the class declarations in the generated C++ header.

use crate::configuration::{Config, Object, Property};
use crate::cpp::helpers::{
    base_type, get_return_type, spec_base_type, spec_get_return_type, spec_write_property,
    write_property,
};
use crate::text::{ascii_initial, spec_upper_initial, str_eq, upper_initial};
use vstd::prelude::*;
use vstd::string::*;

verus! {

pub open spec fn write_friends(w: Seq<char>, objs: Seq<(String, std::rc::Rc<Object>)>, me: Seq<char>, n: int) -> Seq<char>
    decreases n,
{
    if n <= 0 {
        w
    } else {
        let w1 = write_friends(w, objs, me, n - 1);
        if objs[n - 1].1.name@ != me {
            w1 + "friend class "@ + objs[n - 1].1.name@ + ";\n"@
        } else {
            w1
        }
    }
}

/// Declares every other object's class a friend of the class of `obj`.
pub fn register_friend_classes(header_buf: &mut String, conf: &Config, obj: &Object)
    ensures
        final(header_buf)@ == write_friends(old(header_buf)@, conf.objects@, obj.name@, conf.objects@.len() as int),
{
    let ghost w0 = header_buf@;
    let mut i: usize = 0;
    while i < conf.objects.len()
        invariant
            i <= conf.objects@.len(),
            header_buf@ == write_friends(w0, conf.objects@, obj.name@, i as int),
        decreases conf.objects@.len() - i,
    {
        let object: &Object = &conf.objects[i].1;
        if !str_eq(object.name.as_str(), obj.name.as_str()) {
            header_buf.append("friend class ");
            header_buf.append(object.name.as_str());
            header_buf.append(";\n");
        }
        i = i + 1;
    }
}

pub open spec fn write_member_ptrs(w: Seq<char>, ps: Seq<(String, Property)>, n: int) -> Seq<char>
    decreases n,
{
    if n <= 0 {
        w
    } else {
        write_member_ptrs(w, ps, n - 1) + ps[n - 1].1.spec_name_of_type() + "* const m_"@ + ps[n - 1].0@ + ";\n"@
    }
}

pub open spec fn write_q_properties(w: Seq<char>, ps: Seq<(String, Property)>, n: int) -> Seq<char>
    decreases n,
{
    if n <= 0 {
        w
    } else {
        write_q_properties(w, ps, n - 1) + "Q_PROPERTY("@ + spec_get_return_type(ps[n - 1].1) + " "@ + ps[n - 1].0@ + " READ "@ + ps[n - 1].0@ + " "@ + spec_write_property(ps[n - 1].0@, ps[n - 1].1) + "NOTIFY "@ + ps[n - 1].0@ + "Changed FINAL)\n"@
    }
}

pub open spec fn write_private_properties(w: Seq<char>, obj: Object) -> Seq<char> {
    let objs = obj.spec_object_properties();
    let w1 = write_member_ptrs(w + "private:\n"@, objs, objs.len() as int) + "Private * m_d;\n        bool m_ownsPrivate;\n"@;
    write_q_properties(w1, obj.properties@, obj.properties@.len() as int) + "explicit "@ + obj.name@ + "(bool owned, QObject *parent);\n"@
}

/// Writes the private part of a class: the pointers to nested objects, the link to the Rust
/// side, one `Q_PROPERTY` per property and the constructor used for nested objects.
pub fn private_properties(header_buf: &mut String, obj: &Object)
    requires
        obj.writable_names_ok(),
    ensures
        final(header_buf)@ == write_private_properties(old(header_buf)@, *obj),
{
    header_buf.append("private:\n");
    let op = obj.object_properties();
    let ghost w1 = header_buf@;
    let ghost ps = obj.spec_object_properties();
    let mut j: usize = 0;
    while j < op.len()
        invariant
            j <= op@.len(),
            op@.map_values(|e: (&String, &Property)| (*e.0, *e.1)) == ps,
            header_buf@ == write_member_ptrs(w1, ps, j as int),
        decreases op@.len() - j,
    {
        proof {
            assert(op@.map_values(|e: (&String, &Property)| (*e.0, *e.1))[j as int] == ps[j as int]);
        }
        header_buf.append(op[j].1.name_of_type());
        header_buf.append("* const m_");
        header_buf.append(op[j].0.as_str());
        header_buf.append(";\n");
        j = j + 1;
    }
    header_buf.append("Private * m_d;\n        bool m_ownsPrivate;\n");
    let ghost w2 = header_buf@;
    let mut i: usize = 0;
    while i < obj.properties.len()
        invariant
            i <= obj.properties@.len(),
            obj.writable_names_ok(),
            header_buf@ == write_q_properties(w2, obj.properties@, i as int),
        decreases obj.properties@.len() - i,
    {
        let name = &obj.properties[i].0;
        let prop = &obj.properties[i].1;
        proof {
            assert(obj.properties@[i as int].1.write ==> ascii_initial(obj.properties@[i as int].0@));
        }
        header_buf.append("Q_PROPERTY(");
        header_buf.append(get_return_type(prop).as_str());
        header_buf.append(" ");
        header_buf.append(name.as_str());
        header_buf.append(" READ ");
        header_buf.append(name.as_str());
        header_buf.append(" ");
        header_buf.append(write_property(name.as_str(), prop).as_str());
        header_buf.append("NOTIFY ");
        header_buf.append(name.as_str());
        header_buf.append("Changed FINAL)\n");
        i = i + 1;
    }
    header_buf.append("explicit ");
    header_buf.append(obj.name.as_str());
    header_buf.append("(bool owned, QObject *parent);\n");
}

pub open spec fn write_public_property(w: Seq<char>, name: Seq<char>, p: Property) -> Seq<char> {
    if p.property_type.spec_is_object() {
        w + "const "@ + p.spec_name_of_type() + "* "@ + name + "() const;\n                 "@ + p.spec_name_of_type() + "* "@ + name + "();\n"@
    } else {
        let typ = if p.optional && !p.property_type.spec_is_complex() {
            "QVariant"@
        } else {
            p.spec_name_of_type()
        };
        let typ2 = if p.optional && !p.property_type.spec_is_complex() {
            "const QVariant&"@
        } else {
            p.property_type.spec_cpp_set_type()
        };
        let w1 = w + typ + " "@ + name + "() const;\n"@;
        if p.write {
            w1 + "void set"@ + spec_upper_initial(name) + "("@ + typ2 + " v);\n"@
        } else {
            w1
        }
    }
}

pub open spec fn write_public_properties(w: Seq<char>, ps: Seq<(String, Property)>, n: int) -> Seq<char>
    decreases n,
{
    if n <= 0 {
        w
    } else {
        write_public_property(write_public_properties(w, ps, n - 1), ps[n - 1].0@, ps[n - 1].1)
    }
}

pub open spec fn write_public_properties_spec(w: Seq<char>, obj: Object) -> Seq<char> {
    write_public_properties(w + "\npublic:\n    explicit "@ + obj.name@ + "(QObject *parent = nullptr);\n    ~"@ + obj.name@ + "() override;\n"@, obj.properties@, obj.properties@.len() as int)
}

/// Writes the public constructors and destructor, and the getter (and setter, for a
/// writable property) of every property.
pub fn public_properties(header_buf: &mut String, obj: &Object)
    requires
        obj.writable_names_ok(),
    ensures
        final(header_buf)@ == write_public_properties_spec(old(header_buf)@, *obj),
{
    header_buf.append("\npublic:\n    explicit ");
    header_buf.append(obj.name.as_str());
    header_buf.append("(QObject *parent = nullptr);\n    ~");
    header_buf.append(obj.name.as_str());
    header_buf.append("() override;\n");
    let ghost w1 = header_buf@;
    let mut i: usize = 0;
    while i < obj.properties.len()
        invariant
            i <= obj.properties@.len(),
            obj.writable_names_ok(),
            header_buf@ == write_public_properties(w1, obj.properties@, i as int),
        decreases obj.properties@.len() - i,
    {
        let name = &obj.properties[i].0;
        let p = &obj.properties[i].1;
        proof {
            assert(obj.properties@[i as int].1.write ==> ascii_initial(obj.properties@[i as int].0@));
        }
        if p.is_object() {
            header_buf.append("const ");
            header_buf.append(p.name_of_type());
            header_buf.append("* ");
            header_buf.append(name.as_str());
            header_buf.append("() const;\n                 ");
            header_buf.append(p.name_of_type());
            header_buf.append("* ");
            header_buf.append(name.as_str());
            header_buf.append("();\n");
        } else {
            let (typ, typ2) = if p.optional && !p.is_complex() {
                ("QVariant", "const QVariant&")
            } else {
                (p.name_of_type(), p.property_type.cpp_set_type())
            };
            header_buf.append(typ);
            header_buf.append(" ");
            header_buf.append(name.as_str());
            header_buf.append("() const;\n");
            if p.write {
                header_buf.append("void set");
                header_buf.append(upper_initial(name.as_str()).as_str());
                header_buf.append("(");
                header_buf.append(typ2);
                header_buf.append(" v);\n");
            }
        }
        i = i + 1;
    }
}

pub open spec fn write_decl_args(w: Seq<char>, args: Seq<crate::configuration::Argument>, n: int) -> Seq<char>
    decreases n,
{
    if n <= 0 {
        w
    } else {
        let w1 = write_decl_args(w, args, n - 1);
        let w2 = if n - 1 != 0 { w1 + ", "@ } else { w1 };
        let a = args[n - 1];
        w2 + a.argument_type.spec_cpp_set_type() + " "@ + a.name@
    }
}

pub open spec fn write_function_decl(w: Seq<char>, name: Seq<char>, f: crate::configuration::FunctionDef) -> Seq<char> {
    write_decl_args(w + "Q_INVOKABLE "@ + f.return_type.spec_name() + " "@ + name + "("@, f.arguments@, f.arguments@.len() as int) + (if f.mutable {
        ");\n"@
    } else {
        ") const;\n"@
    })
}

pub open spec fn write_function_decls(w: Seq<char>, fs: Seq<(String, crate::configuration::FunctionDef)>, n: int) -> Seq<char>
    decreases n,
{
    if n <= 0 {
        w
    } else {
        write_function_decl(write_function_decls(w, fs, n - 1), fs[n - 1].0@, fs[n - 1].1)
    }
}

/// Declares a `Q_INVOKABLE` member for every function of the object.
pub fn functions(header_buf: &mut String, obj: &Object)
    ensures
        final(header_buf)@ == write_function_decls(old(header_buf)@, obj.functions@, obj.functions@.len() as int),
{
    let ghost w0 = header_buf@;
    let mut i: usize = 0;
    while i < obj.functions.len()
        invariant
            i <= obj.functions@.len(),
            header_buf@ == write_function_decls(w0, obj.functions@, i as int),
        decreases obj.functions@.len() - i,
    {
        let name = &obj.functions[i].0;
        let func = &obj.functions[i].1;
        header_buf.append("Q_INVOKABLE ");
        header_buf.append(func.return_type.name());
        header_buf.append(" ");
        header_buf.append(name.as_str());
        header_buf.append("(");
        let ghost w1 = header_buf@;
        let mut j: usize = 0;
        while j < func.arguments.len()
            invariant
                j <= func.arguments@.len(),
                header_buf@ == write_decl_args(w1, func.arguments@, j as int),
            decreases func.arguments@.len() - j,
        {
            let arg = &func.arguments[j];
            if j != 0 {
                header_buf.append(", ");
            }
            header_buf.append(arg.argument_type.cpp_set_type());
            header_buf.append(" ");
            header_buf.append(arg.name.as_str());
            j = j + 1;
        }
        if func.mutable {
            header_buf.append(");\n");
        } else {
            header_buf.append(") const;\n");
        }
        i = i + 1;
    }
}

pub open spec fn write_changed_signals(w: Seq<char>, ps: Seq<(String, Property)>, n: int) -> Seq<char>
    decreases n,
{
    if n <= 0 {
        w
    } else {
        write_changed_signals(w, ps, n - 1) + "void "@ + ps[n - 1].0@ + "Changed();\n"@
    }
}

/// Declares the change signal of every property.
pub fn qsignals(header_buf: &mut String, obj: &Object)
    ensures
        final(header_buf)@ == write_changed_signals(old(header_buf)@ + "Q_SIGNALS:\n"@, obj.properties@, obj.properties@.len() as int),
{
    header_buf.append("Q_SIGNALS:\n");
    let ghost w1 = header_buf@;
    let mut i: usize = 0;
    while i < obj.properties.len()
        invariant
            i <= obj.properties@.len(),
            header_buf@ == write_changed_signals(w1, obj.properties@, i as int),
        decreases obj.properties@.len() - i,
    {
        header_buf.append("void ");
        header_buf.append(obj.properties[i].0.as_str());
        header_buf.append("Changed();\n");
        i = i + 1;
    }
}

pub open spec fn write_qobject_block(w: Seq<char>, obj: Object, content: Seq<char>) -> Seq<char> {
    w + "class "@ + obj.name@ + " : public "@ + spec_base_type(obj) + " { Q_OBJECT\n"@ + content + "};\n"@
}

/// Writes the class of `obj` around the given declarations.
pub fn qobject_block(header_buf: &mut String, obj: &Object, conf: &Config, content: &str)
    ensures
        final(header_buf)@ == write_qobject_block(old(header_buf)@, *obj, content@),
{
    header_buf.append("class ");
    header_buf.append(obj.name.as_str());
    header_buf.append(" : public ");
    header_buf.append(base_type(obj));
    header_buf.append(" { Q_OBJECT\n");
    header_buf.append(content);
    header_buf.append("};\n");
}

} // verus!

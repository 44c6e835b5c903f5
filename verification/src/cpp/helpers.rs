//! Small pieces of C++ and C text shared by the header and implementation emitters.

use crate::configuration::{Config, FunctionDef, ItemProperty, Object, ObjectType, Property, Type};
use crate::text::{
    ascii_initial, lower_initial, snake, snake_case, spec_lower_initial, spec_upper_initial,
    str_eq, upper_initial,
};
use vstd::prelude::*;
use vstd::string::*;

verus! {

pub open spec fn spec_property_type(ip: ItemProperty) -> Seq<char> {
    if ip.optional && !ip.item_property_type.spec_is_complex() {
        "QVariant"@
    } else {
        match ip.item_property_type {
            Type::Simple(_) => ip.spec_name_of_type(),
            Type::Object(o) => o.name@ + "Ref"@,
        }
    }
}

/// The C++ type under which a model reads an item property.
pub fn property_type(prop: &ItemProperty) -> (r: String)
    ensures
        r@ == spec_property_type(*prop),
{
    if prop.optional && !prop.item_property_type.is_complex() {
        return String::from_str("QVariant");
    }
    match &prop.item_property_type {
        Type::Simple(_) => String::from_str(prop.name_of_type()),
        Type::Object(obj) => String::from_str(obj.name.as_str()).concat("Ref"),
    }
}

pub open spec fn spec_write_property(name: Seq<char>, prop: Property) -> Seq<char> {
    if prop.write {
        "WRITE set"@ + spec_upper_initial(name) + " "@
    } else {
        Seq::empty()
    }
}

/// The `WRITE` clause of a `Q_PROPERTY` declaration, empty for a read-only property.
pub fn write_property(name: &str, prop: &Property) -> (r: String)
    requires
        prop.write ==> ascii_initial(name@),
    ensures
        r@ == spec_write_property(name@, *prop),
{
    if prop.write {
        String::from_str("WRITE set").concat(upper_initial(name).as_str()).concat(" ")
    } else {
        String::new()
    }
}

pub open spec fn spec_base_type(o: Object) -> Seq<char> {
    if o.object_type != ObjectType::Object {
        "QAbstractItemModel"@
    } else {
        "QObject"@
    }
}

/// The Qt class that the generated C++ class derives from.
pub fn base_type(o: &Object) -> (r: &str)
    ensures
        r@ == spec_base_type(*o),
{
    if o.object_type != ObjectType::Object {
        return "QAbstractItemModel";
    }
    "QObject"
}

pub open spec fn spec_get_return_type(prop: Property) -> Seq<char> {
    let t = if prop.optional && !prop.property_type.spec_is_complex() {
        "QVariant"@
    } else {
        prop.spec_name_of_type()
    };
    if prop.property_type.spec_is_object() {
        t + "*"@
    } else {
        t
    }
}

/// The C++ type that a property's getter returns.
pub fn get_return_type(prop: &Property) -> (r: String)
    ensures
        r@ == spec_get_return_type(*prop),
{
    let mut t = if prop.optional && !prop.is_complex() {
        String::from_str("QVariant")
    } else {
        String::from_str(prop.name_of_type())
    };
    if prop.is_object() {
        t.append("*");
    }
    t
}

/// Whether some item property of the model can be written.
pub fn model_is_writable(o: &Object) -> (r: bool)
    ensures
        r == exists|i: int| 0 <= i < o.item_properties@.len() && (#[trigger] o.item_properties@[i]).1.write,
{
    let mut write = false;
    let mut i: usize = 0;
    while i < o.item_properties.len()
        invariant
            i <= o.item_properties@.len(),
            write == exists|j: int| 0 <= j < i && (#[trigger] o.item_properties@[j]).1.write,
        decreases o.item_properties@.len() - i,
    {
        write = write || o.item_properties[i].1.write;
        proof {
            if o.item_properties@[i as int].1.write {
                assert(o.item_properties@[i as int].1.write);
            }
        }
        i = i + 1;
    }
    write
}

pub open spec fn write_members_zero(w: Seq<char>, ps: Seq<(String, Property)>, n: int) -> Seq<char>
    decreases n,
{
    if n <= 0 {
        w
    } else {
        let w1 = write_members_zero(w, ps, n - 1);
        if ps[n - 1].1.property_type.spec_is_object() {
            w1 + "    m_"@ + ps[n - 1].0@ + "(new "@ + ps[n - 1].1.spec_name_of_type() + "(false, this)),\n"@
        } else {
            w1
        }
    }
}

/// Writes the initializers that create the C++ objects of object-typed properties.
pub fn initialize_members_zero(w: &mut String, o: &Object)
    ensures
        final(w)@ == write_members_zero(old(w)@, o.properties@, o.properties@.len() as int),
{
    let ps = &o.properties;
    let ghost w0 = w@;
    let mut i: usize = 0;
    while i < ps.len()
        invariant
            i <= ps@.len(),
            w@ == write_members_zero(w0, ps@, i as int),
        decreases ps@.len() - i,
    {
        if ps[i].1.is_object() {
            w.append("    m_");
            w.append(ps[i].0.as_str());
            w.append("(new ");
            w.append(ps[i].1.name_of_type());
            w.append("(false, this)),\n");
        }
        i = i + 1;
    }
}

pub open spec fn write_init_members(w: Seq<char>, prefix: Seq<char>, o: Object, n: int) -> Seq<char>
    decreases o, n,
{
    if n <= 0 || n > o.properties@.len() {
        w
    } else {
        let w1 = write_init_members(w, prefix, o, n - 1);
        let name = o.properties@[n - 1].0;
        match o.properties@[n - 1].1.property_type {
            Type::Object(c) => write_init_members(
                w1 + "    "@ + prefix + "m_"@ + name@ + "->m_d = "@ + snake(o.name@) + "_"@ + snake(name@) + "_get("@ + prefix + "m_d);\n"@,
                "m_"@ + name@ + "->"@,
                *c,
                c.properties@.len() as int,
            ),
            _ => w1,
        }
    }
}

/// Writes the statements that hand each nested C++ object its Rust counterpart, for nested
/// objects in turn; `prefix` is the member path of the object being written, and a nested
/// object's own members are written with the path of its member alone.
pub fn initialize_members(w: &mut String, prefix: &str, o: &Object, conf: &Config)
    ensures
        final(w)@ == write_init_members(old(w)@, prefix@, *o, o.properties@.len() as int),
    decreases o,
{
    let ghost w0 = w@;
    let lc = snake_case(o.name.as_str());
    let mut i: usize = 0;
    while i < o.properties.len()
        invariant
            i <= o.properties@.len(),
            lc@ == snake(o.name@),
            w@ == write_init_members(w0, prefix@, *o, i as int),
        decreases o.properties@.len() - i,
    {
        let name = &o.properties[i].0;
        if let Type::Object(object) = &o.properties[i].1.property_type {
            w.append("    ");
            w.append(prefix);
            w.append("m_");
            w.append(name.as_str());
            w.append("->m_d = ");
            w.append(lc.as_str());
            w.append("_");
            w.append(snake_case(name.as_str()).as_str());
            w.append("_get(");
            w.append(prefix);
            w.append("m_d);\n");
            let inner = String::from_str("m_").concat(name.as_str()).concat("->");
            initialize_members(w, inner.as_str(), &**object, conf);
        }
        i = i + 1;
    }
}

pub open spec fn write_model_connect_upto(w: Seq<char>, d: Seq<char>, o: Object, n: int) -> Seq<char>
    decreases o, n,
{
    if n <= 0 || n > o.properties@.len() {
        w
    } else {
        let w1 = write_model_connect_upto(w, d, o, n - 1);
        match o.properties@[n - 1].1.property_type {
            Type::Object(c) => write_model_connect(w1, d + "->m_"@ + o.properties@[n - 1].0@, *c),
            _ => w1,
        }
    }
}

pub open spec fn write_model_connect(w: Seq<char>, d: Seq<char>, o: Object) -> Seq<char>
    decreases o, o.properties@.len() + 1,
{
    let w1 = write_model_connect_upto(w, d, o, o.properties@.len() as int);
    if o.object_type != ObjectType::Object {
        w1 + "    connect("@ + d + ", &"@ + o.name@ + "::newDataReady, "@ + d
            + ", [this](const QModelIndex& i) {\n        "@ + d + "->fetchMore(i);\n    }, Qt::QueuedConnection);\n"@
    } else {
        w1
    }
}

/// Writes, for the object at member path `d` and its nested objects (nested first), the
/// connection through which a model fetches more rows when new data is ready.
pub fn connect(w: &mut String, d: &str, o: &Object, conf: &Config)
    ensures
        final(w)@ == write_model_connect(old(w)@, d@, *o),
    decreases o,
{
    let ghost w0 = w@;
    let mut i: usize = 0;
    while i < o.properties.len()
        invariant
            i <= o.properties@.len(),
            w@ == write_model_connect_upto(w0, d@, *o, i as int),
        decreases o.properties@.len() - i,
    {
        if let Type::Object(object) = &o.properties[i].1.property_type {
            let new_d = String::from_str(d).concat("->m_").concat(o.properties[i].0.as_str());
            connect(w, new_d.as_str(), &**object, conf);
        }
        i = i + 1;
    }
    if o.object_type != ObjectType::Object {
        w.append("    connect(");
        w.append(d);
        w.append(", &");
        w.append(o.name.as_str());
        w.append("::newDataReady, ");
        w.append(d);
        w.append(", [this](const QModelIndex& i) {\n        ");
        w.append(d);
        w.append("->fetchMore(i);\n    }, Qt::QueuedConnection);\n");
    }
}

pub open spec fn known_role(role: Seq<char>) -> bool {
    role == "display"@ || role == "decoration"@ || role == "edit"@ || role == "toolTip"@
        || role == "statustip"@ || role == "whatsthis"@
}

pub open spec fn spec_role_name(role: Seq<char>) -> Seq<char> {
    if role == "display"@ {
        "DisplayRole"@
    } else if role == "decoration"@ {
        "DecorationRole"@
    } else if role == "edit"@ {
        "EditRole"@
    } else if role == "toolTip"@ {
        "ToolTipRole"@
    } else if role == "statustip"@ {
        "StatusTipRole"@
    } else {
        "WhatsThisRole"@
    }
}

/// The `Qt::ItemDataRole` enumerator for a role name.
pub fn role_name(role: &str) -> (r: String)
    requires
        known_role(role@),
    ensures
        r@ == spec_role_name(role@),
{
    if str_eq(role, "display") {
        String::from_str("DisplayRole")
    } else if str_eq(role, "decoration") {
        String::from_str("DecorationRole")
    } else if str_eq(role, "edit") {
        String::from_str("EditRole")
    } else if str_eq(role, "toolTip") {
        String::from_str("ToolTipRole")
    } else if str_eq(role, "statustip") {
        String::from_str("StatusTipRole")
    } else {
        String::from_str("WhatsThisRole")
    }
}

pub open spec fn column_writes(ip: ItemProperty, col: int) -> bool {
    ip.write && (col == 0 || (ip.roles@.len() > col && ip.roles@[col]@.len() != 0))
}

/// Whether column `col` of the model has a writable item property.
pub fn is_column_write(o: &Object, col: usize) -> (r: bool)
    ensures
        r == exists|i: int|
            0 <= i < o.item_properties@.len() && column_writes((#[trigger] o.item_properties@[i]).1, col as int),
{
    let mut i: usize = 0;
    while i < o.item_properties.len()
        invariant
            i <= o.item_properties@.len(),
            forall|j: int| 0 <= j < i ==> !column_writes((#[trigger] o.item_properties@[j]).1, col as int),
        decreases o.item_properties@.len() - i,
    {
        let ip = &o.item_properties[i].1;
        if ip.write && (col == 0 || (ip.roles.len() > col && ip.roles[col].len() != 0)) {
            return true;
        }
        i = i + 1;
    }
    false
}

pub open spec fn c_arg_decl(a: crate::configuration::Argument) -> Seq<char> {
    if a.argument_type.spec_name() == "QString"@ {
        ",const ushort*, int"@
    } else if a.argument_type.spec_name() == "QByteArray"@ {
        ",const char*, int"@
    } else {
        ","@ + a.argument_type.spec_name()
    }
}

pub open spec fn write_c_args(w: Seq<char>, args: Seq<crate::configuration::Argument>, n: int) -> Seq<char>
    decreases n,
{
    if n <= 0 {
        w
    } else {
        write_c_args(w, args, n - 1) + c_arg_decl(args[n - 1])
    }
}

pub open spec fn write_function_c_decl_spec(w: Seq<char>, name: Seq<char>, f: FunctionDef, lcname: Seq<char>, o: Object) -> Seq<char> {
    let w1 = w + (if f.return_type.spec_is_complex() { "void"@ } else { f.return_type.spec_name() })
        + " "@ + lcname + "_"@ + snake(name) + "("@ + (if f.mutable { ""@ } else { "const "@ })
        + o.name@ + "::Private*"@;
    let w2 = write_c_args(w1, f.arguments@, f.arguments@.len() as int);
    let w3 = if f.return_type.spec_name() == "QString"@ {
        w2 + ", QString*, qstring_set"@
    } else if f.return_type.spec_name() == "QByteArray"@ {
        w2 + ", QByteArray*, qbytearray_set"@
    } else {
        w2
    };
    w3 + ");\n"@
}

/// Writes the C declaration of the function that the C++ wrapper of `f` calls.
pub fn write_function_c_decl(w: &mut String, name: &String, f: &FunctionDef, lcname: &str, o: &Object)
    ensures
        final(w)@ == write_function_c_decl_spec(old(w)@, name@, *f, lcname@, *o),
{
    let lc = snake_case(name.as_str());
    if f.return_type.is_complex() {
        w.append("void");
    } else {
        w.append(f.name_of_type());
    }
    w.append(" ");
    w.append(lcname);
    w.append("_");
    w.append(lc.as_str());
    w.append("(");
    w.append(if f.mutable { "" } else { "const " });
    w.append(o.name.as_str());
    w.append("::Private*");
    let ghost w1 = w@;
    let mut i: usize = 0;
    while i < f.arguments.len()
        invariant
            i <= f.arguments@.len(),
            w@ == write_c_args(w1, f.arguments@, i as int),
        decreases f.arguments@.len() - i,
    {
        let a = &f.arguments[i];
        if str_eq(a.name_of_type(), "QString") {
            w.append(",const ushort*, int");
        } else if str_eq(a.name_of_type(), "QByteArray") {
            w.append(",const char*, int");
        } else {
            w.append(",");
            w.append(a.name_of_type());
        }
        i = i + 1;
    }
    if str_eq(f.return_type.name(), "QString") {
        w.append(", QString*, qstring_set");
    } else if str_eq(f.return_type.name(), "QByteArray") {
        w.append(", QByteArray*, qbytearray_set");
    }
    w.append(");\n");
}

pub open spec fn write_ctor_args_decl(w: Seq<char>, o: Object, n: int) -> Seq<char>
    decreases o, n,
{
    if n <= 0 || n > o.properties@.len() {
        w + o.name@ + "*"@
    } else {
        let w1 = write_ctor_args_decl(w, o, n - 1);
        match o.properties@[n - 1].1.property_type {
            Type::Object(c) => write_ctor_args_decl_full(w1 + ", "@, *c),
            _ => w1 + ", void (*)("@ + o.name@ + "*)\n"@,
        }
    }
}

pub open spec fn write_ctor_args_decl_full(w: Seq<char>, o: Object) -> Seq<char>
    decreases o, o.properties@.len() + 1,
{
    let w1 = write_ctor_args_decl(w, o, o.properties@.len() as int);
    let w2 = if o.object_type == ObjectType::List {
        w1 + ",\n        void (*)(const "@ + o.name@ + "*),\n        void (*)("@ + o.name@ + "*),\n        void (*)("@ + o.name@ + "*),\n        void (*)("@ + o.name@ + "*, quintptr, quintptr),\n        void (*)("@ + o.name@ + "*),\n        void (*)("@ + o.name@ + "*),\n        void (*)("@ + o.name@ + "*, int, int),\n        void (*)("@ + o.name@ + "*),\n        void (*)("@ + o.name@ + "*, int, int, int),\n        void (*)("@ + o.name@ + "*),\n        void (*)("@ + o.name@ + "*, int, int),\n        void (*)("@ + o.name@ + "*)"@
    } else {
        w1
    };
    if o.object_type == ObjectType::Tree {
        w2 + ",\n        void (*)(const "@ + o.name@ + "*, option_quintptr),\n        void (*)("@ + o.name@ + "*),\n        void (*)("@ + o.name@ + "*),\n        void (*)("@ + o.name@ + "*, quintptr, quintptr),\n        void (*)("@ + o.name@ + "*),\n        void (*)("@ + o.name@ + "*),\n        void (*)("@ + o.name@ + "*, option_quintptr, int, int),\n        void (*)("@ + o.name@ + "*),\n        void (*)("@ + o.name@ + "*, option_quintptr, int, int, option_quintptr, int),\n        void (*)("@ + o.name@ + "*),\n        void (*)("@ + o.name@ + "*, option_quintptr, int, int),\n        void (*)("@ + o.name@ + "*)"@
    } else {
        w2
    }
}

/// Writes the parameter list of the C constructor `<object>_new`: the C++ object, a change
/// callback per property (nested objects in turn), and the model callbacks of a list or tree.
pub fn constructor_args_decl(w: &mut String, o: &Object, conf: &Config)
    ensures
        final(w)@ == write_ctor_args_decl_full(old(w)@, *o),
    decreases o,
{
    let ghost w0 = w@;
    w.append(o.name.as_str());
    w.append("*");
    let mut i: usize = 0;
    while i < o.properties.len()
        invariant
            i <= o.properties@.len(),
            w@ == write_ctor_args_decl(w0, *o, i as int),
        decreases o.properties@.len() - i,
    {
        if let Type::Object(object) = &o.properties[i].1.property_type {
            w.append(", ");
            constructor_args_decl(w, &**object, conf);
        } else {
            w.append(", void (*)(");
            w.append(o.name.as_str());
            w.append("*)\n");
        }
        i = i + 1;
    }
    if o.object_type == ObjectType::List {
        w.append(",\n        void (*)(const ");
        w.append(o.name.as_str());
        w.append("*),\n        void (*)(");
        w.append(o.name.as_str());
        w.append("*),\n        void (*)(");
        w.append(o.name.as_str());
        w.append("*),\n        void (*)(");
        w.append(o.name.as_str());
        w.append("*, quintptr, quintptr),\n        void (*)(");
        w.append(o.name.as_str());
        w.append("*),\n        void (*)(");
        w.append(o.name.as_str());
        w.append("*),\n        void (*)(");
        w.append(o.name.as_str());
        w.append("*, int, int),\n        void (*)(");
        w.append(o.name.as_str());
        w.append("*),\n        void (*)(");
        w.append(o.name.as_str());
        w.append("*, int, int, int),\n        void (*)(");
        w.append(o.name.as_str());
        w.append("*),\n        void (*)(");
        w.append(o.name.as_str());
        w.append("*, int, int),\n        void (*)(");
        w.append(o.name.as_str());
        w.append("*)");
    }
    if o.object_type == ObjectType::Tree {
        w.append(",\n        void (*)(const ");
        w.append(o.name.as_str());
        w.append("*, option_quintptr),\n        void (*)(");
        w.append(o.name.as_str());
        w.append("*),\n        void (*)(");
        w.append(o.name.as_str());
        w.append("*),\n        void (*)(");
        w.append(o.name.as_str());
        w.append("*, quintptr, quintptr),\n        void (*)(");
        w.append(o.name.as_str());
        w.append("*),\n        void (*)(");
        w.append(o.name.as_str());
        w.append("*),\n        void (*)(");
        w.append(o.name.as_str());
        w.append("*, option_quintptr, int, int),\n        void (*)(");
        w.append(o.name.as_str());
        w.append("*),\n        void (*)(");
        w.append(o.name.as_str());
        w.append("*, option_quintptr, int, int, option_quintptr, int),\n        void (*)(");
        w.append(o.name.as_str());
        w.append("*),\n        void (*)(");
        w.append(o.name.as_str());
        w.append("*, option_quintptr, int, int),\n        void (*)(");
        w.append(o.name.as_str());
        w.append("*)");
    }
}

pub open spec fn spec_changed_f(o: Object, p_name: Seq<char>) -> Seq<char> {
    spec_lower_initial(o.name@) + spec_upper_initial(p_name) + "Changed"@
}

/// The name of the C++ change callback of a property: `<object><Property>Changed` with the
/// object's initial lowered and the property's raised.
pub fn changed_f(o: &Object, p_name: &str) -> (r: String)
    requires
        ascii_initial(o.name@),
        ascii_initial(p_name@),
    ensures
        r@ == spec_changed_f(*o, p_name@),
{
    lower_initial(o.name.as_str()).concat(upper_initial(p_name).as_str()).concat("Changed")
}


pub open spec fn c_set_arg(t: Seq<char>) -> Seq<char> {
    if t == "qstring_t"@ {
        "const ushort *str, int len"@
    } else if t == "qbytearray_t"@ {
        "const char* bytes, int len"@
    } else {
        t
    }
}

pub open spec fn write_prop_c_decl(w: Seq<char>, o: Object, lcname: Seq<char>, name: Seq<char>, p: Property) -> Seq<char> {
    let base = lcname + "_"@ + snake(name);
    let w1 = if p.property_type.spec_is_object() {
        w + p.spec_name_of_type() + "::Private* "@ + base + "_get(const "@ + o.name@ + "::Private*);\n"@
    } else if p.property_type.spec_is_complex() {
        w + "void "@ + base + "_get(const "@ + o.name@ + "::Private*, "@ + crate::configuration::spec_c_get_type(p.spec_name_of_type()) + ");\n"@
    } else if p.optional {
        w + "option_"@ + p.spec_name_of_type() + " "@ + base + "_get(const "@ + o.name@ + "::Private*);\n"@
    } else {
        w + p.spec_name_of_type() + " "@ + base + "_get(const "@ + o.name@ + "::Private*);\n"@
    };
    if p.write {
        let st = c_set_arg(p.property_type.spec_c_set_type());
        let w2 = w1 + "    void "@ + base + "_set("@ + o.name@ + "::Private*, "@ + st + ");\n"@;
        if p.optional {
            w2 + "    void "@ + base + "_set_none("@ + o.name@ + "::Private*);\n"@
        } else {
            w2
        }
    } else {
        w1
    }
}

pub open spec fn write_props_c_decl(w: Seq<char>, o: Object, lcname: Seq<char>, n: int) -> Seq<char>
    decreases n,
{
    if n <= 0 {
        w
    } else {
        write_prop_c_decl(
            write_props_c_decl(w, o, lcname, n - 1),
            o,
            lcname,
            o.properties@[n - 1].0@,
            o.properties@[n - 1].1,
        )
    }
}

pub open spec fn write_funcs_c_decl(w: Seq<char>, o: Object, lcname: Seq<char>, n: int) -> Seq<char>
    decreases n,
{
    if n <= 0 {
        w
    } else {
        write_function_c_decl_spec(
            write_funcs_c_decl(w, o, lcname, n - 1),
            o.functions@[n - 1].0@,
            o.functions@[n - 1].1,
            lcname,
            o,
        )
    }
}

pub open spec fn write_object_c_decl_spec(w: Seq<char>, o: Object) -> Seq<char> {
    let lcname = snake(o.name@);
    let w1 = write_ctor_args_decl_full(w + o.name@ + "::Private* "@ + lcname + "_new("@, o) + ");\nvoid "@ + lcname + "_free("@ + o.name@ + "::Private*);\n"@;
    write_funcs_c_decl(
        write_props_c_decl(w1, o, lcname, o.properties@.len() as int),
        o,
        lcname,
        o.functions@.len() as int,
    )
}

/// Writes the C declarations of everything the C++ class of `o` calls into: its constructor
/// and destructor, the getters and setters of its properties, and its functions.
pub fn write_object_c_decl(w: &mut String, o: &Object, conf: &Config)
    ensures
        final(w)@ == write_object_c_decl_spec(old(w)@, *o),
{
    let lcname = snake_case(o.name.as_str());
    w.append(o.name.as_str());
    w.append("::Private* ");
    w.append(lcname.as_str());
    w.append("_new(");
    constructor_args_decl(w, o, conf);
    w.append(");\nvoid ");
    w.append(lcname.as_str());
    w.append("_free(");
    w.append(o.name.as_str());
    w.append("::Private*);\n");
    let ghost w1 = w@;
    let mut i: usize = 0;
    while i < o.properties.len()
        invariant
            i <= o.properties@.len(),
            lcname@ == snake(o.name@),
            w@ == write_props_c_decl(w1, *o, lcname@, i as int),
        decreases o.properties@.len() - i,
    {
        let prop_name = &o.properties[i].0;
        let p = &o.properties[i].1;
        let base = lcname.clone().concat("_").concat(snake_case(prop_name.as_str()).as_str());
        if p.is_object() {
        w.append(p.name_of_type());
        w.append("::Private* ");
        w.append(base.as_str());
        w.append("_get(const ");
        w.append(o.name.as_str());
        w.append("::Private*);\n");
        } else if p.is_complex() {
        w.append("void ");
        w.append(base.as_str());
        w.append("_get(const ");
        w.append(o.name.as_str());
        w.append("::Private*, ");
        w.append(p.c_get_type().as_str());
        w.append(");\n");
        } else if p.optional {
        w.append("option_");
        w.append(p.name_of_type());
        w.append(" ");
        w.append(base.as_str());
        w.append("_get(const ");
        w.append(o.name.as_str());
        w.append("::Private*);\n");
        } else {
        w.append(p.name_of_type());
        w.append(" ");
        w.append(base.as_str());
        w.append("_get(const ");
        w.append(o.name.as_str());
        w.append("::Private*);\n");
        }
        if p.write {
            let mut t = p.property_type.c_set_type();
            if str_eq(t, "qstring_t") {
                t = "const ushort *str, int len";
            } else if str_eq(t, "qbytearray_t") {
                t = "const char* bytes, int len";
            }
            w.append("    void ");
            w.append(base.as_str());
            w.append("_set(");
            w.append(o.name.as_str());
            w.append("::Private*, ");
            w.append(t);
            w.append(");\n");
            if p.optional {
                w.append("    void ");
                w.append(base.as_str());
                w.append("_set_none(");
                w.append(o.name.as_str());
                w.append("::Private*);\n");
            }
        }
        i = i + 1;
    }
    let ghost w2 = w@;
    let mut j: usize = 0;
    while j < o.functions.len()
        invariant
            j <= o.functions@.len(),
            lcname@ == snake(o.name@),
            w@ == write_funcs_c_decl(w2, *o, lcname@, j as int),
        decreases o.functions@.len() - j,
    {
        write_function_c_decl(w, &o.functions[j].0, &o.functions[j].1, lcname.as_str(), o);
        j = j + 1;
    }
}

} // verus!

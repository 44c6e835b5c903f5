//! The definition of an object's C++ class: constructors, destructor, model header data,
//! and the property and function definitions.

pub mod functions;
pub mod properties;

use crate::configuration::{Config, Object, ObjectType, Signal, Type};
use crate::cpp::codegen::{block_text, LineBlock, BlockView};
use crate::cpp::helpers::{
    base_type, changed_f, initialize_members_zero, spec_base_type, spec_changed_f, write_members_zero,
};
use crate::template::{fill, fill_template};
use crate::text::{ascii_initial, decimal, holds_text, snake, snake_case, str_eq, usize_to_decimal};
use functions::write_function_defs;
use properties::write_properties_defs;
use vstd::prelude::*;
use vstd::string::*;

verus! {

pub open spec fn write_connections(w: Seq<char>, d: Seq<char>, o: Object, n: int) -> Seq<char>
    decreases n,
{
    if n <= 0 {
        w
    } else {
        let c = o.connections@[n - 1];
        write_connections(w, d, o, n - 1) + "\n            connect("@ + d + ", &"@ + o.name@ + "::"@ + c.signal@ + ", "@ + d + ", [this]() {\n                    "@ + d + "->"@ + c.function@ + "();\n            }, Qt::QueuedConnection);\n\n"@
    }
}

pub open spec fn write_connect_upto(w: Seq<char>, d: Seq<char>, o: Object, n: int) -> Seq<char>
    decreases o, n,
{
    if n <= 0 || n > o.properties@.len() {
        w
    } else {
        let w1 = write_connect_upto(w, d, o, n - 1);
        match o.properties@[n - 1].1.property_type {
            Type::Object(c) => write_connect(w1, d + "->m_"@ + o.properties@[n - 1].0@, *c),
            _ => w1,
        }
    }
}

pub open spec fn write_connect(w: Seq<char>, d: Seq<char>, o: Object) -> Seq<char>
    decreases o, o.properties@.len() + 1,
{
    write_connections(write_connect_upto(w, d, o, o.properties@.len() as int), d, o, o.connections@.len() as int)
}

/// Writes the queued connections of the object at member path `d` and of its nested objects,
/// nested objects first: each connects a signal to a function of the object.
pub fn connect(w: &mut String, d: &str, o: &Object)
    requires
        o.connections_ok(),
    ensures
        final(w)@ == write_connect(old(w)@, d@, *o),
    decreases o,
{
    let ghost w0 = w@;
    let mut i: usize = 0;
    while i < o.properties.len()
        invariant
            i <= o.properties@.len(),
            o.connections_ok(),
            w@ == write_connect_upto(w0, d@, *o, i as int),
        decreases o.properties@.len() - i,
    {
        if let Type::Object(object) = &o.properties[i].1.property_type {
            proof {
                assert(object.connections_ok());
            }
            let new_d = String::from_str(d).concat("->m_").concat(o.properties[i].0.as_str());
            connect(w, new_d.as_str(), &**object);
        }
        i = i + 1;
    }
    let ghost w1 = w@;
    let mut j: usize = 0;
    while j < o.connections.len()
        invariant
            j <= o.connections@.len(),
            w@ == write_connections(w1, d@, *o, j as int),
        decreases o.connections@.len() - j,
    {
        let c = &o.connections[j];
        w.append("\n            connect(");
        w.append(d);
        w.append(", &");
        w.append(o.name.as_str());
        w.append("::");
        w.append(c.signal.as_str());
        w.append(", ");
        w.append(d);
        w.append(", [this]() {\n                    ");
        w.append(d);
        w.append("->");
        w.append(c.function.as_str());
        w.append("();\n            }, Qt::QueuedConnection);\n\n");
        j = j + 1;
    }
}

pub open spec fn write_fetch_more_upto(w: Seq<char>, d: Seq<char>, o: Object, n: int) -> Seq<char>
    decreases o, n,
{
    if n <= 0 || n > o.properties@.len() {
        w
    } else {
        let w1 = write_fetch_more_upto(w, d, o, n - 1);
        match o.properties@[n - 1].1.property_type {
            Type::Object(c) => write_fetch_more(w1, d + "->m_"@ + o.properties@[n - 1].0@, *c),
            _ => w1,
        }
    }
}

pub open spec fn write_fetch_more(w: Seq<char>, d: Seq<char>, o: Object) -> Seq<char>
    decreases o, o.properties@.len() + 1,
{
    let w1 = write_fetch_more_upto(w, d, o, o.properties@.len() as int);
    if o.object_type != ObjectType::Object {
        w1 + "connect("@ + d + ", &"@ + o.name@ + "::newDataReady, "@ + d + ", [this](const QModelIndex& i) {\n        "@ + d + "->fetchMore(i);\n    }, Qt::QueuedConnection);\n"@
    } else {
        w1
    }
}

/// Writes, for the object at member path `d` and its nested objects (nested first), the
/// connection that makes a model fetch more rows when new data is ready.
pub fn connect_fetch_more(w: &mut String, d: &str, o: &Object)
    ensures
        final(w)@ == write_fetch_more(old(w)@, d@, *o),
    decreases o,
{
    let ghost w0 = w@;
    let mut i: usize = 0;
    while i < o.properties.len()
        invariant
            i <= o.properties@.len(),
            w@ == write_fetch_more_upto(w0, d@, *o, i as int),
        decreases o.properties@.len() - i,
    {
        if let Type::Object(object) = &o.properties[i].1.property_type {
            let new_d = String::from_str(d).concat("->m_").concat(o.properties[i].0.as_str());
            connect_fetch_more(w, new_d.as_str(), &**object);
        }
        i = i + 1;
    }
    if o.object_type != ObjectType::Object {
        w.append("connect(");
        w.append(d);
        w.append(", &");
        w.append(o.name.as_str());
        w.append("::newDataReady, ");
        w.append(d);
        w.append(", [this](const QModelIndex& i) {\n        ");
        w.append(d);
        w.append("->fetchMore(i);\n    }, Qt::QueuedConnection);\n");
    }
}

pub open spec fn has_display_role(roles: Seq<String>) -> bool {
    exists|j: int| 0 <= j < roles.len() && (#[trigger] roles[j])@ == "display"@
}

/// The roles of an item property in column `col`, none where it has no roles there.
pub open spec fn roles_at(ip: crate::configuration::ItemProperty, col: int) -> Seq<String> {
    if 0 <= col < ip.roles@.len() {
        ip.roles@[col]@
    } else {
        Seq::empty()
    }
}

pub open spec fn write_header_items(w: Seq<char>, o: Object, col: int, n: int) -> Seq<char>
    decreases n,
{
    if n <= 0 {
        w
    } else {
        let w1 = write_header_items(w, o, col, n - 1);
        if has_display_role(roles_at(o.item_properties@[n - 1].1, col)) {
            w1 + "m_headerData.insert(qMakePair("@ + decimal(col as nat) + ", Qt::DisplayRole), QVariant(\""@ + o.item_properties@[n - 1].0@ + "\"));\n"@
        } else {
            w1
        }
    }
}

pub open spec fn write_header_cols(w: Seq<char>, o: Object, c: int) -> Seq<char>
    decreases c,
{
    if c <= 0 {
        w
    } else {
        write_header_items(write_header_cols(w, o, c - 1), o, c - 1, o.item_properties@.len() as int)
    }
}

pub open spec fn write_header_data_fn(w: Seq<char>, o: Object) -> Seq<char> {
    if o.object_type == ObjectType::Object {
        w
    } else {
        write_header_cols(w + "void "@ + o.name@ + "::initHeaderData() {\n"@, o, o.spec_column_count() as int) + "}\n"@
    }
}

fn contains_display(roles: &Vec<String>) -> (r: bool)
    ensures
        r == has_display_role(roles@),
{
    let mut j: usize = 0;
    while j < roles.len()
        invariant
            j <= roles@.len(),
            forall|k: int| 0 <= k < j ==> (#[trigger] roles@[k])@ != "display"@,
        decreases roles@.len() - j,
    {
        if str_eq(roles[j].as_str(), "display") {
            return true;
        }
        j = j + 1;
    }
    false
}

/// Writes a model's `initHeaderData`, which names each column after the item properties
/// that have the display role in it.
pub fn write_abstract_item_header_data_function(o: &Object, w: &mut String)
    ensures
        final(w)@ == write_header_data_fn(old(w)@, *o),
{
    if o.object_type == ObjectType::Object {
        return;
    }
    w.append("void ");
    w.append(o.name.as_str());
    w.append("::initHeaderData() {\n");
    let ghost w1 = w@;
    let cols = o.column_count();
    let mut col: usize = 0;
    while col < cols
        invariant
            cols == o.spec_column_count(),
            col <= cols,
            w@ == write_header_cols(w1, *o, col as int),
        decreases cols - col,
    {
        let col_text = usize_to_decimal(col);
        let ghost w2 = w@;
        let mut i: usize = 0;
        while i < o.item_properties.len()
            invariant
                i <= o.item_properties@.len(),
                col_text@ == decimal(col as nat),
                w@ == write_header_items(w2, *o, col as int, i as int),
            decreases o.item_properties@.len() - i,
        {
            let ip = &o.item_properties[i].1;
            let has = if col < ip.roles.len() {
                contains_display(&ip.roles[col])
            } else {
                proof {
                    assert(roles_at(*ip, col as int) =~= Seq::<String>::empty());
                }
                false
            };
            if has {
                let ghost n = i + 1;
                w.append("m_headerData.insert(qMakePair(");
                w.append(col_text.as_str());
                w.append(", Qt::DisplayRole), QVariant(\"");
                w.append(o.item_properties[i].0.as_str());
                w.append("\"));\n");
            }
            i = i + 1;
        }
        col = col + 1;
    }
    w.append("}\n");
}

pub open spec fn emit_lines(ls: Seq<Seq<char>>, s: Signal, n: int) -> Seq<Seq<char>>
    decreases n,
{
    if n <= 0 {
        ls
    } else {
        let l1 = emit_lines(ls, s, n - 1);
        let l2 = if n - 1 != 0 { l1.push(", "@) } else { l1 };
        l2.push(s.arguments@[n - 1].name@)
    }
}

/// The block that forwards a signal from Rust: it emits the signal with the arguments.
pub open spec fn emit_block(name: Seq<char>, s: Signal) -> BlockView {
    BlockView {
        before: None,
        after: None,
        lines: emit_lines(seq!["Q_EMIT o->"@ + name + "("@], s, s.arguments@.len() as int).push(");"@),
    }
}

pub open spec fn write_signal_params(w: Seq<char>, s: Signal, n: int) -> Seq<char>
    decreases n,
{
    if n <= 0 {
        w
    } else {
        let a = s.arguments@[n - 1];
        write_signal_params(w, s, n - 1) + ", "@ + a.argument_type.spec_name() + " "@ + a.name@
    }
}

pub open spec fn write_signal_lambdas(w: Seq<char>, obj: Object, n: int) -> Seq<char>
    decreases n,
{
    if n <= 0 {
        w
    } else {
        let (name, s) = obj.signals@[n - 1];
        let w1 = write_signal_lambdas(w, obj, n - 1) + ","@ + "[](const "@ + obj.name@ + "* o"@;
        write_signal_params(w1, s, s.arguments@.len() as int) + ")"@ + block_text(emit_block(name@, s))
    }
}

pub open spec fn write_ctor_args_upto(w: Seq<char>, prefix: Seq<char>, obj: Object, lambdas: Seq<char>, n: int) -> Seq<char>
    decreases obj, n,
{
    if n <= 0 || n > obj.properties@.len() {
        w
    } else {
        let w1 = write_ctor_args_upto(w, prefix, obj, lambdas, n - 1);
        let name = obj.properties@[n - 1].0@;
        match obj.properties@[n - 1].1.property_type {
            Type::Object(c) => write_ctor_args(w1 + ", "@ + prefix + "m_"@ + name, prefix + "m_"@ + name + "->"@, *c, lambdas),
            _ => w1 + ",\n"@ + spec_changed_f(obj, name),
        }
    }
}

pub open spec fn write_ctor_args(w: Seq<char>, prefix: Seq<char>, obj: Object, lambdas: Seq<char>) -> Seq<char>
    decreases obj, obj.properties@.len() + 1,
{
    let w1 = write_ctor_args_upto(w, prefix, obj, lambdas, obj.properties@.len() as int);
    let w2 = if obj.object_type == ObjectType::List {
        w1 + fill_template(lambdas, obj.name@, decimal((obj.spec_column_count() - 1) as nat)) + "\n"@
    } else {
        w1
    };
    write_signal_lambdas(w2, obj, obj.signals@.len() as int)
}

/// Writes the arguments of the Rust constructor call: the nested C++ objects, the change
/// callback of every property, the model callbacks of a list (the `lambdas` template filled
/// with the class name and the last column), and a lambda per signal.
pub fn constructor_args(write_buf: &mut String, prefix: &str, obj: &Object, conf: &Config, lambdas: &str)
    requires
        obj.ctor_names_ok(),
    ensures
        final(write_buf)@ == write_ctor_args(old(write_buf)@, prefix@, *obj, lambdas@),
    decreases obj,
{
    let ghost w0 = write_buf@;
    let mut i: usize = 0;
    while i < obj.properties.len()
        invariant
            i <= obj.properties@.len(),
            obj.ctor_names_ok(),
            write_buf@ == write_ctor_args_upto(w0, prefix@, *obj, lambdas@, i as int),
        decreases obj.properties@.len() - i,
    {
        let name = &obj.properties[i].0;
        let ghost entry = obj.properties@[i as int];
        if let Type::Object(object) = &obj.properties[i].1.property_type {
            proof {
                assert(object.ctor_names_ok());
            }
            write_buf.append(", ");
            write_buf.append(prefix);
            write_buf.append("m_");
            write_buf.append(name.as_str());
            let inner = String::from_str(prefix).concat("m_").concat(name.as_str()).concat("->");
            constructor_args(write_buf, inner.as_str(), &**object, conf, lambdas);
        } else {
            proof {
                assert(ascii_initial(obj.name@) && ascii_initial(entry.0@));
            }
            write_buf.append(",\n");
            write_buf.append(changed_f(obj, name.as_str()).as_str());
        }
        i = i + 1;
    }
    if let ObjectType::List = obj.object_type {
        let count = usize_to_decimal(obj.column_count() - 1);
        write_buf.append(fill(lambdas, obj.name.as_str(), count.as_str()).as_str());
        write_buf.append("\n");
    }
    let ghost w2 = write_buf@;
    let mut j: usize = 0;
    while j < obj.signals.len()
        invariant
            j <= obj.signals@.len(),
            write_buf@ == write_signal_lambdas(w2, *obj, j as int),
        decreases obj.signals@.len() - j,
    {
        let signal_name = &obj.signals[j].0;
        let signal = &obj.signals[j].1;
        write_buf.append(",");
        write_buf.append("[](const ");
        write_buf.append(obj.name.as_str());
        write_buf.append("* o");
        let ghost w3 = write_buf@;
        let mut k: usize = 0;
        while k < signal.arguments.len()
            invariant
                k <= signal.arguments@.len(),
                write_buf@ == write_signal_params(w3, *signal, k as int),
            decreases signal.arguments@.len() - k,
        {
            let arg = &signal.arguments[k];
            write_buf.append(", ");
            write_buf.append(arg.argument_type.cpp_set_type());
            write_buf.append(" ");
            write_buf.append(arg.name.as_str());
            k = k + 1;
        }
        write_buf.append(")");
        let mut body = LineBlock::new();
        let first = String::from_str("Q_EMIT o->").concat(signal_name.as_str()).concat("(");
        body.line(first.as_str());
        let ghost l0 = body@.lines;
        proof {
            assert(l0 =~= seq!["Q_EMIT o->"@ + signal_name@ + "("@]);
        }
        let mut m: usize = 0;
        while m < signal.arguments.len()
            invariant
                m <= signal.arguments@.len(),
                body@ == (BlockView { before: None, after: None, lines: emit_lines(l0, *signal, m as int) }),
            decreases signal.arguments@.len() - m,
        {
            if m != 0 {
                body.line(", ");
            }
            body.line(signal.arguments[m].name.as_str());
            m = m + 1;
        }
        body.line(");");
        write_buf.append(body.to_text().as_str());
        j = j + 1;
    }
}

pub open spec fn write_nested_init_members(w: Seq<char>, prefix: Seq<char>, o: Object, n: int) -> Seq<char>
    decreases o, n,
{
    if n <= 0 || n > o.properties@.len() {
        w
    } else {
        let w1 = write_nested_init_members(w, prefix, o, n - 1);
        let name = o.properties@[n - 1].0;
        match o.properties@[n - 1].1.property_type {
            Type::Object(c) => write_nested_init_members(
                w1 + "    "@ + prefix + "m_"@ + name@ + "->m_d = "@ + snake(o.name@) + "_"@ + snake(name@) + "_get("@ + prefix + "m_d);\n"@,
                prefix + "m_"@ + name@ + "->"@,
                *c,
                c.properties@.len() as int,
            ),
            _ => w1,
        }
    }
}

/// Writes the statements that hand each nested C++ object its Rust counterpart, for nested
/// objects in turn; `prefix` is the member path of the object being written, and it grows
/// with each level of nesting.
pub fn initialize_members(w: &mut String, prefix: &str, o: &Object, conf: &Config)
    ensures
        final(w)@ == write_nested_init_members(old(w)@, prefix@, *o, o.properties@.len() as int),
    decreases o,
{
    let ghost w0 = w@;
    let lc = snake_case(o.name.as_str());
    let mut i: usize = 0;
    while i < o.properties.len()
        invariant
            i <= o.properties@.len(),
            lc@ == snake(o.name@),
            w@ == write_nested_init_members(w0, prefix@, *o, i as int),
        decreases o.properties@.len() - i,
    {
        let name = &o.properties[i].0;
        if let Type::Object(object) = &o.properties[i].1.property_type {
            w.append("    ");
            w.append(prefix);
            w.append("m_");
            w.append(name.as_str());
            w.append("->m_d = ");
            w.append(lc.as_str());
            w.append("_");
            w.append(snake_case(name.as_str()).as_str());
            w.append("_get(");
            w.append(prefix);
            w.append("m_d);\n");
            let inner = String::from_str(prefix).concat("m_").concat(name.as_str()).concat("->");
            initialize_members(w, inner.as_str(), &**object, conf);
        }
        i = i + 1;
    }
}

pub open spec fn write_cpp_object_spec(w: Seq<char>, obj: Object, lambdas: Seq<char>) -> Seq<char> {
    let w1 = write_members_zero(w + "\n"@ + obj.name@ + "::"@ + obj.name@ + "(bool /*owned*/, QObject *parent):\n    "@ + spec_base_type(obj) + "(parent),"@, obj.properties@, obj.properties@.len() as int)
        + "m_d(nullptr), m_ownsPrivate(false)"@ + "{"@;
    let w2 = (if obj.object_type != ObjectType::Object { w1 + "initHeaderData();\n"@ } else { w1 }) + "}\n"@;
    let w3 = write_members_zero(w2 + "\n"@ + obj.name@ + "::"@ + obj.name@ + "(QObject *parent):\n    "@ + spec_base_type(obj) + "(parent),\n"@, obj.properties@, obj.properties@.len() as int) + "m_d("@ + snake(obj.name@) + "_new( new "@ + obj.name@ + "PtrBundle { this"@;
    let w4 = write_ctor_args(w3, ""@, obj, lambdas) + "})),\n    m_ownsPrivate(true)\n"@ + "{\n"@;
    let w5 = write_fetch_more(
        write_connect(write_nested_init_members(w4, ""@, obj, obj.properties@.len() as int), "this"@, obj),
        "this"@,
        obj,
    );
    let w6 = (if obj.object_type != ObjectType::Object { w5 + "initHeaderData();\n"@ } else { w5 }) + "}\n"@;
    let w7 = write_header_data_fn(w6 + "\n"@ + obj.name@ + "::~"@ + obj.name@ + "() {\n    if (m_ownsPrivate) {\n        "@ + snake(obj.name@) + "_free(m_d);\n    }\n}\n"@, obj);
    write_function_defs(write_properties_defs(w7, obj, obj.properties@.len() as int), obj, obj.functions@.len() as int)
}

/// Writes the definition of an object's C++ class; `lambdas` is the template of a list
/// model's constructor callbacks.
pub fn write_cpp_object(w: &mut String, obj: &Object, conf: &Config, lambdas: &str)
    requires
        obj.tables_ok(),
        obj.cpp_names_ok(),
        obj.connections_ok(),
    ensures
        final(w)@ == write_cpp_object_spec(old(w)@, *obj, lambdas@),
{
    let lcname = snake_case(obj.name.as_str());
    w.append("\n");
    w.append(obj.name.as_str());
    w.append("::");
    w.append(obj.name.as_str());
    w.append("(bool /*owned*/, QObject *parent):\n    ");
    w.append(base_type(obj));
    w.append("(parent),");
    initialize_members_zero(w, obj);
    w.append("m_d(nullptr), m_ownsPrivate(false)");
    w.append("{");
    if obj.object_type != ObjectType::Object {
        w.append("initHeaderData();\n");
    }
    w.append("}\n");
    w.append("\n");
    w.append(obj.name.as_str());
    w.append("::");
    w.append(obj.name.as_str());
    w.append("(QObject *parent):\n    ");
    w.append(base_type(obj));
    w.append("(parent),\n");
    initialize_members_zero(w, obj);
    w.append("m_d(");
    w.append(lcname.as_str());
    w.append("_new( new ");
    w.append(obj.name.as_str());
    w.append("PtrBundle { this");
    constructor_args(w, "", obj, conf, lambdas);
    w.append("})),\n    m_ownsPrivate(true)\n");
    w.append("{\n");
    initialize_members(w, "", obj, conf);
    connect(w, "this", obj);
    connect_fetch_more(w, "this", obj);
    if obj.object_type != ObjectType::Object {
        w.append("initHeaderData();\n");
    }
    w.append("}\n");
    w.append("\n");
    w.append(obj.name.as_str());
    w.append("::~");
    w.append(obj.name.as_str());
    w.append("() {\n    if (m_ownsPrivate) {\n        ");
    w.append(lcname.as_str());
    w.append("_free(m_d);\n    }\n}\n");
    write_abstract_item_header_data_function(obj, w);
    properties::properties(w, obj);
    functions::functions(w, obj);
}

proof fn lemma_max_roles_bounds(ips: Seq<(String, crate::configuration::ItemProperty)>, n: int, i: int)
    requires
        0 <= i < n <= ips.len(),
    ensures
        ips[i].1.roles@.len() <= crate::configuration::max_roles(ips, n),
    decreases n,
{
    if i < n - 1 {
        lemma_max_roles_bounds(ips, n - 1, i);
    }
}

proof fn lemma_header_items_extend(w: Seq<char>, o: Object, col: int, m: int, n: int)
    requires
        0 <= m <= n,
    ensures
        write_header_items(w, o, col, m).is_prefix_of(write_header_items(w, o, col, n)),
    decreases n,
{
    if n > m {
        lemma_header_items_extend(w, o, col, m, n - 1);
        let a = write_header_items(w, o, col, m);
        let b = write_header_items(w, o, col, n - 1);
        let c = write_header_items(w, o, col, n);
        assert(c.subrange(0, b.len() as int) =~= b);
        assert(c.subrange(0, a.len() as int) =~= b.subrange(0, a.len() as int));
    }
}

proof fn lemma_header_cols_extend(w: Seq<char>, o: Object, m: int, n: int)
    requires
        0 <= m <= n,
    ensures
        write_header_cols(w, o, m).is_prefix_of(write_header_cols(w, o, n)),
    decreases n,
{
    if n > m {
        lemma_header_cols_extend(w, o, m, n - 1);
        let a = write_header_cols(w, o, m);
        let b = write_header_cols(w, o, n - 1);
        let c = write_header_cols(w, o, n);
        lemma_header_items_extend(b, o, n - 1, 0, o.item_properties@.len() as int);
        assert(c.subrange(0, a.len() as int) =~= b.subrange(0, a.len() as int));
    }
}

proof fn lemma_header_items_plain(w: Seq<char>, o: Object, col: int, n: int)
    requires
        n <= o.item_properties@.len(),
        forall|i: int| 0 <= i < o.item_properties@.len() ==> !has_display_role(roles_at(#[trigger] o.item_properties@[i].1, col)),
    ensures
        write_header_items(w, o, col, n) == w,
    decreases n,
{
    if n > 0 {
        lemma_header_items_plain(w, o, col, n - 1);
        assert(!has_display_role(roles_at(o.item_properties@[n - 1].1, col)));
    }
}

proof fn lemma_header_cols_plain(w: Seq<char>, o: Object, c: int)
    requires
        forall|i: int, col: int|
            0 <= i < o.item_properties@.len() ==> !has_display_role(#[trigger] roles_at(o.item_properties@[i].1, col)),
    ensures
        write_header_cols(w, o, c) == w,
    decreases c,
{
    if c > 0 {
        lemma_header_cols_plain(w, o, c - 1);
        lemma_header_items_plain(w, o, c - 1, o.item_properties@.len() as int);
    }
}

/// The line of `initHeaderData` that names column `col` after the item property `name`.
pub open spec fn header_data_line(col: nat, name: Seq<char>) -> Seq<char> {
    "m_headerData.insert(qMakePair("@ + decimal(col) + ", Qt::DisplayRole), QVariant(\""@ + name + "\"));\n"@
}

/// A model's `initHeaderData` names column `col` after every item property that lists the
/// display role among its roles in that column.
pub proof fn law_display_roles_name_columns(w: Seq<char>, o: Object, i: int, col: int, j: int)
    requires
        o.object_type != ObjectType::Object,
        0 <= i < o.item_properties@.len(),
        0 <= col < o.item_properties@[i].1.roles@.len(),
        0 <= j < o.item_properties@[i].1.roles@[col]@.len(),
        o.item_properties@[i].1.roles@[col]@[j]@ == "display"@,
    ensures
        holds_text(write_header_data_fn(w, o), header_data_line(col as nat, o.item_properties@[i].0@)),
{
    let ips = o.item_properties@;
    let cc = o.spec_column_count() as int;
    lemma_max_roles_bounds(ips, ips.len() as int, i);
    assert(has_display_role(roles_at(ips[i].1, col)));
    let w0 = w + "void "@ + o.name@ + "::initHeaderData() {\n"@;
    let before = write_header_cols(w0, o, col);
    let a = write_header_items(before, o, col, i);
    let line = header_data_line(col as nat, ips[i].0@);
    let t1 = write_header_items(before, o, col, i + 1);
    assert(t1 =~= a + line);
    lemma_header_items_extend(before, o, col, i + 1, ips.len() as int);
    lemma_header_cols_extend(w0, o, col + 1, cc);
    let full = write_header_cols(w0, o, cc);
    let text = write_header_data_fn(w, o);
    assert(text == full + "}\n"@);
    assert(t1.is_prefix_of(full));
    let b = text.subrange(t1.len() as int, text.len() as int);
    assert(text =~= a + line + b);
}

/// Where no item property has the display role in any column, `initHeaderData` names no
/// column: its body is empty.
pub proof fn law_no_display_role_no_header_data(w: Seq<char>, o: Object)
    requires
        o.object_type != ObjectType::Object,
        forall|i: int, col: int, j: int|
            0 <= i < o.item_properties@.len() && 0 <= col < o.item_properties@[i].1.roles@.len() && 0 <= j
                < o.item_properties@[i].1.roles@[col]@.len() ==> (#[trigger] o.item_properties@[i].1.roles@[col]@[j])@
                != "display"@,
    ensures
        write_header_data_fn(w, o) == w + "void "@ + o.name@ + "::initHeaderData() {\n"@ + "}\n"@,
{
    let w0 = w + "void "@ + o.name@ + "::initHeaderData() {\n"@;
    assert forall|i: int, col: int|
        0 <= i < o.item_properties@.len() implies !has_display_role(#[trigger] roles_at(o.item_properties@[i].1, col)) by {
        if has_display_role(roles_at(o.item_properties@[i].1, col)) {
            let j = choose|j: int| 0 <= j < roles_at(o.item_properties@[i].1, col).len() && (#[trigger] roles_at(o.item_properties@[i].1, col)[j])@ == "display"@;
            assert(o.item_properties@[i].1.roles@[col]@[j]@ == "display"@);
        }
    }
    lemma_header_cols_plain(w0, o, o.spec_column_count() as int);
}

} // verus!

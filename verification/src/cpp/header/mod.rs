//! The generated C++ header: a forward declaration and a callback bundle per object, and the
//! class declarations, inside an include guard.

pub mod item_model;
pub mod object;

use crate::configuration::{Config, Object, ObjectType, Signal, Type};
use crate::cpp::codegen::{block_text, LineBlock, BlockView};
use crate::text::{dots_to_underscores, replace_dots, snake, snake_case, to_uppercase, upper_text};
use item_model::{write_header_item_model, write_header_item_model_spec};
use object::{
    functions, private_properties, public_properties, qobject_block, qsignals, register_friend_classes,
    write_changed_signals, write_friends, write_function_decls, write_private_properties,
    write_public_properties_spec, write_qobject_block,
};
use std::rc::Rc;
use vstd::prelude::*;
use vstd::string::*;

verus! {

pub open spec fn spec_header_guard(file_name: Seq<char>) -> Seq<char> {
    upper_text(dots_to_underscores(file_name))
}

/// The include guard of a header: its file name with dots made underscores, upper-cased.
pub fn header_guard(file_name: &str) -> (r: String)
    ensures
        r@ == spec_header_guard(file_name@),
{
    let replaced = replace_dots(file_name);
    to_uppercase(replaced.as_str())
}

pub open spec fn signal_arg_lines(ls: Seq<Seq<char>>, s: Signal, n: int) -> Seq<Seq<char>>
    decreases n,
{
    if n <= 0 {
        ls
    } else {
        signal_arg_lines(ls, s, n - 1).push(","@).push(s.arguments@[n - 1].argument_type.spec_name())
    }
}

pub open spec fn signal_lines(ls: Seq<Seq<char>>, obj: Object, n: int) -> Seq<Seq<char>>
    decreases n,
{
    if n <= 0 {
        ls
    } else {
        let before = signal_lines(ls, obj, n - 1);
        let (name, s) = obj.signals@[n - 1];
        let head = "void (*"@ + snake(obj.name@) + "_"@ + name@ + ")(const "@ + obj.name@ + "*"@;
        signal_arg_lines(before.push(head), s, s.arguments@.len() as int).push(");"@)
    }
}

pub open spec fn list_callback_line(obj: Object) -> Seq<char> {
    let lc = snake(obj.name@);
    "\n             void (*"@ + lc + "_new_data_ready)(const "@ + obj.name@ + "*);\n             void (*"@ + lc + "_layout_about_to_be_changed)("@ + obj.name@ + "*);\n             void (*"@ + lc + "_layout_changed)("@ + obj.name@ + "*);\n             void (*"@ + lc + "_data_changed)("@ + obj.name@ + "*, quintptr, quintptr);\n             void (*"@ + lc + "_begin_reset_model)("@ + obj.name@ + "*);\n             void (*"@ + lc + "_end_reset_model)("@ + obj.name@ + "*);\n             void (*"@ + lc + "_begin_insert_rows)("@ + obj.name@ + "*, int, int);\n             void (*"@ + lc + "_end_insert_rows)("@ + obj.name@ + "*);\n             void (*"@ + lc + "_begin_move_rows)("@ + obj.name@ + "*, int, int, int);\n             void (*"@ + lc + "_end_move_rows)("@ + obj.name@ + "*);\n             void (*"@ + lc + "_begin_remove_rows)("@ + obj.name@ + "*, int, int);\n             void (*"@ + lc + "_end_remove_rows)("@ + obj.name@ + "*);"@
}

pub open spec fn typedef_lines(ls: Seq<Seq<char>>, obj: Object, n: int) -> Seq<Seq<char>>
    decreases obj, n,
{
    if n <= 0 || n > obj.properties@.len() {
        ls.push(obj.name@ + "* "@ + snake(obj.name@) + ";"@)
    } else {
        let before = typedef_lines(ls, obj, n - 1);
        match obj.properties@[n - 1].1.property_type {
            Type::Object(c) => typedef_lines_full(before, *c),
            _ => before.push(
                "void (*"@ + snake(obj.name@) + "_"@ + snake(obj.properties@[n - 1].0@) + "_changed)("@
                    + obj.name@ + "*);"@,
            ),
        }
    }
}

pub open spec fn typedef_lines_full(ls: Seq<Seq<char>>, obj: Object) -> Seq<Seq<char>>
    decreases obj, obj.properties@.len() + 1,
{
    let l1 = typedef_lines(ls, obj, obj.properties@.len() as int);
    let l2 = if obj.object_type == ObjectType::List {
        l1.push(list_callback_line(obj))
    } else {
        l1
    };
    signal_lines(l2, obj, obj.signals@.len() as int)
}

/// Adds to the bundle block of an object the C declarations of the pointers the bundle holds:
/// the C++ object, the change callbacks of its properties (nested objects in turn), the model
/// callbacks of a list, and a callback per signal.
pub fn write_extern_typedefs(block: &mut LineBlock, obj: &Object)
    ensures
        final(block)@ == (BlockView { lines: typedef_lines_full(old(block)@.lines, *obj), ..old(block)@ }),
    decreases obj,
{
    let ghost b0 = block@;
    let lcname = snake_case(obj.name.as_str());
    block.line(obj.name.clone().concat("* ").concat(lcname.as_str()).concat(";").as_str());
    let mut i: usize = 0;
    while i < obj.properties.len()
        invariant
            i <= obj.properties@.len(),
            lcname@ == snake(obj.name@),
            block@ == (BlockView { lines: typedef_lines(b0.lines, *obj, i as int), ..b0 }),
        decreases obj.properties@.len() - i,
    {
        let prop_name = &obj.properties[i].0;
        if let Type::Object(object) = &obj.properties[i].1.property_type {
            write_extern_typedefs(block, &**object);
        } else {
            let l = String::from_str("void (*").concat(lcname.as_str()).concat("_").concat(
                snake_case(prop_name.as_str()).as_str(),
            ).concat("_changed)(").concat(obj.name.as_str()).concat("*);");
            block.line(l.as_str());
        }
        i = i + 1;
    }
    match obj.object_type {
        ObjectType::List => {
            let l = String::from_str("\n             void (*").concat(lcname.as_str()).concat("_new_data_ready)(const ").concat(obj.name.as_str()).concat("*);\n             void (*").concat(lcname.as_str()).concat("_layout_about_to_be_changed)(").concat(obj.name.as_str()).concat("*);\n             void (*").concat(lcname.as_str()).concat("_layout_changed)(").concat(obj.name.as_str()).concat("*);\n             void (*").concat(lcname.as_str()).concat("_data_changed)(").concat(obj.name.as_str()).concat("*, quintptr, quintptr);\n             void (*").concat(lcname.as_str()).concat("_begin_reset_model)(").concat(obj.name.as_str()).concat("*);\n             void (*").concat(lcname.as_str()).concat("_end_reset_model)(").concat(obj.name.as_str()).concat("*);\n             void (*").concat(lcname.as_str()).concat("_begin_insert_rows)(").concat(obj.name.as_str()).concat("*, int, int);\n             void (*").concat(lcname.as_str()).concat("_end_insert_rows)(").concat(obj.name.as_str()).concat("*);\n             void (*").concat(lcname.as_str()).concat("_begin_move_rows)(").concat(obj.name.as_str()).concat("*, int, int, int);\n             void (*").concat(lcname.as_str()).concat("_end_move_rows)(").concat(obj.name.as_str()).concat("*);\n             void (*").concat(lcname.as_str()).concat("_begin_remove_rows)(").concat(obj.name.as_str()).concat("*, int, int);\n             void (*").concat(lcname.as_str()).concat("_end_remove_rows)(").concat(obj.name.as_str()).concat("*);");
            block.line(l.as_str());
        },
        _ => {},
    }
    let ghost b2 = block@;
    let mut j: usize = 0;
    while j < obj.signals.len()
        invariant
            j <= obj.signals@.len(),
            lcname@ == snake(obj.name@),
            block@ == (BlockView { lines: signal_lines(b2.lines, *obj, j as int), ..b2 }),
        decreases obj.signals@.len() - j,
    {
        let signal_name = &obj.signals[j].0;
        let signal = &obj.signals[j].1;
        let head = String::from_str("void (*").concat(lcname.as_str()).concat("_").concat(signal_name.as_str()).concat(
            ")(const ",
        ).concat(obj.name.as_str()).concat("*");
        block.line(head.as_str());
        let ghost b3 = block@;
        let mut k: usize = 0;
        while k < signal.arguments.len()
            invariant
                k <= signal.arguments@.len(),
                block@ == (BlockView { lines: signal_arg_lines(b3.lines, *signal, k as int), ..b3 }),
            decreases signal.arguments@.len() - k,
        {
            block.line(",");
            block.line(signal.arguments[k].argument_type.c_set_type());
            k = k + 1;
        }
        block.line(");");
        j = j + 1;
    }
}

pub open spec fn header_object_content(obj: Object, conf: Config, item_model_decls: Seq<char>) -> Seq<char> {
    let w1 = write_friends(Seq::<char>::empty(), conf.objects@, obj.name@, conf.objects@.len() as int)
        + "public: class Private;\n"@;
    let w2 = write_function_decls(
        write_public_properties_spec(write_private_properties(w1, obj), obj),
        obj.functions@,
        obj.functions@.len() as int,
    );
    let w3 = if obj.object_type == ObjectType::List {
        write_header_item_model_spec(w2, obj, item_model_decls)
    } else {
        w2
    };
    write_changed_signals(w3 + "Q_SIGNALS:\n"@, obj.properties@, obj.properties@.len() as int)
}

/// Writes the class declaration of an object.
pub fn write_header_object(header_buf: &mut String, obj: &Object, conf: &Config, item_model_decls: &str)
    requires
        obj.header_names_ok(),
    ensures
        final(header_buf)@ == write_qobject_block(old(header_buf)@, *obj, header_object_content(*obj, *conf, item_model_decls@)),
{
    let mut content = String::new();
    register_friend_classes(&mut content, conf, obj);
    content.append("public: class Private;\n");
    private_properties(&mut content, obj);
    public_properties(&mut content, obj);
    functions(&mut content, obj);
    match obj.object_type {
        ObjectType::List => {
            write_header_item_model(&mut content, obj, item_model_decls);
        },
        _ => {},
    }
    qsignals(&mut content, obj);
    qobject_block(header_buf, obj, conf, content.as_str());
}

/// Forward-declares a class.
pub fn write_type_def(header_buf: &mut String, name: &str)
    ensures
        final(header_buf)@ == old(header_buf)@ + "class "@ + name@ + ";\n"@,
{
    header_buf.append("class ");
    header_buf.append(name);
    header_buf.append(";\n");
}

pub open spec fn write_guard_scope(w: Seq<char>, guard: Seq<char>, content: Seq<char>) -> Seq<char> {
    w + "\n/* generated by riqtshaw */\n#ifndef "@ + guard + "\n#define "@ + guard + "\n\n#include <QtCore/QObject>\n#include <QtCore/QAbstractItemModel>\n\n"@ + content + "#endif // "@ + guard + "\n"@
}

/// Writes the include guard around the given header text.
pub fn guard_scope(header_buf: &mut String, guard: &str, conf: &Config, content: &str)
    ensures
        final(header_buf)@ == write_guard_scope(old(header_buf)@, guard@, content@),
{
    header_buf.append("\n/* generated by riqtshaw */\n#ifndef ");
    header_buf.append(guard);
    header_buf.append("\n#define ");
    header_buf.append(guard);
    header_buf.append("\n\n#include <QtCore/QObject>\n#include <QtCore/QAbstractItemModel>\n\n");
    header_buf.append(content);
    header_buf.append("#endif // ");
    header_buf.append(guard);
    header_buf.append("\n");
}

pub open spec fn write_type_defs(w: Seq<char>, objs: Seq<(String, Rc<Object>)>, n: int) -> Seq<char>
    decreases n,
{
    if n <= 0 {
        w
    } else {
        write_type_defs(w, objs, n - 1) + "class "@ + objs[n - 1].0@ + ";\n"@
    }
}

pub open spec fn using_lines(objs: Seq<(String, Rc<Object>)>, n: int) -> Seq<Seq<char>>
    decreases n,
{
    if n <= 0 {
        Seq::empty()
    } else {
        let name = objs[n - 1].1.name@;
        using_lines(objs, n - 1).push("using "@ + name + "PtrBundle = struct "@ + name + "PtrBundle;"@)
    }
}

pub open spec fn bundle_block(obj: Object) -> BlockView {
    BlockView {
        before: Some("struct "@ + obj.name@ + "PtrBundle"@),
        after: Some(";"@),
        lines: typedef_lines_full(Seq::empty(), obj),
    }
}

pub open spec fn bundle_lines(ls: Seq<Seq<char>>, objs: Seq<(String, Rc<Object>)>, n: int) -> Seq<Seq<char>>
    decreases n,
{
    if n <= 0 {
        ls
    } else {
        bundle_lines(ls, objs, n - 1).push(block_text(bundle_block(*objs[n - 1].1)))
    }
}

pub open spec fn extern_block(objs: Seq<(String, Rc<Object>)>) -> BlockView {
    BlockView {
        before: Some("extern \"C\""@),
        after: None,
        lines: bundle_lines(using_lines(objs, objs.len() as int), objs, objs.len() as int),
    }
}

pub open spec fn write_header_objects(w: Seq<char>, conf: Config, item_model_decls: Seq<char>, n: int) -> Seq<char>
    decreases n,
{
    if n <= 0 {
        w
    } else {
        let obj = *conf.objects@[n - 1].1;
        write_qobject_block(
            write_header_objects(w, conf, item_model_decls, n - 1),
            obj,
            header_object_content(obj, conf, item_model_decls),
        )
    }
}

pub open spec fn header_body(conf: Config, item_model_decls: Seq<char>) -> Seq<char> {
    let n = conf.objects@.len() as int;
    let w1 = write_type_defs(Seq::<char>::empty(), conf.objects@, n) + block_text(extern_block(conf.objects@)) + "\n"@;
    write_header_objects(w1, conf, item_model_decls, n)
}

/// Every object's names are non-empty and start with an ASCII character.
pub open spec fn objects_ok(conf: Config) -> bool {
    forall|i: int| 0 <= i < conf.objects@.len() ==> (#[trigger] conf.objects@[i]).1.header_names_ok()
}

/// Writes the header's declarations: the forward declarations, the `extern "C"` block with
/// the callback bundles, and the class declarations.
pub fn write_header_body(header_buf: &mut String, conf: &Config, item_model_decls: &str)
    requires
        objects_ok(*conf),
    ensures
        final(header_buf)@ == old(header_buf)@ + header_body(*conf, item_model_decls@),
{
    let ghost w0 = header_buf@;
    let mut body = String::new();
    let n = conf.objects.len();
    let mut i: usize = 0;
    while i < n
        invariant
            n == conf.objects@.len(),
            i <= n,
            body@ == write_type_defs(Seq::<char>::empty(), conf.objects@, i as int),
        decreases n - i,
    {
        write_type_def(&mut body, conf.objects[i].0.as_str());
        i = i + 1;
    }
    let mut extern_blk = LineBlock::new();
    extern_blk.before("extern \"C\"");
    let mut def_blocks: Vec<LineBlock> = Vec::new();
    let mut j: usize = 0;
    while j < n
        invariant
            n == conf.objects@.len(),
            j <= n,
            extern_blk@ == (BlockView { before: Some("extern \"C\""@), after: None, lines: using_lines(conf.objects@, j as int) }),
            def_blocks@.len() == j,
            forall|k: int| 0 <= k < j ==> (#[trigger] def_blocks@[k])@ == bundle_block(*conf.objects@[k].1),
        decreases n - j,
    {
        let object: &Object = &conf.objects[j].1;
        let u = String::from_str("using ").concat(object.name.as_str()).concat("PtrBundle = struct ").concat(
            object.name.as_str(),
        ).concat("PtrBundle;");
        extern_blk.line(u.as_str());
        let mut typedef_block = LineBlock::new();
        let b = String::from_str("struct ").concat(object.name.as_str()).concat("PtrBundle");
        typedef_block.before(b.as_str());
        write_extern_typedefs(&mut typedef_block, object);
        typedef_block.after(";");
        def_blocks.push(typedef_block);
        j = j + 1;
    }
    let ghost lines0 = extern_blk@.lines;
    let mut k: usize = 0;
    while def_blocks.len() > 0
        invariant
            n == conf.objects@.len(),
            k + def_blocks@.len() == n,
            forall|m: int| 0 <= m < def_blocks@.len() ==> (#[trigger] def_blocks@[m])@ == bundle_block(*conf.objects@[k + m].1),
            extern_blk@ == (BlockView { before: Some("extern \"C\""@), after: None, lines: bundle_lines(lines0, conf.objects@, k as int) }),
        decreases def_blocks@.len(),
    {
        let def_block = def_blocks.remove(0);
        extern_blk.push_block(def_block);
        k = k + 1;
    }
    body.append(extern_blk.to_text().as_str());
    body.append("\n");
    let ghost w1 = body@;
    let mut m: usize = 0;
    while m < n
        invariant
            n == conf.objects@.len(),
            m <= n,
            objects_ok(*conf),
            body@ == write_header_objects(w1, *conf, item_model_decls@, m as int),
        decreases n - m,
    {
        write_header_object(&mut body, &conf.objects[m].1, conf, item_model_decls);
        m = m + 1;
    }
    header_buf.append(body.as_str());
}

pub open spec fn spec_header_text(conf: Config, guard: Seq<char>, item_model_decls: Seq<char>) -> Seq<char> {
    write_guard_scope(Seq::<char>::empty(), guard, header_body(conf, item_model_decls))
}

/// The text of the generated C++ header, guarded by `guard`; `item_model_decls` are the
/// declarations every list model's class shares.
pub fn header_text(conf: &Config, guard: &str, item_model_decls: &str) -> (r: String)
    requires
        conf.tables_ok(),
        objects_ok(*conf),
    ensures
        r@ == spec_header_text(*conf, guard@, item_model_decls@),
{
    let mut content = String::new();
    write_header_body(&mut content, conf, item_model_decls);
    let mut header_buf = String::new();
    guard_scope(&mut header_buf, guard, conf, content.as_str());
    header_buf
}

} // verus!

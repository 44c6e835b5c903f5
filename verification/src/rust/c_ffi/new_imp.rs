//! The C constructor `<object>_new`: it unpacks the pointer bundle and builds the Rust object
//! with its emitter, its model and its nested objects.

use crate::configuration::{nested_object, Object, ObjectType, Property, Type};
use crate::rust::cg::{
    block_after, block_line, block_new, cg_block, cg_fn, fn_arg, fn_attr, fn_extern_abi, fn_line, fn_new, fn_push_block,
    fn_ret, fn_vis, same_head, BlockModel, FnModel,
};
use crate::rust::model::{model_name, simple_item_props, spec_model_name};
use crate::rust::util::{emitter, spec_emitter};
use crate::text::{snake, snake_case};
use super::{ffi_supported, lemma_ffi_supported_simple_deep, ptr_bundle_name, simple_item_props_deep, spec_ptr_bundle_name};
use vstd::prelude::*;
use vstd::string::*;

verus! {

/// The names under which a list's model callbacks are unpacked.
pub open spec fn list_field_lines(b: BlockModel, lc: Seq<char>) -> BlockModel {
    b.line(lc + "_new_data_ready,"@).line(lc + "_layout_about_to_be_changed,"@).line(lc + "_layout_changed,"@).line(
        lc + "_data_changed,"@,
    ).line(lc + "_begin_reset_model,"@).line(lc + "_end_reset_model,"@).line(lc + "_begin_insert_rows,"@).line(
        lc + "_end_insert_rows,"@,
    ).line(lc + "_begin_move_rows,"@).line(lc + "_end_move_rows,"@).line(lc + "_begin_remove_rows,"@).line(
        lc + "_end_remove_rows,"@,
    )
}

pub open spec fn fields_upto(b: BlockModel, o: Object, name: Seq<char>, n: int) -> BlockModel
    decreases o, n,
{
    if n <= 0 || n > o.properties@.len() {
        b.line(snake(name)).line(","@)
    } else {
        let b1 = fields_upto(b, o, name, n - 1);
        let prop_name = o.properties@[n - 1].0@;
        match o.properties@[n - 1].1.property_type {
            Type::Object(c) => fields_model(b1, *c, prop_name),
            _ => b1.line(snake(name) + "_"@ + snake(prop_name) + "_changed,"@),
        }
    }
}

/// The names under which an object's entries of the pointer bundle are unpacked, in the order
/// of the bundle's fields (signals excepted).
pub open spec fn fields_model(b: BlockModel, o: Object, name: Seq<char>) -> BlockModel
    decreases o, o.properties@.len() + 1,
{
    let b1 = fields_upto(b, o, name, o.properties@.len() as int);
    if o.object_type == ObjectType::List {
        list_field_lines(b1, snake(name))
    } else {
        b1
    }
}

pub open spec fn changed_lines(b: BlockModel, names: Seq<Seq<char>>, lc: Seq<char>, n: int) -> BlockModel
    decreases n,
{
    if n <= 0 {
        b
    } else {
        changed_lines(b, names, lc, n - 1).line(
            snake(names[n - 1]) + "_changed: "@ + lc + "_"@ + snake(names[n - 1]) + "_changed,"@,
        )
    }
}

/// The statement that builds the object's emitter from the unpacked callbacks.
pub open spec fn emit_block_model(o: Object, name: Seq<char>) -> BlockModel {
    let lc = snake(name);
    let b = BlockModel::new("let "@ + lc + "_emit = "@ + spec_emitter(o.name@)).line(
        "qobject: Arc::new(AtomicPtr::new("@ + lc + ")),"@,
    );
    let names = o.spec_non_object_property_names();
    let b1 = changed_lines(b, names, lc, names.len() as int);
    let b2 = if o.object_type != ObjectType::Object {
        b1.line("new_data_ready: "@ + lc + "_new_data_ready,"@)
    } else {
        b1
    };
    b2.after(";"@)
}

pub open spec fn model_fields_text(n: Seq<char>) -> Seq<char> {
    "\n        qobject: "@ + n + ",\n        layout_about_to_be_changed: "@ + n
        + "_layout_about_to_be_changed,\n        layout_changed: "@ + n + "_layout_changed,\n        data_changed: "@
        + n + "_data_changed,\n        begin_reset_model: "@ + n + "_begin_reset_model,\n        end_reset_model: "@
        + n + "_end_reset_model,\n        begin_insert_rows: "@ + n + "_begin_insert_rows,\n        end_insert_rows: "@
        + n + "_end_insert_rows,\n        begin_move_rows: "@ + n + "_begin_move_rows,\n        end_move_rows: "@ + n
        + "_end_move_rows,\n        begin_remove_rows: "@ + n + "_begin_remove_rows,\n        end_remove_rows: "@ + n
        + "_end_remove_rows,\n        "@
}

/// The statement that builds a list's model from the unpacked callbacks; an object has none.
pub open spec fn model_block_model(o: Object, name: Seq<char>) -> Option<BlockModel> {
    match spec_model_name(o) {
        Some(m) => Some(BlockModel::new("let model = "@ + m).line(model_fields_text(snake(name))).after(";"@)),
        None => None,
    }
}

pub open spec fn d_lines(f: FnModel, entries: Seq<(String, Property)>, n: int) -> FnModel
    decreases n,
{
    if n <= 0 {
        f
    } else {
        d_lines(f, entries, n - 1).line(", d_"@ + snake(entries[n - 1].0@))
    }
}

/// The statements after the nested objects: the emitter, the model, and the object itself.
pub open spec fn ctor_tail(f: FnModel, o: Object, name: Seq<char>) -> FnModel {
    let lc = snake(name);
    let f1 = f.block(emit_block_model(o, name));
    let f2 = match model_block_model(o, name) {
        Some(b) => f1.block(b).line("let d_"@ + lc + " = "@ + o.name@ + "::new("@ + lc + "_emit, model"@),
        None => f1.line("let d_"@ + lc + " = "@ + o.name@ + "::new("@ + lc + "_emit"@),
    };
    let entries = o.spec_object_properties();
    d_lines(f2, entries, entries.len() as int).line(");"@)
}

pub open spec fn new_ctor_upto(f: FnModel, o: Object, name: Seq<char>, n: int) -> FnModel
    decreases o, n,
{
    if n <= 0 || n > o.properties@.len() {
        f
    } else {
        let f1 = new_ctor_upto(f, o, name, n - 1);
        match o.properties@[n - 1].1.property_type {
            Type::Object(c) => new_ctor_model(f1, *c, o.properties@[n - 1].0@),
            _ => f1,
        }
    }
}

/// The statements that build an object: its nested objects first, then itself.
pub open spec fn new_ctor_model(f: FnModel, o: Object, name: Seq<char>) -> FnModel
    decreases o, o.properties@.len() + 1,
{
    ctor_tail(new_ctor_upto(f, o, name, o.properties@.len() as int), o, name)
}

pub open spec fn new_model(o: Object) -> FnModel {
    let name = snake(o.name@);
    let head = FnModel::new(name + "_new"@).abi("C"@).vis("pub unsafe"@).attr("no_mangle"@).ret("*mut "@ + o.name@).arg(
        "ptr_bundle"@,
        "*mut "@ + spec_ptr_bundle_name(o),
    ).line("let ptr_bundle = *ptr_bundle;"@).line(""@);
    let unpack = fields_model(BlockModel::new("let "@ + spec_ptr_bundle_name(o)), o, name).after(" = ptr_bundle;"@);
    new_ctor_model(head.block(unpack), o, name).line("Box::into_raw(Box::new(d_"@ + name + "))"@)
}

/// The C constructor of an object.
pub fn new(object: &Object) -> (r: codegen::Function)
    requires
        ffi_supported(*object),
    ensures
        cg_fn(r) == new_model(*object),
{
    let name = snake_case(object.name.as_str());
    let mut func = fn_new(String::from_str(name.as_str()).concat("_new").as_str());
    fn_extern_abi(&mut func, "C");
    fn_vis(&mut func, "pub unsafe");
    fn_attr(&mut func, "no_mangle");
    fn_ret(&mut func, String::from_str("*mut ").concat(object.name.as_str()).as_str());
    fn_arg(&mut func, "ptr_bundle", String::from_str("*mut ").concat(ptr_bundle_name(object).as_str()).as_str());
    fn_line(&mut func, "let ptr_bundle = *ptr_bundle;");
    fn_line(&mut func, "");
    let mut block = block_new(String::from_str("let ").concat(ptr_bundle_name(object).as_str()).as_str());
    fields(object, name.as_str(), &mut block);
    block_after(&mut block, " = ptr_bundle;");
    fn_push_block(&mut func, block);
    proof {
        lemma_ffi_supported_simple_deep(*object);
    }
    new_ctor(object, name.as_str(), &mut func);
    fn_line(&mut func, String::from_str("Box::into_raw(Box::new(d_").concat(name.as_str()).concat("))").as_str());
    func
}

/// Adds the names under which the entries of `object` (known as `name`) are unpacked.
pub fn fields(object: &Object, name: &str, block: &mut codegen::Block)
    requires
        ffi_supported(*object),
    ensures
        cg_block(*final(block)) == fields_model(cg_block(*old(block)), *object, name@),
    decreases object,
{
    let ghost b0 = cg_block(*block);
    let lc_name = snake_case(name);
    block_line(block, lc_name.as_str());
    block_line(block, ",");
    let mut i: usize = 0;
    while i < object.properties.len()
        invariant
            i <= object.properties@.len(),
            ffi_supported(*object),
            lc_name@ == snake(name@),
            cg_block(*block) == fields_upto(b0, *object, name@, i as int),
        decreases object.properties@.len() - i,
    {
        let prop_name = object.properties[i].0.as_str();
        match &object.properties[i].1.property_type {
            Type::Object(inner) => {
                fields(&**inner, prop_name, block);
            },
            _ => {
                block_line(
                    block,
                    String::from_str(lc_name.as_str()).concat("_").concat(snake_case(prop_name).as_str()).concat(
                        "_changed,",
                    ).as_str(),
                );
            },
        }
        i = i + 1;
    }
    if object.object_type == ObjectType::List {
        let lc = lc_name.as_str();
        block_line(block, String::from_str(lc).concat("_new_data_ready,").as_str());
        block_line(block, String::from_str(lc).concat("_layout_about_to_be_changed,").as_str());
        block_line(block, String::from_str(lc).concat("_layout_changed,").as_str());
        block_line(block, String::from_str(lc).concat("_data_changed,").as_str());
        block_line(block, String::from_str(lc).concat("_begin_reset_model,").as_str());
        block_line(block, String::from_str(lc).concat("_end_reset_model,").as_str());
        block_line(block, String::from_str(lc).concat("_begin_insert_rows,").as_str());
        block_line(block, String::from_str(lc).concat("_end_insert_rows,").as_str());
        block_line(block, String::from_str(lc).concat("_begin_move_rows,").as_str());
        block_line(block, String::from_str(lc).concat("_end_move_rows,").as_str());
        block_line(block, String::from_str(lc).concat("_begin_remove_rows,").as_str());
        block_line(block, String::from_str(lc).concat("_end_remove_rows,").as_str());
    }
}

/// Adds the statements that build `object` (known as `name`) and its nested objects.
pub fn new_ctor(object: &Object, name: &str, func: &mut codegen::Function)
    requires
        simple_item_props_deep(*object),
    ensures
        cg_fn(*final(func)) == new_ctor_model(cg_fn(*old(func)), *object, name@),
    decreases object,
{
    let ghost f0 = cg_fn(*func);
    let mut i: usize = 0;
    while i < object.properties.len()
        invariant
            i <= object.properties@.len(),
            simple_item_props_deep(*object),
            cg_fn(*func) == new_ctor_upto(f0, *object, name@, i as int),
        decreases object.properties@.len() - i,
    {
        if let Type::Object(inner) = &object.properties[i].1.property_type {
            new_ctor(&**inner, object.properties[i].0.as_str(), func);
        }
        i = i + 1;
    }
    let ghost f1 = cg_fn(*func);
    let lc = snake_case(name);
    let mut emit_ctor = block_new(
        String::from_str("let ").concat(lc.as_str()).concat("_emit = ").concat(emitter(object.name.as_str()).as_str()).as_str(),
    );
    block_line(
        &mut emit_ctor,
        String::from_str("qobject: Arc::new(AtomicPtr::new(").concat(lc.as_str()).concat(")),").as_str(),
    );
    let names = object.non_object_property_names();
    let ghost names_view = object.spec_non_object_property_names();
    let ghost e0 = cg_block(emit_ctor);
    let mut j: usize = 0;
    while j < names.len()
        invariant
            j <= names@.len(),
            names@.map_values(|s: &String| s@) == names_view,
            lc@ == snake(name@),
            cg_block(emit_ctor) == changed_lines(e0, names_view, snake(name@), j as int),
        decreases names@.len() - j,
    {
        let prop = snake_case(names[j].as_str());
        proof {
            assert(names@.map_values(|s: &String| s@)[j as int] == names@[j as int]@);
        }
        block_line(
            &mut emit_ctor,
            String::from_str(prop.as_str()).concat("_changed: ").concat(lc.as_str()).concat("_").concat(prop.as_str()).concat(
                "_changed,",
            ).as_str(),
        );
        j = j + 1;
    }
    if object.object_type != ObjectType::Object {
        block_line(&mut emit_ctor, String::from_str("new_data_ready: ").concat(lc.as_str()).concat("_new_data_ready,").as_str());
    }
    block_after(&mut emit_ctor, ";");
    fn_push_block(func, emit_ctor);
    match model(object, name) {
        Some(block) => {
            fn_push_block(func, block);
            fn_line(
                func,
                String::from_str("let d_").concat(lc.as_str()).concat(" = ").concat(object.name.as_str()).concat("::new(").concat(
                    lc.as_str(),
                ).concat("_emit, model").as_str(),
            );
        },
        None => {
            fn_line(
                func,
                String::from_str("let d_").concat(lc.as_str()).concat(" = ").concat(object.name.as_str()).concat("::new(").concat(
                    lc.as_str(),
                ).concat("_emit").as_str(),
            );
        },
    }
    let entries = object.object_properties();
    let ghost entries_view = object.spec_object_properties();
    let ghost f2 = cg_fn(*func);
    let mut k: usize = 0;
    while k < entries.len()
        invariant
            k <= entries@.len(),
            entries@.map_values(|e: (&String, &Property)| (*e.0, *e.1)) == entries_view,
            cg_fn(*func) == d_lines(f2, entries_view, k as int),
        decreases entries@.len() - k,
    {
        proof {
            assert(entries@.map_values(|e: (&String, &Property)| (*e.0, *e.1))[k as int].0
                == *entries@[k as int].0);
        }
        fn_line(func, String::from_str(", d_").concat(snake_case(entries[k].0.as_str()).as_str()).as_str());
        k = k + 1;
    }
    fn_line(func, ");");
}

/// The statement that builds a list's model from the unpacked callbacks; `None` for an object.
pub fn model(object: &Object, name: &str) -> (r: Option<codegen::Block>)
    requires
        simple_item_props(*object),
    ensures
        match r {
            Some(b) => model_block_model(*object, name@) == Some(cg_block(b)),
            None => model_block_model(*object, name@) is None,
        },
{
    let model_type = match model_name(object) {
        Some(m) => m,
        None => {
            return None;
        },
    };
    let mut block = block_new(String::from_str("let model = ").concat(model_type.as_str()).as_str());
    let n = snake_case(name);
    let ns = n.as_str();
    let text = String::from_str("\n        qobject: ").concat(ns).concat(",\n        layout_about_to_be_changed: ").concat(
        ns,
    ).concat("_layout_about_to_be_changed,\n        layout_changed: ").concat(ns).concat(
        "_layout_changed,\n        data_changed: ",
    ).concat(ns).concat("_data_changed,\n        begin_reset_model: ").concat(ns).concat(
        "_begin_reset_model,\n        end_reset_model: ",
    ).concat(ns).concat("_end_reset_model,\n        begin_insert_rows: ").concat(ns).concat(
        "_begin_insert_rows,\n        end_insert_rows: ",
    ).concat(ns).concat("_end_insert_rows,\n        begin_move_rows: ").concat(ns).concat(
        "_begin_move_rows,\n        end_move_rows: ",
    ).concat(ns).concat("_end_move_rows,\n        begin_remove_rows: ").concat(ns).concat(
        "_begin_remove_rows,\n        end_remove_rows: ",
    ).concat(ns).concat("_end_remove_rows,\n        ");
    block_line(&mut block, text.as_str());
    block_after(&mut block, ";");
    Some(block)
}

pub proof fn lemma_d_lines_keep_head(f: FnModel, entries: Seq<(String, Property)>, n: int)
    ensures
        same_head(f, d_lines(f, entries, n)),
    decreases n,
{
    if n > 0 {
        lemma_d_lines_keep_head(f, entries, n - 1);
    }
}

pub proof fn lemma_ctor_upto_keeps_head(f: FnModel, o: Object, name: Seq<char>, n: int)
    ensures
        same_head(f, new_ctor_upto(f, o, name, n)),
    decreases o, n,
{
    if n > 0 && n <= o.properties@.len() {
        lemma_ctor_upto_keeps_head(f, o, name, n - 1);
        if o.properties@[n - 1].1.property_type is Object {
            lemma_ctor_keeps_head(
                new_ctor_upto(f, o, name, n - 1),
                nested_object(o.properties@[n - 1].1.property_type),
                o.properties@[n - 1].0@,
            );
        }
    }
}

/// The statements that build an object leave the function's name, ABI, attributes and
/// visibility as they were.
pub proof fn lemma_ctor_keeps_head(f: FnModel, o: Object, name: Seq<char>)
    ensures
        same_head(f, new_ctor_model(f, o, name)),
    decreases o, o.properties@.len() + 1,
{
    lemma_ctor_upto_keeps_head(f, o, name, o.properties@.len() as int);
    let f0 = new_ctor_upto(f, o, name, o.properties@.len() as int);
    let lc = snake(name);
    let f1 = f0.block(emit_block_model(o, name));
    let f2 = match model_block_model(o, name) {
        Some(b) => f1.block(b).line("let d_"@ + lc + " = "@ + o.name@ + "::new("@ + lc + "_emit, model"@),
        None => f1.line("let d_"@ + lc + " = "@ + o.name@ + "::new("@ + lc + "_emit"@),
    };
    let entries = o.spec_object_properties();
    lemma_d_lines_keep_head(f2, entries, entries.len() as int);
}

} // verus!

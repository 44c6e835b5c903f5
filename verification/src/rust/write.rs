//! The interface module of one object, rendered through `codegen`.

use crate::configuration::{FunctionDef, Object, ObjectType, Type};
use crate::rust::c_ffi::{self, ffi_supported, fn_items, no_tree};
use crate::rust::c_ffi::properties::{properties_items, property_fns};
use crate::rust::cg::{
    cg_scope, rust_source, scope_new, scope_push_struct, scope_to_string, struct_new, struct_vis, BlockModel, FnModel, ItemModel,
    StructModel,
};
use crate::rust::emitter::{emitter_def_model, emitter_impl_model, push_emitter};
use crate::rust::model::{push_model, push_model_items};
use crate::rust::trait_::{push_trait, trait_model};
use crate::rust::util::{qobject, spec_qobject};
use crate::text::snake;
use vstd::prelude::*;
use vstd::string::*;

verus! {

/// An object that the C constructor handles has no tree anywhere in it.
pub proof fn lemma_ffi_supported_no_tree(o: Object)
    requires
        ffi_supported(o),
    ensures
        no_tree(o),
    decreases o,
{
    assert forall|i: int| 0 <= i < o.properties@.len() implies match (#[trigger] o.properties@[i]).1.property_type {
        Type::Object(c) => no_tree(*c),
        _ => true,
    } by {
        if let Type::Object(c) = o.properties@[i].1.property_type {
            lemma_ffi_supported_no_tree(*c);
        }
    }
}

/// The items of an object's interface module, in the order they are emitted: the `QObject`
/// type, the emitter, the model, the trait, and the C functions (constructor, destructor,
/// functions, properties, model, item properties) with the pointer bundle last.
pub open spec fn interface_items(o: Object) -> Seq<ItemModel> {
    let s0 = seq![ItemModel::Struct(StructModel::new(spec_qobject(o.name@)).vis("pub"@))];
    let s1 = s0.push(ItemModel::Struct(emitter_def_model(o))).push(ItemModel::Impl(emitter_impl_model(o)));
    let s2 = push_model_items(s1, o).push(ItemModel::Trait(trait_model(o)));
    let s3 = s2.push(ItemModel::Function(c_ffi::new_imp::new_model(o))).push(ItemModel::Function(c_ffi::clear_model(o)));
    let s4 = fn_items(s3, c_ffi::functions_fns(o, o.functions@.len() as int));
    let s5 = properties_items(s4, o, o.properties@.len() as int);
    let s6 = fn_items(fn_items(s5, c_ffi::models::model_fns(o)), c_ffi::item_props::push_item_props_fns(o));
    s6.push(ItemModel::Struct(c_ffi::ptr_bundle::ptr_bundle_model(o)))
}

/// A function exported to C: `pub unsafe extern "C"`, with the one attribute `#[no_mangle]`.
pub open spec fn c_exported(f: FnModel) -> bool {
    &&& f.abi == Some("C"@)
    &&& f.attrs == seq!["no_mangle"@]
    &&& f.vis == Some("pub unsafe"@)
}

/// Every free function among the items is exported to C.
pub open spec fn exports(items: Seq<ItemModel>) -> bool {
    forall|i: int|
        0 <= i < items.len() ==> match #[trigger] items[i] {
            ItemModel::Function(f) => c_exported(f),
            _ => true,
        }
}

pub open spec fn all_exported(fns: Seq<FnModel>) -> bool {
    forall|j: int| 0 <= j < fns.len() ==> c_exported(#[trigger] fns[j])
}

proof fn lemma_fn_items_exports(items: Seq<ItemModel>, fns: Seq<FnModel>)
    requires
        exports(items),
        all_exported(fns),
    ensures
        exports(fn_items(items, fns)),
{
    let all = fn_items(items, fns);
    assert forall|i: int| 0 <= i < all.len() implies match #[trigger] all[i] {
        ItemModel::Function(f) => c_exported(f),
        _ => true,
    } by {
        if i >= items.len() {
            assert(all[i] == ItemModel::Function(fns[i - items.len()]));
        } else {
            assert(all[i] == items[i]);
        }
    }
}

proof fn lemma_function_exported(name: Seq<char>, f: FunctionDef, o: Object)
    ensures
        c_exported(c_ffi::funcs::function_model(name, f, o)),
{
    let head = FnModel::new(snake(o.name@) + "_"@ + snake(name)).attr("no_mangle"@).vis("pub unsafe"@).abi("C"@);
    let r = c_ffi::funcs::receiver_model(head, o, f);
    c_ffi::funcs::lemma_args_keep_head(r, f.arguments@, f.arguments@.len() as int);
    let g = c_ffi::funcs::args_model(r, f.arguments@, f.arguments@.len() as int);
    let ret = f.return_type.spec_name();
    c_ffi::funcs::lemma_arg_names_keep_head(
        g.arg("data"@, "*mut "@ + ret).arg("set"@, "fn(*mut "@ + ret + ", str_: *const c_char, len: c_int)"@).line(
            "let ret = obj."@ + snake(name) + "("@,
        ),
        f.arguments@,
        f.arguments@.len() as int,
    );
    c_ffi::funcs::lemma_arg_names_keep_head(
        g.ret(f.return_type.spec_rust_type()).line("obj."@ + snake(name) + "("@),
        f.arguments@,
        f.arguments@.len() as int,
    );
}

proof fn lemma_functions_exported(o: Object, n: int)
    ensures
        all_exported(c_ffi::functions_fns(o, n)),
    decreases n,
{
    if n > 0 {
        lemma_functions_exported(o, n - 1);
        lemma_function_exported(o.functions@[n - 1].0@, o.functions@[n - 1].1, o);
    }
}

proof fn lemma_properties_exports(items: Seq<ItemModel>, o: Object, n: int)
    requires
        exports(items),
    ensures
        exports(properties_items(items, o, n)),
    decreases n,
{
    if n > 0 {
        lemma_properties_exports(items, o, n - 1);
        let fs = property_fns(o, o.properties@[n - 1].0@, o.properties@[n - 1].1);
        assert(all_exported(fs));
        lemma_fn_items_exports(properties_items(items, o, n - 1), fs);
    }
}

proof fn lemma_item_props_exported(o: Object, n: int)
    ensures
        all_exported(c_ffi::item_props::item_props_fns(o, n)),
    decreases n,
{
    if n > 0 {
        lemma_item_props_exported(o, n - 1);
        let before = c_ffi::item_props::item_props_fns(o, n - 1);
        let fs = c_ffi::item_props::item_prop_fns(o, o.item_properties@[n - 1].0@, o.item_properties@[n - 1].1);
        assert(all_exported(fs));
        let all = before + fs;
        assert forall|j: int| 0 <= j < all.len() implies c_exported(#[trigger] all[j]) by {
            if j >= before.len() {
                assert(all[j] == fs[j - before.len()]);
            } else {
                assert(all[j] == before[j]);
            }
        }
    }
}

/// Every free function of an object's interface module is exported to C as
/// `#[no_mangle] pub unsafe extern "C"`, so that the C++ side can link against it by name.
pub proof fn law_free_functions_are_c_exports(o: Object)
    ensures
        exports(interface_items(o)),
{
    let s0 = seq![ItemModel::Struct(StructModel::new(spec_qobject(o.name@)).vis("pub"@))];
    let s1 = s0.push(ItemModel::Struct(emitter_def_model(o))).push(ItemModel::Impl(emitter_impl_model(o)));
    let s2 = push_model_items(s1, o).push(ItemModel::Trait(trait_model(o)));
    assert(exports(s2)) by {
        let s1m = push_model_items(s1, o);
        assert forall|i: int| 0 <= i < s2.len() implies match #[trigger] s2[i] {
            ItemModel::Function(f) => c_exported(f),
            _ => true,
        } by {
            if i < s1m.len() {
                assert(s2[i] == s1m[i]);
                if o.object_type != ObjectType::Object && i >= s1.len() {
                    assert(i == s1.len() || i == s1.len() + 1);
                } else if i < s1.len() {
                    assert(s1m[i] == s1[i]);
                }
            }
        }
    }
    let name = snake(o.name@);
    let head = FnModel::new(name + "_new"@).abi("C"@).vis("pub unsafe"@).attr("no_mangle"@).ret("*mut "@ + o.name@).arg(
        "ptr_bundle"@,
        "*mut "@ + c_ffi::spec_ptr_bundle_name(o),
    ).line("let ptr_bundle = *ptr_bundle;"@).line(""@);
    let unpack = c_ffi::new_imp::fields_model(BlockModel::new("let "@ + c_ffi::spec_ptr_bundle_name(o)), o, name).after(
        " = ptr_bundle;"@,
    );
    c_ffi::new_imp::lemma_ctor_keeps_head(head.block(unpack), o, name);
    assert(c_exported(c_ffi::new_imp::new_model(o)));
    let s3 = s2.push(ItemModel::Function(c_ffi::new_imp::new_model(o))).push(ItemModel::Function(c_ffi::clear_model(o)));
    assert(exports(s3)) by {
        assert forall|i: int| 0 <= i < s3.len() implies match #[trigger] s3[i] {
            ItemModel::Function(f) => c_exported(f),
            _ => true,
        } by {
            if i < s2.len() {
                assert(s3[i] == s2[i]);
            }
        }
    }
    lemma_functions_exported(o, o.functions@.len() as int);
    lemma_fn_items_exports(s3, c_ffi::functions_fns(o, o.functions@.len() as int));
    let s4 = fn_items(s3, c_ffi::functions_fns(o, o.functions@.len() as int));
    lemma_properties_exports(s4, o, o.properties@.len() as int);
    let s5 = properties_items(s4, o, o.properties@.len() as int);
    assert(all_exported(c_ffi::models::model_fns(o)));
    lemma_fn_items_exports(s5, c_ffi::models::model_fns(o));
    let s5m = fn_items(s5, c_ffi::models::model_fns(o));
    lemma_item_props_exported(o, o.item_properties@.len() as int);
    assert(all_exported(c_ffi::item_props::push_item_props_fns(o)));
    lemma_fn_items_exports(s5m, c_ffi::item_props::push_item_props_fns(o));
    let s6 = fn_items(s5m, c_ffi::item_props::push_item_props_fns(o));
    let s7 = s6.push(ItemModel::Struct(c_ffi::ptr_bundle::ptr_bundle_model(o)));
    assert(exports(s7)) by {
        assert forall|i: int| 0 <= i < s7.len() implies match #[trigger] s7[i] {
            ItemModel::Function(f) => c_exported(f),
            _ => true,
        } by {
            if i < s6.len() {
                assert(s7[i] == s6[i]);
            }
        }
    }
    assert(s7 == interface_items(o));
}

/// Writes the Rust interface module of an object: the source `codegen` renders for
/// `interface_items`, and a line break.
pub fn write_rust_interface_object(r: &mut String, object: &Object)
    requires
        object.tables_ok(),
        ffi_supported(*object),
    ensures
        final(r)@ == old(r)@ + rust_source(interface_items(*object)) + "\n"@,
{
    proof {
        lemma_ffi_supported_no_tree(*object);
    }
    let mut scope = scope_new();
    let mut qobj = struct_new(qobject(object.name.as_str()).as_str());
    struct_vis(&mut qobj, "pub");
    scope_push_struct(&mut scope, qobj);
    push_emitter(&mut scope, object);
    push_model(&mut scope, object);
    push_trait(&mut scope, object);
    c_ffi::push_new(&mut scope, object);
    c_ffi::push_clear(&mut scope, object);
    c_ffi::push_functions(&mut scope, object);
    c_ffi::properties::push_properties(&mut scope, object);
    c_ffi::models::push_models(&mut scope, object);
    c_ffi::item_props::push_item_props(&mut scope, object);
    c_ffi::push_ptr_bundle(&mut scope, object);
    proof {
        assert(cg_scope(scope) =~= interface_items(*object));
        crate::rust::render::lemma_interface_renderable(*object);
    }
    let text = scope_to_string(&scope);
    r.append(text.as_str());
    r.append("\n");
}

} // verus!

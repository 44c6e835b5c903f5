//! The items of an object's interface module can all be rendered by `codegen`: every free
//! function and every function of an impl block has a body, and no trait function has a
//! visibility.

use crate::configuration::{Argument, FunctionDef, ItemProperty, Object, ObjectType, Property};
use crate::rust::c_ffi::{self, fn_items};
use crate::rust::c_ffi::properties::{properties_items, property_fns};
use crate::rust::cg::{item_renderable, renderable, FnModel, ItemModel, StructModel};
use crate::rust::emitter::{change_fns, emitter_def_model, emitter_impl_model};
use crate::rust::model::{list_model_imp_model, push_model_items};
use crate::rust::trait_::{
    functions_fns, item_props_fns, list_fns, new_args, properties_fns, trait_fn_args, trait_fns, trait_model, tree_fns,
};
use crate::rust::util::spec_qobject;
use vstd::prelude::*;

verus! {

/// Every function has a body.
pub open spec fn bodies(fns: Seq<FnModel>) -> bool {
    forall|j: int| 0 <= j < fns.len() ==> (#[trigger] fns[j]).body is Some
}

/// No function has a visibility.
pub open spec fn no_vis(fns: Seq<FnModel>) -> bool {
    forall|j: int| 0 <= j < fns.len() ==> (#[trigger] fns[j]).vis is None
}

pub proof fn lemma_fn_items_renderable(items: Seq<ItemModel>, fns: Seq<FnModel>)
    requires
        renderable(items),
        bodies(fns),
    ensures
        renderable(fn_items(items, fns)),
{
    let all = fn_items(items, fns);
    assert forall|i: int| 0 <= i < all.len() implies item_renderable(#[trigger] all[i]) by {
        if i >= items.len() {
            assert(all[i] == ItemModel::Function(fns[i - items.len()]));
        }
    }
}

proof fn lemma_c_functions_bodies(o: Object, n: int)
    ensures
        bodies(c_ffi::functions_fns(o, n)),
    decreases n,
{
    if n > 0 {
        lemma_c_functions_bodies(o, n - 1);
    }
}

proof fn lemma_properties_items_renderable(items: Seq<ItemModel>, o: Object, n: int)
    requires
        renderable(items),
    ensures
        renderable(properties_items(items, o, n)),
    decreases n,
{
    if n > 0 {
        lemma_properties_items_renderable(items, o, n - 1);
        let fs = property_fns(o, o.properties@[n - 1].0@, o.properties@[n - 1].1);
        assert(bodies(fs));
        lemma_fn_items_renderable(properties_items(items, o, n - 1), fs);
    }
}

proof fn lemma_item_props_bodies(o: Object, n: int)
    ensures
        bodies(c_ffi::item_props::item_props_fns(o, n)),
    decreases n,
{
    if n > 0 {
        lemma_item_props_bodies(o, n - 1);
        let before = c_ffi::item_props::item_props_fns(o, n - 1);
        let fs = c_ffi::item_props::item_prop_fns(o, o.item_properties@[n - 1].0@, o.item_properties@[n - 1].1);
        assert(bodies(fs));
        let all = before + fs;
        assert forall|j: int| 0 <= j < all.len() implies (#[trigger] all[j]).body is Some by {
            if j >= before.len() {
                assert(all[j] == fs[j - before.len()]);
            }
        }
    }
}

proof fn lemma_change_fns_bodies(fns: Seq<FnModel>, names: Seq<Seq<char>>, n: int)
    requires
        bodies(fns),
    ensures
        bodies(change_fns(fns, names, n)),
    decreases n,
{
    if n > 0 {
        lemma_change_fns_bodies(fns, names, n - 1);
    }
}

proof fn lemma_new_args_vis(f: FnModel, ps: Seq<(String, Property)>, n: int)
    ensures
        new_args(f, ps, n).vis == f.vis,
    decreases n,
{
    if n > 0 {
        lemma_new_args_vis(f, ps, n - 1);
    }
}

proof fn lemma_trait_fn_args_vis(f: FnModel, args: Seq<Argument>, n: int)
    ensures
        trait_fn_args(f, args, n).vis == f.vis,
    decreases n,
{
    if n > 0 {
        lemma_trait_fn_args_vis(f, args, n - 1);
    }
}

proof fn lemma_properties_fns_vis(fns: Seq<FnModel>, ps: Seq<(String, Property)>, n: int)
    requires
        no_vis(fns),
    ensures
        no_vis(properties_fns(fns, ps, n)),
    decreases n,
{
    if n > 0 {
        lemma_properties_fns_vis(fns, ps, n - 1);
    }
}

proof fn lemma_functions_fns_vis(fns: Seq<FnModel>, fs: Seq<(String, FunctionDef)>, n: int)
    requires
        no_vis(fns),
    ensures
        no_vis(functions_fns(fns, fs, n)),
    decreases n,
{
    if n > 0 {
        lemma_functions_fns_vis(fns, fs, n - 1);
        let f = fs[n - 1].1;
        let f0 = FnModel::decl(crate::text::snake(fs[n - 1].0@));
        let f1 = if f.mutable { f0.mut_self() } else { f0.ref_self() };
        lemma_trait_fn_args_vis(f1, f.arguments@, f.arguments@.len() as int);
    }
}

proof fn lemma_item_props_fns_vis(fns: Seq<FnModel>, ips: Seq<(String, ItemProperty)>, n: int)
    requires
        no_vis(fns),
    ensures
        no_vis(item_props_fns(fns, ips, n)),
    decreases n,
{
    if n > 0 {
        lemma_item_props_fns_vis(fns, ips, n - 1);
    }
}

proof fn lemma_concat_no_vis(a: Seq<FnModel>, b: Seq<FnModel>)
    requires
        no_vis(a),
        no_vis(b),
    ensures
        no_vis(a + b),
{
    let all = a + b;
    assert forall|j: int| 0 <= j < all.len() implies (#[trigger] all[j]).vis is None by {
        if j >= a.len() {
            assert(all[j] == b[j - a.len()]);
        }
    }
}

/// No function of an object's trait has a visibility.
pub proof fn lemma_trait_fns_no_vis(o: Object)
    ensures
        no_vis(trait_fns(o)),
{
    let m = crate::rust::model::spec_model_name(o);
    let f0 = FnModel::decl("new"@).ret("Self"@).arg("emit"@, crate::rust::util::spec_emitter(o.name@));
    let f1 = match m {
        Some(name) => f0.arg("model"@, name),
        None => f0,
    };
    let ops = o.spec_object_properties();
    lemma_new_args_vis(f1, ops, ops.len() as int);
    let first = seq![
        crate::rust::trait_::trait_new_model(o),
        FnModel::decl("emit"@).mut_self().ret("&mut "@ + crate::rust::util::spec_emitter(o.name@)),
    ];
    assert(no_vis(first));
    lemma_properties_fns_vis(first, o.properties@, o.properties@.len() as int);
    let f2 = properties_fns(first, o.properties@, o.properties@.len() as int);
    lemma_functions_fns_vis(f2, o.functions@, o.functions@.len() as int);
    let f3 = functions_fns(f2, o.functions@, o.functions@.len() as int);
    assert(no_vis(list_fns()));
    assert(no_vis(tree_fns()));
    lemma_concat_no_vis(f3, list_fns());
    lemma_concat_no_vis(f3, tree_fns());
    let f4 = match o.object_type {
        ObjectType::List => f3 + list_fns(),
        ObjectType::Tree => f3 + tree_fns(),
        _ => f3,
    };
    lemma_item_props_fns_vis(f4, o.item_properties@, o.item_properties@.len() as int);
}

/// `codegen` renders every item of an object's interface module.
pub proof fn lemma_interface_renderable(o: Object)
    ensures
        renderable(crate::rust::write::interface_items(o)),
{
    let s0 = seq![ItemModel::Struct(StructModel::new(spec_qobject(o.name@)).vis("pub"@))];
    let names = o.spec_non_object_property_names();
    let base = seq![crate::rust::emitter::clone_fn_model(o), crate::rust::emitter::clear_fn_model(o)];
    assert(bodies(base));
    lemma_change_fns_bodies(base, names, names.len() as int);
    let imp = emitter_impl_model(o);
    assert(item_renderable(ItemModel::Impl(imp))) by {
        let fns = change_fns(base, names, names.len() as int);
        if o.object_type == ObjectType::List {
            assert(imp.fns == fns.push(crate::rust::emitter::list_new_data_ready_model()));
            assert forall|j: int| 0 <= j < imp.fns.len() implies (#[trigger] imp.fns[j]).body is Some by {
                if j < fns.len() {
                    assert(imp.fns[j] == fns[j]);
                }
            }
        }
    }
    let s1 = s0.push(ItemModel::Struct(emitter_def_model(o))).push(ItemModel::Impl(imp));
    assert(renderable(s1)) by {
        assert forall|i: int| 0 <= i < s1.len() implies item_renderable(#[trigger] s1[i]) by {
            if i == 2 {
                assert(s1[i] == ItemModel::Impl(imp));
            }
        }
    }
    assert(item_renderable(ItemModel::Impl(list_model_imp_model(o))));
    let s1m = push_model_items(s1, o);
    assert(renderable(s1m)) by {
        if o.object_type != ObjectType::Object {
            assert forall|i: int| 0 <= i < s1m.len() implies item_renderable(#[trigger] s1m[i]) by {
                if i < s1.len() {
                    assert(s1m[i] == s1[i]);
                }
            }
        }
    }
    lemma_trait_fns_no_vis(o);
    let s2 = s1m.push(ItemModel::Trait(trait_model(o)));
    assert(renderable(s2)) by {
        assert forall|i: int| 0 <= i < s2.len() implies item_renderable(#[trigger] s2[i]) by {
            if i < s1m.len() {
                assert(s2[i] == s1m[i]);
            }
        }
    }
    let s3 = s2.push(ItemModel::Function(c_ffi::new_imp::new_model(o))).push(ItemModel::Function(c_ffi::clear_model(o)));
    assert(renderable(s3)) by {
        assert forall|i: int| 0 <= i < s3.len() implies item_renderable(#[trigger] s3[i]) by {
            if i < s2.len() {
                assert(s3[i] == s2[i]);
            }
        }
    }
    lemma_c_functions_bodies(o, o.functions@.len() as int);
    lemma_fn_items_renderable(s3, c_ffi::functions_fns(o, o.functions@.len() as int));
    let s4 = fn_items(s3, c_ffi::functions_fns(o, o.functions@.len() as int));
    lemma_properties_items_renderable(s4, o, o.properties@.len() as int);
    let s5 = properties_items(s4, o, o.properties@.len() as int);
    assert(bodies(c_ffi::models::model_fns(o)));
    lemma_fn_items_renderable(s5, c_ffi::models::model_fns(o));
    let s5m = fn_items(s5, c_ffi::models::model_fns(o));
    lemma_item_props_bodies(o, o.item_properties@.len() as int);
    assert(bodies(c_ffi::item_props::push_item_props_fns(o)));
    lemma_fn_items_renderable(s5m, c_ffi::item_props::push_item_props_fns(o));
    let s6 = fn_items(s5m, c_ffi::item_props::push_item_props_fns(o));
    let s7 = s6.push(ItemModel::Struct(c_ffi::ptr_bundle::ptr_bundle_model(o)));
    assert(renderable(s7)) by {
        assert forall|i: int| 0 <= i < s7.len() implies item_renderable(#[trigger] s7[i]) by {
            if i < s6.len() {
                assert(s7[i] == s6[i]);
            }
        }
    }
    assert(s7 == crate::rust::write::interface_items(o));
}

} // verus!

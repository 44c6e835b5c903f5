//! The `extern "C"` functions through which C++ calls into the Rust implementation.

pub mod funcs;
pub mod item_props;
pub mod models;
pub mod new_imp;
pub mod properties;
pub mod ptr_bundle;

use crate::configuration::{Object, ObjectType, Type};
use crate::rust::cg::{cg_scope, fn_arg, fn_attr, fn_extern_abi, fn_line, fn_new, fn_vis, scope_push_fn, scope_push_struct, FnModel, ItemModel};
use crate::rust::model::simple_item_props;
use crate::text::{snake, snake_case};
use vstd::prelude::*;
use vstd::string::*;

verus! {

/// No object, nested ones included, is a tree (the C interface of trees is not emitted).
pub open spec fn no_tree(o: Object) -> bool
    decreases o,
{
    &&& o.object_type != ObjectType::Tree
    &&& forall|i: int|
        0 <= i < o.properties@.len() ==> match (#[trigger] o.properties@[i]).1.property_type {
            Type::Object(c) => no_tree(*c),
            _ => true,
        }
}

/// What the C constructor handles: no object, nested ones included, is a tree, and every item
/// property holds a simple type.
pub open spec fn ffi_supported(o: Object) -> bool
    decreases o,
{
    &&& o.object_type != ObjectType::Tree
    &&& simple_item_props(o)
    &&& forall|i: int|
        0 <= i < o.properties@.len() ==> match (#[trigger] o.properties@[i]).1.property_type {
            Type::Object(c) => ffi_supported(*c),
            _ => true,
        }
}

/// Every item property holds a simple type, in nested objects too.
pub open spec fn simple_item_props_deep(o: Object) -> bool
    decreases o,
{
    &&& simple_item_props(o)
    &&& forall|i: int|
        0 <= i < o.properties@.len() ==> match (#[trigger] o.properties@[i]).1.property_type {
            Type::Object(c) => simple_item_props_deep(*c),
            _ => true,
        }
}

/// An object whose C interface can be emitted has only simple item properties, nested
/// objects included.
pub proof fn lemma_ffi_supported_simple_deep(o: Object)
    requires
        ffi_supported(o),
    ensures
        simple_item_props_deep(o),
    decreases o,
{
    assert forall|i: int| 0 <= i < o.properties@.len() implies match (#[trigger] o.properties@[i]).1.property_type {
        Type::Object(c) => simple_item_props_deep(*c),
        _ => true,
    } by {
        if o.properties@[i].1.property_type is Object {
            lemma_ffi_supported_simple_deep(crate::configuration::nested_object(o.properties@[i].1.property_type));
        }
    }
}

/// The items a scope holds after the functions `fns` are pushed in order.
pub open spec fn fn_items(items: Seq<ItemModel>, fns: Seq<FnModel>) -> Seq<ItemModel> {
    items + fns.map_values(|f: FnModel| ItemModel::Function(f))
}

pub open spec fn spec_ptr_bundle_name(o: Object) -> Seq<char> {
    o.name@ + "PtrBundle"@
}

/// The name of the object's pointer bundle: `<Object>PtrBundle`.
pub fn ptr_bundle_name(object: &Object) -> (r: String)
    ensures
        r@ == spec_ptr_bundle_name(*object),
{
    String::from_str(object.name.as_str()).concat("PtrBundle")
}

/// Adds the pointer bundle struct to the scope.
pub fn push_ptr_bundle(scope: &mut codegen::Scope, object: &Object)
    requires
        no_tree(*object),
    ensures
        cg_scope(*final(scope)) == cg_scope(*old(scope)).push(ItemModel::Struct(ptr_bundle::ptr_bundle_model(*object))),
{
    scope_push_struct(scope, ptr_bundle::ptr_bundle(object));
}

/// Adds the C constructor to the scope.
pub fn push_new(scope: &mut codegen::Scope, object: &Object)
    requires
        ffi_supported(*object),
    ensures
        cg_scope(*final(scope)) == cg_scope(*old(scope)).push(ItemModel::Function(new_imp::new_model(*object))),
{
    scope_push_fn(scope, new_imp::new(object));
}

pub open spec fn functions_fns(o: Object, n: int) -> Seq<FnModel>
    decreases n,
{
    if n <= 0 {
        Seq::empty()
    } else {
        functions_fns(o, n - 1).push(funcs::function_model(o.functions@[n - 1].0@, o.functions@[n - 1].1, o))
    }
}

/// Adds the C function of every function of the object, in table order.
pub fn push_functions(scope: &mut codegen::Scope, object: &Object)
    ensures
        cg_scope(*final(scope)) == fn_items(cg_scope(*old(scope)), functions_fns(*object, object.functions@.len() as int)),
{
    let ghost s0 = cg_scope(*scope);
    let mut i: usize = 0;
    while i < object.functions.len()
        invariant
            i <= object.functions@.len(),
            cg_scope(*scope) == fn_items(s0, functions_fns(*object, i as int)),
        decreases object.functions@.len() - i,
    {
        let ghost before = cg_scope(*scope);
        scope_push_fn(scope, funcs::function(object.functions[i].0.as_str(), &object.functions[i].1, object));
        proof {
            assert(cg_scope(*scope) =~= fn_items(s0, functions_fns(*object, i + 1)));
        }
        i = i + 1;
    }
}

pub open spec fn clear_model(o: Object) -> FnModel {
    FnModel::new(snake(o.name@) + "_free"@).abi("C"@).attr("no_mangle"@).vis("pub unsafe"@).arg("ptr"@, "*mut "@ + o.name@).line(
        "Box::from_raw(ptr).emit().clear();"@,
    )
}

/// Adds the C destructor `<object>_free`, which clears the emitter before dropping the object.
pub fn push_clear(scope: &mut codegen::Scope, object: &Object)
    ensures
        cg_scope(*final(scope)) == cg_scope(*old(scope)).push(ItemModel::Function(clear_model(*object))),
{
    let mut func = fn_new(snake_case(object.name.as_str()).concat("_free").as_str());
    fn_extern_abi(&mut func, "C");
    fn_attr(&mut func, "no_mangle");
    fn_vis(&mut func, "pub unsafe");
    fn_arg(&mut func, "ptr", String::from_str("*mut ").concat(object.name.as_str()).as_str());
    fn_line(&mut func, "Box::from_raw(ptr).emit().clear();");
    scope_push_fn(scope, func);
}

} // verus!

//! The C functions of a list's item properties.

pub mod list;

use crate::configuration::{ItemProperty, Object, ObjectType, SimpleType, Type};
use crate::rust::cg::{cg_scope, scope_push_fn, FnModel};
use crate::rust::c_ffi::fn_items;
use vstd::prelude::*;
use vstd::string::*;

verus! {

/// The C functions of one item property: its getter, its setter if it is writable, and the
/// function that clears it if it is also optional.
pub open spec fn item_prop_fns(o: Object, name: Seq<char>, ip: ItemProperty) -> Seq<FnModel> {
    let get = if ip.item_property_type.spec_is_complex() {
        list::complex_data_model(o, name, ip)
    } else {
        list::non_complex_data_model(o, name, ip)
    };
    let fs = if ip.write {
        let set = match ip.item_property_type {
            Type::Simple(SimpleType::QString) => list::qstring_set_model(o, name, ip),
            Type::Simple(SimpleType::QByteArray) => list::qbytearray_set_model(o, name, ip),
            _ => list::non_complex_set_model(o, name, ip),
        };
        seq![get, set]
    } else {
        seq![get]
    };
    if ip.write && ip.optional {
        fs.push(list::set_none_model(o, name))
    } else {
        fs
    }
}

pub open spec fn item_props_fns(o: Object, n: int) -> Seq<FnModel>
    decreases n,
{
    if n <= 0 {
        Seq::empty()
    } else {
        item_props_fns(o, n - 1) + item_prop_fns(o, o.item_properties@[n - 1].0@, o.item_properties@[n - 1].1)
    }
}

pub open spec fn push_item_props_fns(o: Object) -> Seq<FnModel> {
    if o.object_type == ObjectType::List {
        item_props_fns(o, o.item_properties@.len() as int)
    } else {
        Seq::empty()
    }
}

/// Adds the C functions of every item property of a list, in table order; other objects have
/// none.
pub fn push_item_props(scope: &mut codegen::Scope, object: &Object)
    ensures
        cg_scope(*final(scope)) == fn_items(cg_scope(*old(scope)), push_item_props_fns(*object)),
{
    let ghost s0 = cg_scope(*scope);
    if object.object_type == ObjectType::List {
        let mut i: usize = 0;
        while i < object.item_properties.len()
            invariant
                i <= object.item_properties@.len(),
                object.object_type == ObjectType::List,
                cg_scope(*scope) == fn_items(s0, item_props_fns(*object, i as int)),
            decreases object.item_properties@.len() - i,
        {
            let name = object.item_properties[i].0.as_str();
            let item_prop = &object.item_properties[i].1;
            let ghost s1 = cg_scope(*scope);
            if item_prop.is_complex() {
                scope_push_fn(scope, list::complex_data(object, name, item_prop));
            } else {
                scope_push_fn(scope, list::non_complex_data(object, name, item_prop));
            }
            if item_prop.write {
                match &item_prop.item_property_type {
                    Type::Simple(SimpleType::QString) => {
                        scope_push_fn(scope, list::qstring_set(object, name, item_prop));
                    },
                    Type::Simple(SimpleType::QByteArray) => {
                        scope_push_fn(scope, list::qbytearray_set(object, name, item_prop));
                    },
                    _ => {
                        scope_push_fn(scope, list::non_complex_set(object, name, item_prop));
                    },
                }
            }
            if item_prop.write && item_prop.optional {
                scope_push_fn(scope, list::set_none(object, name, item_prop));
            }
            proof {
                assert(cg_scope(*scope) =~= fn_items(s1, item_prop_fns(*object, name@, *item_prop)));
                assert(fn_items(s0, item_props_fns(*object, i + 1)) =~= fn_items(
                    fn_items(s0, item_props_fns(*object, i as int)),
                    item_prop_fns(*object, name@, *item_prop),
                ));
            }
            i = i + 1;
        }
    }
    proof {
        assert(cg_scope(*scope) =~= fn_items(s0, push_item_props_fns(*object)));
    }
}

} // verus!

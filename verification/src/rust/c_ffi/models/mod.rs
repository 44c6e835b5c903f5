//! The C functions of a list's model.

pub mod list;

use crate::configuration::{Object, ObjectType};
use crate::rust::cg::{cg_scope, scope_push_fn, FnModel};
use crate::rust::c_ffi::fn_items;
use vstd::prelude::*;

verus! {

pub open spec fn model_fns(o: Object) -> Seq<FnModel> {
    if o.object_type == ObjectType::List {
        seq![
            list::row_count_model(o),
            list::rows_fn_model(o, "_insert_rows"@, "(&mut *ptr).insert_rows(row, count)"@),
            list::rows_fn_model(o, "_remove_rows"@, "(&mut *ptr).remove_rows(row, count)"@),
            list::can_fetch_more_model(o),
            list::fetch_more_model(o),
            list::sort_model(o),
        ]
    } else {
        Seq::empty()
    }
}

/// Adds the model functions of a list to the scope; other objects have none.
pub fn push_models(scope: &mut codegen::Scope, object: &Object)
    ensures
        cg_scope(*final(scope)) == fn_items(cg_scope(*old(scope)), model_fns(*object)),
{
    let ghost s0 = cg_scope(*scope);
    if object.object_type == ObjectType::List {
        scope_push_fn(scope, list::row_count(object));
        scope_push_fn(scope, list::insert_rows(object));
        scope_push_fn(scope, list::remove_rows(object));
        scope_push_fn(scope, list::can_fetch_more(object));
        scope_push_fn(scope, list::fetch_more(object));
        scope_push_fn(scope, list::sort(object));
    }
    proof {
        assert(cg_scope(*scope) =~= fn_items(s0, model_fns(*object)));
    }
}

} // verus!

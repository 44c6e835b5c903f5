//! The bundle of C++ object pointers and callbacks that C++ hands to the Rust constructor.

use crate::configuration::{CopyArgument, Object, ObjectType, Signal, Type};
use crate::rust::cg::{cg_struct, struct_derive, struct_field, struct_new, struct_repr, struct_vis, StructModel};
use crate::rust::util::{qobject, spec_qobject};
use crate::text::{snake, snake_case};
use super::{no_tree, ptr_bundle_name, spec_ptr_bundle_name};
use vstd::prelude::*;
use vstd::string::*;

verus! {

/// The callbacks through which a list's Rust model reports row changes.
pub open spec fn list_bundle_fields(s: StructModel, lc: Seq<char>, q: Seq<char>) -> StructModel {
    let plain = "fn(*mut "@ + q + ")"@;
    let two = "fn(*mut "@ + q + ", usize, usize)"@;
    s.field(lc + "_new_data_ready"@, plain).field(lc + "_layout_about_to_be_changed"@, plain).field(
        lc + "_layout_changed"@,
        plain,
    ).field(lc + "_data_changed"@, two).field(lc + "_begin_reset_model"@, plain).field(
        lc + "_end_reset_model"@,
        plain,
    ).field(lc + "_begin_insert_rows"@, two).field(lc + "_end_insert_rows"@, plain).field(
        lc + "_begin_move_rows"@,
        "fn(*mut "@ + q + ", usize, usize, usize)"@,
    ).field(lc + "_end_move_rows"@, plain).field(lc + "_begin_remove_rows"@, two).field(
        lc + "_end_remove_rows"@,
        plain,
    )
}

pub open spec fn signal_type_upto(q: Seq<char>, args: Seq<CopyArgument>, n: int) -> Seq<char>
    decreases n,
{
    if n <= 0 {
        "fn(*mut "@ + q + ", "@
    } else {
        signal_type_upto(q, args, n - 1) + args[n - 1].argument_type.spec_rust_type() + ", "@
    }
}

/// The type of a signal's callback: the C++ object, then each argument, each followed by `, `.
pub open spec fn signal_type(q: Seq<char>, signal: Signal) -> Seq<char> {
    signal_type_upto(q, signal.arguments@, signal.arguments@.len() as int) + ")"@
}

pub open spec fn signal_fields(s: StructModel, lc: Seq<char>, q: Seq<char>, sigs: Seq<(String, Signal)>, n: int) -> StructModel
    decreases n,
{
    if n <= 0 {
        s
    } else {
        signal_fields(s, lc, q, sigs, n - 1).field(lc + "_"@ + sigs[n - 1].0@, signal_type(q, sigs[n - 1].1))
    }
}

pub open spec fn bundle_fields_upto(s: StructModel, o: Object, name: Seq<char>, n: int) -> StructModel
    decreases o, n,
{
    if n <= 0 || n > o.properties@.len() {
        s.field(snake(name), "*mut "@ + spec_qobject(o.name@))
    } else {
        let s1 = bundle_fields_upto(s, o, name, n - 1);
        let prop_name = o.properties@[n - 1].0@;
        match o.properties@[n - 1].1.property_type {
            Type::Object(c) => bundle_fields_model(s1, *c, prop_name),
            _ => s1.field(snake(name) + "_"@ + snake(prop_name) + "_changed"@, "fn(*mut "@ + spec_qobject(o.name@) + ")"@),
        }
    }
}

/// The fields an object contributes to the bundle: its C++ object, a change callback per
/// property (the fields of nested objects in their place), the model callbacks of a list and a
/// callback per signal.
pub open spec fn bundle_fields_model(s: StructModel, o: Object, name: Seq<char>) -> StructModel
    decreases o, o.properties@.len() + 1,
{
    let s1 = bundle_fields_upto(s, o, name, o.properties@.len() as int);
    let q = spec_qobject(o.name@);
    let s2 = if o.object_type == ObjectType::List {
        list_bundle_fields(s1, snake(name), q)
    } else {
        s1
    };
    signal_fields(s2, snake(name), q, o.signals@, o.signals@.len() as int)
}

pub open spec fn ptr_bundle_model(o: Object) -> StructModel {
    bundle_fields_model(
        StructModel::new(spec_ptr_bundle_name(o)).repr("C"@).vis("pub"@).derive("Clone"@).derive("Copy"@),
        o,
        o.name@,
    )
}

/// The `#[repr(C)]` struct `<Object>PtrBundle` of pointers and callbacks.
pub fn ptr_bundle(object: &Object) -> (r: codegen::Struct)
    requires
        no_tree(*object),
    ensures
        cg_struct(r) == ptr_bundle_model(*object),
{
    let mut bundle = struct_new(ptr_bundle_name(object).as_str());
    struct_repr(&mut bundle, "C");
    struct_vis(&mut bundle, "pub");
    struct_derive(&mut bundle, "Clone");
    struct_derive(&mut bundle, "Copy");
    fields(object, object.name.as_str(), &mut bundle);
    bundle
}

/// The type of a signal's callback.
pub fn signal_callback_type(qobj: &str, signal: &Signal) -> (r: String)
    ensures
        r@ == signal_type(qobj@, *signal),
{
    let mut buf = String::from_str("fn(*mut ").concat(qobj).concat(", ");
    let mut i: usize = 0;
    while i < signal.arguments.len()
        invariant
            i <= signal.arguments@.len(),
            buf@ == signal_type_upto(qobj@, signal.arguments@, i as int),
        decreases signal.arguments@.len() - i,
    {
        buf.append(signal.arguments[i].argument_type.rust_type());
        buf.append(", ");
        i = i + 1;
    }
    buf.append(")");
    buf
}

/// Adds the fields of `object`, known in the bundle by `name`, to the bundle.
pub fn fields(object: &Object, name: &str, bundle: &mut codegen::Struct)
    requires
        no_tree(*object),
    ensures
        cg_struct(*final(bundle)) == bundle_fields_model(cg_struct(*old(bundle)), *object, name@),
    decreases object,
{
    let ghost s0 = cg_struct(*bundle);
    let qobj = qobject(object.name.as_str());
    let lc_name = snake_case(name);
    struct_field(bundle, lc_name.as_str(), String::from_str("*mut ").concat(qobj.as_str()).as_str());
    let mut i: usize = 0;
    while i < object.properties.len()
        invariant
            i <= object.properties@.len(),
            no_tree(*object),
            qobj@ == spec_qobject(object.name@),
            lc_name@ == snake(name@),
            cg_struct(*bundle) == bundle_fields_upto(s0, *object, name@, i as int),
        decreases object.properties@.len() - i,
    {
        let prop_name = object.properties[i].0.as_str();
        match &object.properties[i].1.property_type {
            Type::Object(inner) => {
                fields(&**inner, prop_name, bundle);
            },
            _ => {
                struct_field(
                    bundle,
                    String::from_str(lc_name.as_str()).concat("_").concat(snake_case(prop_name).as_str()).concat("_changed").as_str(),
                    String::from_str("fn(*mut ").concat(qobj.as_str()).concat(")").as_str(),
                );
            },
        }
        i = i + 1;
    }
    if object.object_type == ObjectType::List {
        let lc = lc_name.as_str();
        let plain = String::from_str("fn(*mut ").concat(qobj.as_str()).concat(")");
        let two = String::from_str("fn(*mut ").concat(qobj.as_str()).concat(", usize, usize)");
        let three = String::from_str("fn(*mut ").concat(qobj.as_str()).concat(", usize, usize, usize)");
        struct_field(bundle, String::from_str(lc).concat("_new_data_ready").as_str(), plain.as_str());
        struct_field(bundle, String::from_str(lc).concat("_layout_about_to_be_changed").as_str(), plain.as_str());
        struct_field(bundle, String::from_str(lc).concat("_layout_changed").as_str(), plain.as_str());
        struct_field(bundle, String::from_str(lc).concat("_data_changed").as_str(), two.as_str());
        struct_field(bundle, String::from_str(lc).concat("_begin_reset_model").as_str(), plain.as_str());
        struct_field(bundle, String::from_str(lc).concat("_end_reset_model").as_str(), plain.as_str());
        struct_field(bundle, String::from_str(lc).concat("_begin_insert_rows").as_str(), two.as_str());
        struct_field(bundle, String::from_str(lc).concat("_end_insert_rows").as_str(), plain.as_str());
        struct_field(bundle, String::from_str(lc).concat("_begin_move_rows").as_str(), three.as_str());
        struct_field(bundle, String::from_str(lc).concat("_end_move_rows").as_str(), plain.as_str());
        struct_field(bundle, String::from_str(lc).concat("_begin_remove_rows").as_str(), two.as_str());
        struct_field(bundle, String::from_str(lc).concat("_end_remove_rows").as_str(), plain.as_str());
    }
    let ghost s2 = cg_struct(*bundle);
    let mut j: usize = 0;
    while j < object.signals.len()
        invariant
            j <= object.signals@.len(),
            qobj@ == spec_qobject(object.name@),
            lc_name@ == snake(name@),
            cg_struct(*bundle) == signal_fields(s2, snake(name@), spec_qobject(object.name@), object.signals@, j as int),
        decreases object.signals@.len() - j,
    {
        let signal_name = object.signals[j].0.as_str();
        let ty = signal_callback_type(qobj.as_str(), &object.signals[j].1);
        struct_field(bundle, String::from_str(lc_name.as_str()).concat("_").concat(signal_name).as_str(), ty.as_str());
        j = j + 1;
    }
}

} // verus!

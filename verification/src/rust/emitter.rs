//! The emitter type through which the Rust implementation signals property changes.

use crate::configuration::{Object, ObjectType};
use crate::rust::cg::{block_line, block_new, cg_block, cg_fn, cg_impl, cg_scope, cg_struct, fn_doc, fn_line, fn_mut_self, fn_new, fn_push_block, fn_ref_self, fn_ret, fn_vis, impl_new, impl_push_fn, scope_push_impl, scope_push_struct, struct_field, struct_new, struct_vis, BlockModel, FnModel, ImplModel, ItemModel, StructModel};
use crate::rust::util::{emitter, qobject, spec_emitter, spec_qobject};
use crate::text::{snake, snake_case};
use vstd::prelude::*;
use vstd::string::*;

verus! {

pub open spec fn spec_prop_changed(prop_name: Seq<char>) -> Seq<char> {
    snake(prop_name) + "_changed"@
}

/// The name of the emitter's change function (and field) of a property.
pub fn prop_changed(prop_name: &str) -> (r: String)
    ensures
        r@ == spec_prop_changed(prop_name@),
{
    snake_case(prop_name).concat("_changed")
}

pub open spec fn spec_prop_changed_field(prop_name: Seq<char>) -> Seq<char> {
    "pub(super) "@ + snake(prop_name) + "_changed"@
}

/// The declaration of the emitter field that holds a property's change callback.
pub fn prop_changed_field(prop_name: &str) -> (r: String)
    ensures
        r@ == spec_prop_changed_field(prop_name@),
{
    String::from_str("pub(super) ").concat(snake_case(prop_name).as_str()).concat("_changed")
}

pub open spec fn emitter_fields(s: StructModel, o: Object, names: Seq<Seq<char>>, n: int) -> StructModel
    decreases n,
{
    if n <= 0 {
        s
    } else {
        emitter_fields(s, o, names, n - 1).field(spec_prop_changed_field(names[n - 1]), "fn(*mut "@ + spec_qobject(o.name@) + ")"@)
    }
}

pub open spec fn emitter_def_model(o: Object) -> StructModel {
    let s0 = StructModel::new(spec_emitter(o.name@)).vis("pub"@).field(
        "pub(super) qobject"@,
        "Arc<AtomicPtr<"@ + spec_qobject(o.name@) + ">>"@,
    );
    let names = o.spec_non_object_property_names();
    let s1 = emitter_fields(s0, o, names, names.len() as int);
    if o.object_type == ObjectType::List {
        s1.field("pub(super) new_data_ready"@, "fn(*mut "@ + spec_qobject(o.name@) + ")"@)
    } else {
        s1
    }
}

/// The emitter struct of an object: the shared pointer to the C++ object, a change callback
/// per non-object property, and the new-data callback of a list.
pub fn emitter_def(object: &Object) -> (r: codegen::Struct)
    ensures
        cg_struct(r) == emitter_def_model(*object),
{
    let qobj = qobject(object.name.as_str());
    let mut s = struct_new(emitter(object.name.as_str()).as_str());
    struct_vis(&mut s, "pub");
    struct_field(&mut s, "pub(super) qobject", String::from_str("Arc<AtomicPtr<").concat(qobj.as_str()).concat(">>").as_str());
    let names = object.non_object_property_names();
    let ghost s0 = cg_struct(s);
    let ghost ns = object.spec_non_object_property_names();
    let mut i: usize = 0;
    while i < names.len()
        invariant
            i <= names@.len(),
            names@.map_values(|x: &String| x@) == ns,
            qobj@ == spec_qobject(object.name@),
            cg_struct(s) == emitter_fields(s0, *object, ns, i as int),
        decreases names@.len() - i,
    {
        proof {
            assert(names@.map_values(|x: &String| x@)[i as int] == ns[i as int]);
        }
        struct_field(
            &mut s,
            prop_changed_field(names[i].as_str()).as_str(),
            String::from_str("fn(*mut ").concat(qobj.as_str()).concat(")").as_str(),
        );
        i = i + 1;
    }
    match object.object_type {
        ObjectType::List => {
            struct_field(&mut s, "pub(super) new_data_ready", String::from_str("fn(*mut ").concat(qobj.as_str()).concat(")").as_str());
        },
        _ => {},
    }
    s
}

pub open spec fn clone_lines(b: BlockModel, names: Seq<Seq<char>>, n: int) -> BlockModel
    decreases n,
{
    if n <= 0 {
        b
    } else {
        let pc = spec_prop_changed(names[n - 1]);
        clone_lines(b, names, n - 1).line(pc + ": self."@ + pc + ","@)
    }
}

pub open spec fn clone_body(o: Object) -> BlockModel {
    let names = o.spec_non_object_property_names();
    let b1 = clone_lines(BlockModel::new(spec_emitter(o.name@)).line("qobject: self.qobject.clone(),"@), names, names.len() as int);
    if o.object_type != ObjectType::Object {
        b1.line("new_data_ready: self.new_data_ready,"@)
    } else {
        b1
    }
}

pub open spec fn clone_doc() -> Seq<char> {
    "Clone the emitter\n\nThe emitter can only be cloned when it is mutable. The emitter calls\ninto C++ code which may call into Rust again. If emmitting is possible\nfrom immutable structures, that might lead to access to a mutable\nreference. That is undefined behaviour and forbidden."@
}

pub open spec fn clone_fn_model(o: Object) -> FnModel {
    FnModel::new("clone"@).vis("pub"@).mut_self().ret(spec_emitter(o.name@)).doc(clone_doc()).block(clone_body(o))
}

/// The emitter's `clone`, which copies the shared pointer and every callback.
pub fn clone_fn(object: &Object, emit_struct: &codegen::Struct) -> (r: codegen::Function)
    ensures
        cg_fn(r) == clone_fn_model(*object),
{
    let name = emitter(object.name.as_str());
    let mut clone = fn_new("clone");
    fn_vis(&mut clone, "pub");
    fn_mut_self(&mut clone);
    fn_ret(&mut clone, name.as_str());
    fn_doc(&mut clone, "Clone the emitter\n\nThe emitter can only be cloned when it is mutable. The emitter calls\ninto C++ code which may call into Rust again. If emmitting is possible\nfrom immutable structures, that might lead to access to a mutable\nreference. That is undefined behaviour and forbidden.");
    let mut clone_body = block_new(name.as_str());
    block_line(&mut clone_body, "qobject: self.qobject.clone(),");
    let names = object.non_object_property_names();
    let ghost b0 = cg_block(clone_body);
    let ghost ns = object.spec_non_object_property_names();
    let mut i: usize = 0;
    while i < names.len()
        invariant
            i <= names@.len(),
            names@.map_values(|x: &String| x@) == ns,
            cg_block(clone_body) == clone_lines(b0, ns, i as int),
        decreases names@.len() - i,
    {
        proof {
            assert(names@.map_values(|x: &String| x@)[i as int] == ns[i as int]);
        }
        let pc = prop_changed(names[i].as_str());
        block_line(&mut clone_body, pc.clone().concat(": self.").concat(pc.as_str()).concat(",").as_str());
        i = i + 1;
    }
    if object.object_type != ObjectType::Object {
        block_line(&mut clone_body, "new_data_ready: self.new_data_ready,");
    }
    fn_push_block(&mut clone, clone_body);
    clone
}

pub open spec fn clear_fn_model(o: Object) -> FnModel {
    FnModel::new("clear"@).vis("pub"@).ref_self().line("let n: *const "@ + spec_qobject(o.name@) + " = null();"@).line(
        "self.qobject.store(n as *mut "@ + spec_qobject(o.name@) + ", Ordering::SeqCst);"@,
    )
}

/// The emitter's `clear`, which forgets the C++ object.
pub fn clear_fn(object: &Object) -> (r: codegen::Function)
    ensures
        cg_fn(r) == clear_fn_model(*object),
{
    let qobj = qobject(object.name.as_str());
    let mut clear = fn_new("clear");
    fn_vis(&mut clear, "pub");
    fn_ref_self(&mut clear);
    fn_line(&mut clear, String::from_str("let n: *const ").concat(qobj.as_str()).concat(" = null();").as_str());
    fn_line(&mut clear, String::from_str("self.qobject.store(n as *mut ").concat(qobj.as_str()).concat(", Ordering::SeqCst);").as_str());
    clear
}

pub open spec fn prop_change_fn_model(prop_name: Seq<char>) -> FnModel {
    FnModel::new(spec_prop_changed(prop_name)).vis("pub"@).mut_self().line("let ptr = self.qobject.load(Ordering::SeqCst);"@).line(
        ""@,
    ).block(BlockModel::new("if !ptr.is_null()"@).line("(self."@ + spec_prop_changed(prop_name) + ")(ptr);"@))
}

/// The emitter function that signals a property change, if the C++ object is still there.
pub fn prop_change_fn(prop_name: &str) -> (r: codegen::Function)
    ensures
        cg_fn(r) == prop_change_fn_model(prop_name@),
{
    let pc = prop_changed(prop_name);
    let mut func = fn_new(pc.as_str());
    fn_vis(&mut func, "pub");
    fn_mut_self(&mut func);
    fn_line(&mut func, "let ptr = self.qobject.load(Ordering::SeqCst);");
    fn_line(&mut func, "");
    let mut block = block_new("if !ptr.is_null()");
    block_line(&mut block, String::from_str("(self.").concat(pc.as_str()).concat(")(ptr);").as_str());
    fn_push_block(&mut func, block);
    func
}

pub open spec fn list_new_data_ready_model() -> FnModel {
    FnModel::new("new_data_ready"@).vis("pub"@).mut_self().line("let ptr = self.qobject.load(Ordering::SeqCst);"@).block(
        BlockModel::new("if !ptr.is_null()"@).line("(self.new_data_ready)(ptr);"@),
    )
}

/// The list emitter function that signals that new rows can be fetched.
pub fn list_new_data_ready() -> (r: codegen::Function)
    ensures
        cg_fn(r) == list_new_data_ready_model(),
{
    let mut func = fn_new("new_data_ready");
    fn_vis(&mut func, "pub");
    fn_mut_self(&mut func);
    fn_line(&mut func, "let ptr = self.qobject.load(Ordering::SeqCst);");
    let mut block = block_new("if !ptr.is_null()");
    block_line(&mut block, "(self.new_data_ready)(ptr);");
    fn_push_block(&mut func, block);
    func
}

pub open spec fn change_fns(fns: Seq<FnModel>, names: Seq<Seq<char>>, n: int) -> Seq<FnModel>
    decreases n,
{
    if n <= 0 {
        fns
    } else {
        change_fns(fns, names, n - 1).push(prop_change_fn_model(names[n - 1]))
    }
}

pub open spec fn emitter_impl_model(o: Object) -> ImplModel {
    let names = o.spec_non_object_property_names();
    let fns = change_fns(seq![clone_fn_model(o), clear_fn_model(o)], names, names.len() as int);
    ImplModel {
        target: spec_emitter(o.name@),
        fns: if o.object_type == ObjectType::List { fns.push(list_new_data_ready_model()) } else { fns },
    }
}

/// The emitter's impl block: `clone`, `clear`, a change function per non-object property,
/// and a list's `new_data_ready`.
pub fn emitter_impl(object: &Object, emit_struct: &codegen::Struct) -> (r: codegen::Impl)
    ensures
        cg_impl(r) == emitter_impl_model(*object),
{
    let mut imp = impl_new(emitter(object.name.as_str()).as_str());
    impl_push_fn(&mut imp, clone_fn(object, emit_struct));
    impl_push_fn(&mut imp, clear_fn(object));
    proof {
        assert(cg_impl(imp).fns =~= seq![clone_fn_model(*object), clear_fn_model(*object)]);
    }
    let names = object.non_object_property_names();
    let ghost f0 = cg_impl(imp).fns;
    let ghost ns = object.spec_non_object_property_names();
    let mut i: usize = 0;
    while i < names.len()
        invariant
            i <= names@.len(),
            names@.map_values(|x: &String| x@) == ns,
            cg_impl(imp) == (ImplModel { target: spec_emitter(object.name@), fns: change_fns(f0, ns, i as int) }),
        decreases names@.len() - i,
    {
        proof {
            assert(names@.map_values(|x: &String| x@)[i as int] == ns[i as int]);
        }
        impl_push_fn(&mut imp, prop_change_fn(names[i].as_str()));
        i = i + 1;
    }
    match object.object_type {
        ObjectType::List => {
            impl_push_fn(&mut imp, list_new_data_ready());
        },
        _ => {},
    }
    imp
}

/// Adds the emitter struct and its impl block to the scope.
pub fn push_emitter(scope: &mut codegen::Scope, object: &Object)
    ensures
        cg_scope(*final(scope)) == cg_scope(*old(scope)).push(ItemModel::Struct(emitter_def_model(*object))).push(
            ItemModel::Impl(emitter_impl_model(*object)),
        ),
{
    let emitter_struct = emitter_def(object);
    let emitter_imp = emitter_impl(object, &emitter_struct);
    scope_push_struct(scope, emitter_struct);
    scope_push_impl(scope, emitter_imp);
}

} // verus!

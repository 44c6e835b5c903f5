//! The model type through which a list's Rust implementation reports row changes to Qt.

use crate::configuration::{Object, ObjectType};
use crate::rust::cg::{cg_fn, cg_impl, cg_scope, cg_struct, fn_arg, fn_line, fn_mut_self, fn_new, fn_vis, impl_new, impl_push_fn, scope_push_impl, scope_push_struct, struct_derive, struct_field, struct_new, struct_vis, FnModel, ImplModel, ItemModel, StructModel};
use crate::rust::util::{qobject, spec_qobject};
use vstd::prelude::*;
use vstd::string::*;

verus! {

pub open spec fn spec_model_name(o: Object) -> Option<Seq<char>> {
    match o.object_type {
        ObjectType::Tree => Some(o.name@ + "Tree"@),
        ObjectType::List => Some(o.name@ + "List"@),
        _ => None,
    }
}

/// The name of the model type of a list or tree; an object has none.
pub fn model_name(object: &Object) -> (r: Option<String>)
    ensures
        match r {
            Some(s) => spec_model_name(*object) == Some(s@),
            None => spec_model_name(*object) is None,
        },
{
    match object.object_type {
        ObjectType::Tree => Some(String::from_str(object.name.as_str()).concat("Tree")),
        ObjectType::List => Some(String::from_str(object.name.as_str()).concat("List")),
        _ => None,
    }
}

pub open spec fn layout_about_to_be_changed_model() -> FnModel {
    FnModel::new("layout_about_to_be_changed"@).vis("pub"@).mut_self().line("if !self.qobject.is_null() { (self.layout_about_to_be_changed)(self.qobject); }"@)
}

/// The model function `layout_about_to_be_changed`, which announces a layout change if the C++ object is still there.
pub fn layout_about_to_be_changed() -> (r: codegen::Function)
    ensures
        cg_fn(r) == layout_about_to_be_changed_model(),
{
    let mut func = fn_new("layout_about_to_be_changed");
    fn_vis(&mut func, "pub");
    fn_mut_self(&mut func);
    fn_line(&mut func, "if !self.qobject.is_null() { (self.layout_about_to_be_changed)(self.qobject); }");
    func
}

pub open spec fn layout_changed_model() -> FnModel {
    FnModel::new("layout_changed"@).vis("pub"@).mut_self().line("if !self.qobject.is_null() { (self.layout_changed)(self.qobject) }"@)
}

/// The model function `layout_changed`, which reports a layout change if the C++ object is still there.
pub fn layout_changed() -> (r: codegen::Function)
    ensures
        cg_fn(r) == layout_changed_model(),
{
    let mut func = fn_new("layout_changed");
    fn_vis(&mut func, "pub");
    fn_mut_self(&mut func);
    fn_line(&mut func, "if !self.qobject.is_null() { (self.layout_changed)(self.qobject) }");
    func
}

pub open spec fn data_changed_model() -> FnModel {
    FnModel::new("data_changed"@).vis("pub"@).mut_self().arg("first"@, "usize"@).arg("last"@, "usize"@).line("if !self.qobject.is_null() { (self.data_changed)(self.qobject, first, last); }"@)
}

/// The model function `data_changed`, which reports changed rows if the C++ object is still there.
pub fn data_changed() -> (r: codegen::Function)
    ensures
        cg_fn(r) == data_changed_model(),
{
    let mut func = fn_new("data_changed");
    fn_vis(&mut func, "pub");
    fn_mut_self(&mut func);
    fn_arg(&mut func, "first", "usize");
    fn_arg(&mut func, "last", "usize");
    fn_line(&mut func, "if !self.qobject.is_null() { (self.data_changed)(self.qobject, first, last); }");
    func
}

pub open spec fn begin_reset_model_model() -> FnModel {
    FnModel::new("begin_reset_model"@).vis("pub"@).mut_self().line("if !self.qobject.is_null() { (self.begin_reset_model)(self.qobject); }"@)
}

/// The model function `begin_reset_model`, which announces a reset if the C++ object is still there.
pub fn begin_reset_model() -> (r: codegen::Function)
    ensures
        cg_fn(r) == begin_reset_model_model(),
{
    let mut func = fn_new("begin_reset_model");
    fn_vis(&mut func, "pub");
    fn_mut_self(&mut func);
    fn_line(&mut func, "if !self.qobject.is_null() { (self.begin_reset_model)(self.qobject); }");
    func
}

pub open spec fn end_reset_model_model() -> FnModel {
    FnModel::new("end_reset_model"@).vis("pub"@).mut_self().line("if !self.qobject.is_null() { (self.end_reset_model)(self.qobject); }"@)
}

/// The model function `end_reset_model`, which completes a reset if the C++ object is still there.
pub fn end_reset_model() -> (r: codegen::Function)
    ensures
        cg_fn(r) == end_reset_model_model(),
{
    let mut func = fn_new("end_reset_model");
    fn_vis(&mut func, "pub");
    fn_mut_self(&mut func);
    fn_line(&mut func, "if !self.qobject.is_null() { (self.end_reset_model)(self.qobject); }");
    func
}

pub open spec fn end_remove_rows_model() -> FnModel {
    FnModel::new("end_remove_rows"@).vis("pub"@).mut_self().line("if !self.qobject.is_null() { (self.end_remove_rows)(self.qobject); }"@)
}

/// The model function `end_remove_rows`, which completes a row removal if the C++ object is still there.
pub fn end_remove_rows() -> (r: codegen::Function)
    ensures
        cg_fn(r) == end_remove_rows_model(),
{
    let mut func = fn_new("end_remove_rows");
    fn_vis(&mut func, "pub");
    fn_mut_self(&mut func);
    fn_line(&mut func, "if !self.qobject.is_null() { (self.end_remove_rows)(self.qobject); }");
    func
}

pub open spec fn end_move_rows_model() -> FnModel {
    FnModel::new("end_move_rows"@).vis("pub"@).mut_self().line("if !self.qobject.is_null() { (self.end_move_rows)(self.qobject); }"@)
}

/// The model function `end_move_rows`, which completes a row move if the C++ object is still there.
pub fn end_move_rows() -> (r: codegen::Function)
    ensures
        cg_fn(r) == end_move_rows_model(),
{
    let mut func = fn_new("end_move_rows");
    fn_vis(&mut func, "pub");
    fn_mut_self(&mut func);
    fn_line(&mut func, "if !self.qobject.is_null() { (self.end_move_rows)(self.qobject); }");
    func
}

pub open spec fn end_insert_rows_model() -> FnModel {
    FnModel::new("end_insert_rows"@).vis("pub"@).mut_self().line("if !self.qobject.is_null() { (self.end_insert_rows)(self.qobject); }"@)
}

/// The model function `end_insert_rows`, which completes a row insertion if the C++ object is still there.
pub fn end_insert_rows() -> (r: codegen::Function)
    ensures
        cg_fn(r) == end_insert_rows_model(),
{
    let mut func = fn_new("end_insert_rows");
    fn_vis(&mut func, "pub");
    fn_mut_self(&mut func);
    fn_line(&mut func, "if !self.qobject.is_null() { (self.end_insert_rows)(self.qobject); }");
    func
}

pub open spec fn list_begin_insert_rows_model() -> FnModel {
    FnModel::new("begin_insert_rows"@).vis("pub"@).mut_self().arg("first"@, "usize"@).arg("last"@, "usize"@).line("if !self.qobject.is_null() { (self.begin_insert_rows)(self.qobject, first, last); }"@)
}

/// The model function `begin_insert_rows`, which announces a row insertion if the C++ object is still there.
pub fn list_begin_insert_rows() -> (r: codegen::Function)
    ensures
        cg_fn(r) == list_begin_insert_rows_model(),
{
    let mut func = fn_new("begin_insert_rows");
    fn_vis(&mut func, "pub");
    fn_mut_self(&mut func);
    fn_arg(&mut func, "first", "usize");
    fn_arg(&mut func, "last", "usize");
    fn_line(&mut func, "if !self.qobject.is_null() { (self.begin_insert_rows)(self.qobject, first, last); }");
    func
}

pub open spec fn list_begin_remove_rows_model() -> FnModel {
    FnModel::new("begin_remove_rows"@).vis("pub"@).mut_self().arg("first"@, "usize"@).arg("last"@, "usize"@).line("if !self.qobject.is_null() { (self.begin_remove_rows)(self.qobject, first, last); }"@)
}

/// The model function `begin_remove_rows`, which announces a row removal if the C++ object is still there.
pub fn list_begin_remove_rows() -> (r: codegen::Function)
    ensures
        cg_fn(r) == list_begin_remove_rows_model(),
{
    let mut func = fn_new("begin_remove_rows");
    fn_vis(&mut func, "pub");
    fn_mut_self(&mut func);
    fn_arg(&mut func, "first", "usize");
    fn_arg(&mut func, "last", "usize");
    fn_line(&mut func, "if !self.qobject.is_null() { (self.begin_remove_rows)(self.qobject, first, last); }");
    func
}

pub open spec fn list_begin_move_rows_model() -> FnModel {
    FnModel::new("begin_move_rows"@).vis("pub"@).mut_self().arg("first"@, "usize"@).arg("last"@, "usize"@).arg("destination"@, "usize"@).line("if !self.qobject.is_null() { (self.begin_move_rows)(self.qobject, first, last, destination); }"@)
}

/// The model function `begin_move_rows`, which announces a row move if the C++ object is still there.
pub fn list_begin_move_rows() -> (r: codegen::Function)
    ensures
        cg_fn(r) == list_begin_move_rows_model(),
{
    let mut func = fn_new("begin_move_rows");
    fn_vis(&mut func, "pub");
    fn_mut_self(&mut func);
    fn_arg(&mut func, "first", "usize");
    fn_arg(&mut func, "last", "usize");
    fn_arg(&mut func, "destination", "usize");
    fn_line(&mut func, "if !self.qobject.is_null() { (self.begin_move_rows)(self.qobject, first, last, destination); }");
    func
}

pub open spec fn list_model_def_model(o: Object) -> StructModel {
    StructModel::new((o.name@ + "List"@)).vis("pub"@).derive("Clone"@).field("pub(super) qobject"@, ("*mut "@ + spec_qobject(o.name@))).field("pub(super) layout_about_to_be_changed"@, ("fn(*mut "@ + spec_qobject(o.name@) + ")"@)).field("pub(super) layout_changed"@, ("fn(*mut "@ + spec_qobject(o.name@) + ")"@)).field("pub(super) begin_reset_model"@, ("fn(*mut "@ + spec_qobject(o.name@) + ")"@)).field("pub(super) end_reset_model"@, ("fn(*mut "@ + spec_qobject(o.name@) + ")"@)).field("pub(super) end_insert_rows"@, ("fn(*mut "@ + spec_qobject(o.name@) + ")"@)).field("pub(super) end_move_rows"@, ("fn(*mut "@ + spec_qobject(o.name@) + ")"@)).field("pub(super) end_remove_rows"@, ("fn(*mut "@ + spec_qobject(o.name@) + ")"@)).field("pub(super) begin_insert_rows"@, ("fn(*mut "@ + spec_qobject(o.name@) + ",  usize, usize)"@)).field("pub(super) begin_remove_rows"@, ("fn(*mut "@ + spec_qobject(o.name@) + ",  usize, usize)"@)).field("pub(super) data_changed"@, ("fn(*mut "@ + spec_qobject(o.name@) + ", usize, usize)"@)).field("pub(super) begin_move_rows"@, ("fn(*mut "@ + spec_qobject(o.name@) + ", usize, usize, usize)"@))
}

/// The model struct of a list: the C++ object and the callbacks that report row changes.
pub fn list_model_def(object: &Object) -> (r: codegen::Struct)
    requires
        object.object_type == ObjectType::List,
    ensures
        cg_struct(r) == list_model_def_model(*object),
{
    let qobj = qobject(object.name.as_str());
    let name = String::from_str(object.name.as_str()).concat("List");
    let mut model = struct_new(name.as_str());
    struct_vis(&mut model, "pub");
    struct_derive(&mut model, "Clone");
    struct_field(&mut model, "pub(super) qobject", String::from_str("*mut ").concat(qobj.as_str()).as_str());
    struct_field(&mut model, "pub(super) layout_about_to_be_changed", String::from_str("fn(*mut ").concat(qobj.as_str()).concat(")").as_str());
    struct_field(&mut model, "pub(super) layout_changed", String::from_str("fn(*mut ").concat(qobj.as_str()).concat(")").as_str());
    struct_field(&mut model, "pub(super) begin_reset_model", String::from_str("fn(*mut ").concat(qobj.as_str()).concat(")").as_str());
    struct_field(&mut model, "pub(super) end_reset_model", String::from_str("fn(*mut ").concat(qobj.as_str()).concat(")").as_str());
    struct_field(&mut model, "pub(super) end_insert_rows", String::from_str("fn(*mut ").concat(qobj.as_str()).concat(")").as_str());
    struct_field(&mut model, "pub(super) end_move_rows", String::from_str("fn(*mut ").concat(qobj.as_str()).concat(")").as_str());
    struct_field(&mut model, "pub(super) end_remove_rows", String::from_str("fn(*mut ").concat(qobj.as_str()).concat(")").as_str());
    struct_field(&mut model, "pub(super) begin_insert_rows", String::from_str("fn(*mut ").concat(qobj.as_str()).concat(",  usize, usize)").as_str());
    struct_field(&mut model, "pub(super) begin_remove_rows", String::from_str("fn(*mut ").concat(qobj.as_str()).concat(",  usize, usize)").as_str());
    struct_field(&mut model, "pub(super) data_changed", String::from_str("fn(*mut ").concat(qobj.as_str()).concat(", usize, usize)").as_str());
    struct_field(&mut model, "pub(super) begin_move_rows", String::from_str("fn(*mut ").concat(qobj.as_str()).concat(", usize, usize, usize)").as_str());
    model
}

/// Every item property holds a simple type (object-typed item properties are not supported by
/// the model emitters).
pub open spec fn simple_item_props(o: Object) -> bool {
    forall|i: int| 0 <= i < o.item_properties@.len() ==> (#[trigger] o.item_properties@[i]).1.item_property_type is Simple
}

pub open spec fn model_def_model(o: Object) -> StructModel {
    list_model_def_model(o)
}

/// The model struct of a list object.
pub fn model_def(object: &Object) -> (r: codegen::Struct)
    requires
        object.object_type == ObjectType::List,
        simple_item_props(*object),
    ensures
        cg_struct(r) == model_def_model(*object),
{
    list_model_def(object)
}

pub open spec fn list_model_imp_model(o: Object) -> ImplModel {
    ImplModel { target: o.name@ + "List"@, fns: seq![layout_about_to_be_changed_model(), layout_changed_model(), data_changed_model(), begin_reset_model_model(), end_reset_model_model(), end_remove_rows_model(), end_move_rows_model(), end_insert_rows_model(), list_begin_insert_rows_model(), list_begin_remove_rows_model(), list_begin_move_rows_model()] }
}

/// The impl block of a list's model type: a function per row-change callback.
pub fn list_model_imp(object: &Object, model_struct: &codegen::Struct) -> (r: codegen::Impl)
    requires
        object.object_type == ObjectType::List,
        simple_item_props(*object),
    ensures
        cg_impl(r) == list_model_imp_model(*object),
{
    let mut imp = impl_new(String::from_str(object.name.as_str()).concat("List").as_str());
    impl_push_fn(&mut imp, layout_about_to_be_changed());
    impl_push_fn(&mut imp, layout_changed());
    impl_push_fn(&mut imp, data_changed());
    impl_push_fn(&mut imp, begin_reset_model());
    impl_push_fn(&mut imp, end_reset_model());
    impl_push_fn(&mut imp, end_remove_rows());
    impl_push_fn(&mut imp, end_move_rows());
    impl_push_fn(&mut imp, end_insert_rows());
    impl_push_fn(&mut imp, list_begin_insert_rows());
    impl_push_fn(&mut imp, list_begin_remove_rows());
    impl_push_fn(&mut imp, list_begin_move_rows());
    proof {
        assert(cg_impl(imp).fns =~= list_model_imp_model(*object).fns);
    }
    imp
}

/// The impl block of a list object's model type.
pub fn model_imp(object: &Object, model_struct: &codegen::Struct) -> (r: codegen::Impl)
    requires
        object.object_type == ObjectType::List,
        simple_item_props(*object),
    ensures
        cg_impl(r) == list_model_imp_model(*object),
{
    list_model_imp(object, model_struct)
}

pub open spec fn push_model_items(items: Seq<ItemModel>, o: Object) -> Seq<ItemModel> {
    if o.object_type == ObjectType::Object {
        items
    } else {
        items.push(ItemModel::Struct(model_def_model(o))).push(ItemModel::Impl(list_model_imp_model(o)))
    }
}

/// Adds the model struct and its impl block of a list to the scope; an object has none.
pub fn push_model(scope: &mut codegen::Scope, object: &Object)
    requires
        object.object_type != ObjectType::Tree,
        simple_item_props(*object),
    ensures
        cg_scope(*final(scope)) == push_model_items(cg_scope(*old(scope)), *object),
{
    if object.object_type == ObjectType::Object {
        return;
    }
    let model = model_def(object);
    let imp = model_imp(object, &model);
    scope_push_struct(scope, model);
    scope_push_impl(scope, imp);
}

} // verus!

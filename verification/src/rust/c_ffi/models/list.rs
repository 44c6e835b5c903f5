//! The C functions through which Qt's model calls reach the Rust model: row counts, row
//! insertion and removal, fetching and sorting (and the lookups of a tree's rows).

use crate::configuration::Object;
use crate::rust::cg::{block_line, block_new, block_push_block, cg_fn, fn_arg, fn_attr, fn_extern_abi, fn_line, fn_new, fn_push_block, fn_ret, fn_vis, BlockModel, FnModel};
use crate::text::{snake, snake_case};
use vstd::prelude::*;
use vstd::string::*;

verus! {

/// A C function `<object>_<suffix>` with the usual attributes, before its arguments.
pub open spec fn c_fn_head(o: Object, suffix: Seq<char>) -> FnModel {
    FnModel::new(snake(o.name@) + suffix).abi("C"@).attr("no_mangle"@).vis("pub unsafe"@)
}

/// Starts a C function `<object>_<suffix>` with the usual attributes.
pub fn c_fn(object: &Object, suffix: &str) -> (r: codegen::Function)
    ensures
        cg_fn(r) == c_fn_head(*object, suffix@),
{
    let mut func = fn_new(snake_case(object.name.as_str()).concat(suffix).as_str());
    fn_extern_abi(&mut func, "C");
    fn_attr(&mut func, "no_mangle");
    fn_vis(&mut func, "pub unsafe");
    func
}

pub open spec fn row_count_model(o: Object) -> FnModel {
    c_fn_head(o, "_row_count"@).arg("ptr"@, "*const "@ + o.name@).arg("index"@, "COption<usize>"@).ret("c_int"@).line(
        "to_c_int((&*ptr).row_count(index.into()))"@,
    )
}

/// `<object>_row_count`.
pub fn row_count(object: &Object) -> (r: codegen::Function)
    ensures
        cg_fn(r) == row_count_model(*object),
{
    let mut func = c_fn(object, "_row_count");
    fn_arg(&mut func, "ptr", String::from_str("*const ").concat(object.name.as_str()).as_str());
    fn_arg(&mut func, "index", "COption<usize>");
    fn_ret(&mut func, "c_int");
    fn_line(&mut func, "to_c_int((&*ptr).row_count(index.into()))");
    func
}

/// The body shared by row insertion and removal: the call runs only when both numbers fit.
pub open spec fn rows_match_model(call: Seq<char>) -> BlockModel {
    BlockModel::new("match (to_usize(row), to_usize(count))"@).line("(Some(row), Some(count)) => "@).block(
        BlockModel::new(""@).line(call),
    ).line("_ => false"@)
}

pub open spec fn rows_fn_model(o: Object, suffix: Seq<char>, call: Seq<char>) -> FnModel {
    c_fn_head(o, suffix).arg("ptr"@, "*mut "@ + o.name@).arg("row"@, "c_int"@).arg("count"@, "c_int"@).ret("bool"@).block(
        rows_match_model(call),
    )
}

/// A C function that inserts or removes rows, by the Rust call `call`.
pub fn rows_fn(object: &Object, suffix: &str, call: &str) -> (r: codegen::Function)
    ensures
        cg_fn(r) == rows_fn_model(*object, suffix@, call@),
{
    let mut func = c_fn(object, suffix);
    fn_arg(&mut func, "ptr", String::from_str("*mut ").concat(object.name.as_str()).as_str());
    fn_arg(&mut func, "row", "c_int");
    fn_arg(&mut func, "count", "c_int");
    fn_ret(&mut func, "bool");
    let mut match_block = block_new("match (to_usize(row), to_usize(count))");
    block_line(&mut match_block, "(Some(row), Some(count)) => ");
    let mut inner = block_new("");
    block_line(&mut inner, call);
    block_push_block(&mut match_block, inner);
    block_line(&mut match_block, "_ => false");
    fn_push_block(&mut func, match_block);
    func
}

/// `<object>_insert_rows`.
pub fn insert_rows(object: &Object) -> (r: codegen::Function)
    ensures
        cg_fn(r) == rows_fn_model(*object, "_insert_rows"@, "(&mut *ptr).insert_rows(row, count)"@),
{
    rows_fn(object, "_insert_rows", "(&mut *ptr).insert_rows(row, count)")
}

/// `<object>_remove_rows`.
pub fn remove_rows(object: &Object) -> (r: codegen::Function)
    ensures
        cg_fn(r) == rows_fn_model(*object, "_remove_rows"@, "(&mut *ptr).remove_rows(row, count)"@),
{
    rows_fn(object, "_remove_rows", "(&mut *ptr).remove_rows(row, count)")
}

pub open spec fn can_fetch_more_model(o: Object) -> FnModel {
    c_fn_head(o, "_can_fetch_more"@).arg("ptr"@, "*const "@ + o.name@).arg("index"@, "COption<usize>"@).ret("bool"@).line(
        "(&*ptr).can_fetch_more(index.into())"@,
    )
}

/// `<object>_can_fetch_more`.
pub fn can_fetch_more(object: &Object) -> (r: codegen::Function)
    ensures
        cg_fn(r) == can_fetch_more_model(*object),
{
    let mut func = c_fn(object, "_can_fetch_more");
    fn_arg(&mut func, "ptr", String::from_str("*const ").concat(object.name.as_str()).as_str());
    fn_arg(&mut func, "index", "COption<usize>");
    fn_ret(&mut func, "bool");
    fn_line(&mut func, "(&*ptr).can_fetch_more(index.into())");
    func
}

pub open spec fn fetch_more_model(o: Object) -> FnModel {
    c_fn_head(o, "_fetch_more"@).arg("ptr"@, "*mut "@ + o.name@).arg("index"@, "COption<usize>"@).line(
        "(&mut *ptr).fetch_more(index.into())"@,
    )
}

/// `<object>_fetch_more`.
pub fn fetch_more(object: &Object) -> (r: codegen::Function)
    ensures
        cg_fn(r) == fetch_more_model(*object),
{
    let mut func = c_fn(object, "_fetch_more");
    fn_arg(&mut func, "ptr", String::from_str("*mut ").concat(object.name.as_str()).as_str());
    fn_arg(&mut func, "index", "COption<usize>");
    fn_line(&mut func, "(&mut *ptr).fetch_more(index.into())");
    func
}

pub open spec fn sort_model(o: Object) -> FnModel {
    c_fn_head(o, "_sort"@).arg("ptr"@, "*mut "@ + o.name@).arg("column"@, "u8"@).arg("order"@, "SortOrder"@).line(
        "(&mut *ptr).sort(column, order)"@,
    )
}

/// `<object>_sort`.
pub fn sort(object: &Object) -> (r: codegen::Function)
    ensures
        cg_fn(r) == sort_model(*object),
{
    let mut func = c_fn(object, "_sort");
    fn_arg(&mut func, "ptr", String::from_str("*mut ").concat(object.name.as_str()).as_str());
    fn_arg(&mut func, "column", "u8");
    fn_arg(&mut func, "order", "SortOrder");
    fn_line(&mut func, "(&mut *ptr).sort(column, order)");
    func
}

pub open spec fn check_row_model(o: Object) -> FnModel {
    c_fn_head(o, "_check_row"@).arg("ptr"@, "*mut "@ + o.name@).arg("index"@, "usize"@).arg("row"@, "c_int"@).ret("bool"@).block(
        BlockModel::new("match to_usize(row)"@).line("Some(row) => (&*ptr).check_row(index, row).into(),"@).line(
            "other => other.into(),"@,
        ),
    )
}

/// `<object>_check_row` of a tree.
pub fn check_row(object: &Object) -> (r: codegen::Function)
    ensures
        cg_fn(r) == check_row_model(*object),
{
    let mut func = c_fn(object, "_check_row");
    fn_arg(&mut func, "ptr", String::from_str("*mut ").concat(object.name.as_str()).as_str());
    fn_arg(&mut func, "index", "usize");
    fn_arg(&mut func, "row", "c_int");
    fn_ret(&mut func, "bool");
    let mut block = block_new("match to_usize(row)");
    block_line(&mut block, "Some(row) => (&*ptr).check_row(index, row).into(),");
    block_line(&mut block, "other => other.into(),");
    fn_push_block(&mut func, block);
    func
}

pub open spec fn index_model(o: Object) -> FnModel {
    c_fn_head(o, "_check_row"@).arg("ptr"@, "*const "@ + o.name@).ret("usize"@).line(
        "(&*ptr).index(index.into(), to_usize(row).unwrap_or(0))"@,
    )
}

/// The index lookup of a tree (it is emitted under the name `<object>_check_row`).
pub fn index(object: &Object) -> (r: codegen::Function)
    ensures
        cg_fn(r) == index_model(*object),
{
    let mut func = c_fn(object, "_check_row");
    fn_arg(&mut func, "ptr", String::from_str("*const ").concat(object.name.as_str()).as_str());
    fn_ret(&mut func, "usize");
    fn_line(&mut func, "(&*ptr).index(index.into(), to_usize(row).unwrap_or(0))");
    func
}

pub open spec fn parent_body() -> Seq<char> {
    "\n    if let Some(parent) = (&*ptr).parent(index) {\n        QModelIndex {\n            row: to_c_int((&*ptr).row(parent)),\n            internal_id: parent,\n        }\n    } else {\n        QModelIndex {\n            row: -1,\n            internal_id: 0,\n        }\n    }\n    "@
}

pub open spec fn parent_model(o: Object) -> FnModel {
    c_fn_head(o, "_parent"@).arg("ptr"@, "*const "@ + o.name@).arg("index"@, "usize"@).ret("QModelIndex"@).line(parent_body())
}

/// `<object>_parent` of a tree: the parent's row and id, or row -1 at the top.
pub fn parent(object: &Object) -> (r: codegen::Function)
    ensures
        cg_fn(r) == parent_model(*object),
{
    let mut func = c_fn(object, "_parent");
    fn_arg(&mut func, "ptr", String::from_str("*const ").concat(object.name.as_str()).as_str());
    fn_arg(&mut func, "index", "usize");
    fn_ret(&mut func, "QModelIndex");
    fn_line(
        &mut func,
        "\n    if let Some(parent) = (&*ptr).parent(index) {\n        QModelIndex {\n            row: to_c_int((&*ptr).row(parent)),\n            internal_id: parent,\n        }\n    } else {\n        QModelIndex {\n            row: -1,\n            internal_id: 0,\n        }\n    }\n    ",
    );
    func
}

pub open spec fn row_model(o: Object) -> FnModel {
    c_fn_head(o, "_parent"@).arg("ptr"@, "*const "@ + o.name@).arg("index"@, "usize"@).ret("c_int"@)
}

/// The row lookup of a tree (it is emitted under the name `<object>_parent`, with no body).
pub fn row(object: &Object) -> (r: codegen::Function)
    ensures
        cg_fn(r) == row_model(*object),
{
    let mut func = c_fn(object, "_parent");
    fn_arg(&mut func, "ptr", String::from_str("*const ").concat(object.name.as_str()).as_str());
    fn_arg(&mut func, "index", "usize");
    fn_ret(&mut func, "c_int");
    func
}

} // verus!

//! The Rust side of the bindings is rendered by the `codegen` crate. This module declares its
//! builder types to Verus and describes what each builder holds as a plain model; every call
//! into `codegen` goes through one of the trusted functions below.

use vstd::prelude::*;

verus! {

#[verifier::external_type_specification]
#[verifier::external_body]
pub struct ExCgFunction(codegen::Function);

#[verifier::external_type_specification]
#[verifier::external_body]
pub struct ExCgBlock(codegen::Block);

#[verifier::external_type_specification]
#[verifier::external_body]
pub struct ExCgStruct(codegen::Struct);

#[verifier::external_type_specification]
#[verifier::external_body]
pub struct ExCgImpl(codegen::Impl);

#[verifier::external_type_specification]
#[verifier::external_body]
pub struct ExCgTrait(codegen::Trait);

#[verifier::external_type_specification]
#[verifier::external_body]
pub struct ExCgScope(codegen::Scope);


/// An entry of a function or block body: a line, or a nested block.
pub enum BodyModel {
    Line(Seq<char>),
    Nested(BlockModel),
}

/// What a `codegen::Block` holds: the text before `{`, the text after `}`, and its body.
pub struct BlockModel {
    pub before: Seq<char>,
    pub after: Option<Seq<char>>,
    pub body: Seq<BodyModel>,
}

/// What a `codegen::Function` holds. `body` is `None` for a trait method declared without one.
pub struct FnModel {
    pub name: Seq<char>,
    pub doc: Option<Seq<char>>,
    pub vis: Option<Seq<char>>,
    pub generics: Seq<Seq<char>>,
    pub self_arg: Option<Seq<char>>,
    pub args: Seq<(Seq<char>, Seq<char>)>,
    pub ret: Option<Seq<char>>,
    pub bounds: Seq<(Seq<char>, Seq<char>)>,
    pub body: Option<Seq<BodyModel>>,
    pub attrs: Seq<Seq<char>>,
    pub abi: Option<Seq<char>>,
}

/// What a `codegen::Struct` holds.
pub struct StructModel {
    pub name: Seq<char>,
    pub vis: Option<Seq<char>>,
    pub derives: Seq<Seq<char>>,
    pub repr: Option<Seq<char>>,
    pub fields: Seq<(Seq<char>, Seq<char>)>,
}

/// What a `codegen::Impl` holds: the implemented type and the functions.
pub struct ImplModel {
    pub target: Seq<char>,
    pub fns: Seq<FnModel>,
}

/// What a `codegen::Trait` holds.
pub struct TraitModel {
    pub name: Seq<char>,
    pub vis: Option<Seq<char>>,
    pub fns: Seq<FnModel>,
}

/// An item of a `codegen::Scope`.
pub enum ItemModel {
    Struct(StructModel),
    Function(FnModel),
    Trait(TraitModel),
    Impl(ImplModel),
}

impl BlockModel {
    pub open spec fn new(before: Seq<char>) -> BlockModel {
        BlockModel { before, after: None, body: Seq::empty() }
    }

    pub open spec fn line(self, l: Seq<char>) -> BlockModel {
        BlockModel { body: self.body.push(BodyModel::Line(l)), ..self }
    }

    pub open spec fn block(self, b: BlockModel) -> BlockModel {
        BlockModel { body: self.body.push(BodyModel::Nested(b)), ..self }
    }

    pub open spec fn after(self, a: Seq<char>) -> BlockModel {
        BlockModel { after: Some(a), ..self }
    }
}

impl FnModel {
    pub open spec fn new(name: Seq<char>) -> FnModel {
        FnModel {
            name,
            doc: None,
            vis: None,
            generics: Seq::empty(),
            self_arg: None,
            args: Seq::empty(),
            ret: None,
            bounds: Seq::empty(),
            body: Some(Seq::empty()),
            attrs: Seq::empty(),
            abi: None,
        }
    }

    /// A trait method declaration: a function without a body.
    pub open spec fn decl(name: Seq<char>) -> FnModel {
        FnModel { body: None, ..FnModel::new(name) }
    }

    pub open spec fn doc(self, d: Seq<char>) -> FnModel {
        FnModel { doc: Some(d), ..self }
    }

    pub open spec fn vis(self, v: Seq<char>) -> FnModel {
        FnModel { vis: Some(v), ..self }
    }

    pub open spec fn generic(self, g: Seq<char>) -> FnModel {
        FnModel { generics: self.generics.push(g), ..self }
    }

    pub open spec fn ref_self(self) -> FnModel {
        FnModel { self_arg: Some("&self"@), ..self }
    }

    pub open spec fn mut_self(self) -> FnModel {
        FnModel { self_arg: Some("&mut self"@), ..self }
    }

    pub open spec fn arg(self, name: Seq<char>, ty: Seq<char>) -> FnModel {
        FnModel { args: self.args.push((name, ty)), ..self }
    }

    pub open spec fn ret(self, ty: Seq<char>) -> FnModel {
        FnModel { ret: Some(ty), ..self }
    }

    pub open spec fn bound(self, name: Seq<char>, ty: Seq<char>) -> FnModel {
        FnModel { bounds: self.bounds.push((name, ty)), ..self }
    }

    pub open spec fn body_or_empty(self) -> Seq<BodyModel> {
        match self.body {
            Some(b) => b,
            None => Seq::empty(),
        }
    }

    pub open spec fn line(self, l: Seq<char>) -> FnModel {
        FnModel { body: Some(self.body_or_empty().push(BodyModel::Line(l))), ..self }
    }

    pub open spec fn block(self, b: BlockModel) -> FnModel {
        FnModel { body: Some(self.body_or_empty().push(BodyModel::Nested(b))), ..self }
    }

    pub open spec fn attr(self, a: Seq<char>) -> FnModel {
        FnModel { attrs: self.attrs.push(a), ..self }
    }

    pub open spec fn abi(self, a: Seq<char>) -> FnModel {
        FnModel { abi: Some(a), ..self }
    }
}

impl StructModel {
    pub open spec fn new(name: Seq<char>) -> StructModel {
        StructModel { name, vis: None, derives: Seq::empty(), repr: None, fields: Seq::empty() }
    }

    pub open spec fn vis(self, v: Seq<char>) -> StructModel {
        StructModel { vis: Some(v), ..self }
    }

    pub open spec fn derive(self, d: Seq<char>) -> StructModel {
        StructModel { derives: self.derives.push(d), ..self }
    }

    pub open spec fn repr(self, r: Seq<char>) -> StructModel {
        StructModel { repr: Some(r), ..self }
    }

    pub open spec fn field(self, name: Seq<char>, ty: Seq<char>) -> StructModel {
        StructModel { fields: self.fields.push((name, ty)), ..self }
    }
}

/// `g` has the name, ABI, attributes and visibility of `f`.
pub open spec fn same_head(f: FnModel, g: FnModel) -> bool {
    &&& g.name == f.name
    &&& g.abi == f.abi
    &&& g.attrs == f.attrs
    &&& g.vis == f.vis
}

/// What a `codegen::Function` value holds.
pub uninterp spec fn cg_fn(f: codegen::Function) -> FnModel;

/// What a `codegen::Block` value holds.
pub uninterp spec fn cg_block(b: codegen::Block) -> BlockModel;

/// What a `codegen::Struct` value holds.
pub uninterp spec fn cg_struct(s: codegen::Struct) -> StructModel;

/// What a `codegen::Impl` value holds.
pub uninterp spec fn cg_impl(i: codegen::Impl) -> ImplModel;

/// What a `codegen::Trait` value holds.
pub uninterp spec fn cg_trait(t: codegen::Trait) -> TraitModel;

/// The items of a `codegen::Scope`, in the order they were pushed.
pub uninterp spec fn cg_scope(s: codegen::Scope) -> Seq<ItemModel>;


/// Whether `codegen` renders the item without panicking: it panics on a function outside a
/// trait that has no body, and on a trait function with a visibility.
pub open spec fn item_renderable(item: ItemModel) -> bool {
    match item {
        ItemModel::Function(f) => f.body is Some,
        ItemModel::Impl(imp) => forall|j: int| 0 <= j < imp.fns.len() ==> (#[trigger] imp.fns[j]).body is Some,
        ItemModel::Trait(t) => forall|j: int| 0 <= j < t.fns.len() ==> (#[trigger] t.fns[j]).vis is None,
        ItemModel::Struct(_) => true,
    }
}

/// Whether `codegen` renders every item of a scope without panicking.
pub open spec fn renderable(items: Seq<ItemModel>) -> bool {
    forall|i: int| 0 <= i < items.len() ==> item_renderable(#[trigger] items[i])
}

/// The Rust source that `codegen::Scope::to_string` renders for a scope with these items.
pub uninterp spec fn rust_source(items: Seq<ItemModel>) -> Seq<char>;

/// `codegen::Function::new`: a function with the given name, no arguments and an empty body.
#[verifier::external_body]
pub(crate) fn fn_new(name: &str) -> (r: codegen::Function)
    ensures
        cg_fn(r) == FnModel::new(name@),
{
    codegen::Function::new(name)
}

/// A trait method declaration as `codegen::Trait::new_fn` makes it: `codegen::Function::new` with the
/// body taken away (the crate's `body` field is public).
#[verifier::external_body]
pub(crate) fn fn_decl(name: &str) -> (r: codegen::Function)
    ensures
        cg_fn(r) == FnModel::decl(name@),
{
    let mut f = codegen::Function::new(name);
    f.body = None;
    f
}

/// `codegen::Function::doc`: sets the documentation.
#[verifier::external_body]
pub(crate) fn fn_doc(f: &mut codegen::Function, doc: &str)
    ensures
        cg_fn(*final(f)) == cg_fn(*old(f)).doc(doc@),
{
    f.doc(doc);
}

/// `codegen::Function::vis`: sets the visibility.
#[verifier::external_body]
pub(crate) fn fn_vis(f: &mut codegen::Function, vis: &str)
    ensures
        cg_fn(*final(f)) == cg_fn(*old(f)).vis(vis@),
{
    f.vis(vis);
}

/// `codegen::Function::generic`: adds a generic parameter.
#[verifier::external_body]
pub(crate) fn fn_generic(f: &mut codegen::Function, name: &str)
    ensures
        cg_fn(*final(f)) == cg_fn(*old(f)).generic(name@),
{
    f.generic(name);
}

/// `codegen::Function::arg_ref_self`: takes `&self`.
#[verifier::external_body]
pub(crate) fn fn_ref_self(f: &mut codegen::Function)
    ensures
        cg_fn(*final(f)) == cg_fn(*old(f)).ref_self(),
{
    f.arg_ref_self();
}

/// `codegen::Function::arg_mut_self`: takes `&mut self`.
#[verifier::external_body]
pub(crate) fn fn_mut_self(f: &mut codegen::Function)
    ensures
        cg_fn(*final(f)) == cg_fn(*old(f)).mut_self(),
{
    f.arg_mut_self();
}

/// `codegen::Function::arg`: adds an argument of the given type.
#[verifier::external_body]
pub(crate) fn fn_arg(f: &mut codegen::Function, name: &str, ty: &str)
    ensures
        cg_fn(*final(f)) == cg_fn(*old(f)).arg(name@, ty@),
{
    f.arg(name, ty);
}

/// `codegen::Function::ret`: sets the return type.
#[verifier::external_body]
pub(crate) fn fn_ret(f: &mut codegen::Function, ty: &str)
    ensures
        cg_fn(*final(f)) == cg_fn(*old(f)).ret(ty@),
{
    f.ret(ty);
}

/// `codegen::Function::bound`: adds a `where` bound.
#[verifier::external_body]
pub(crate) fn fn_bound(f: &mut codegen::Function, name: &str, ty: &str)
    ensures
        cg_fn(*final(f)) == cg_fn(*old(f)).bound(name@, ty@),
{
    f.bound(name, ty);
}

/// `codegen::Function::line`: adds a line to the body (creating the body if there is none).
#[verifier::external_body]
pub(crate) fn fn_line(f: &mut codegen::Function, line: &str)
    ensures
        cg_fn(*final(f)) == cg_fn(*old(f)).line(line@),
{
    f.line(line);
}

/// `codegen::Function::push_block`: adds a nested block to the body.
#[verifier::external_body]
pub(crate) fn fn_push_block(f: &mut codegen::Function, block: codegen::Block)
    ensures
        cg_fn(*final(f)) == cg_fn(*old(f)).block(cg_block(block)),
{
    f.push_block(block);
}

/// `codegen::Function::attr`: adds an attribute.
#[verifier::external_body]
pub(crate) fn fn_attr(f: &mut codegen::Function, attr: &str)
    ensures
        cg_fn(*final(f)) == cg_fn(*old(f)).attr(attr@),
{
    f.attr(attr);
}

/// `codegen::Function::extern_abi`: sets the `extern` ABI.
#[verifier::external_body]
pub(crate) fn fn_extern_abi(f: &mut codegen::Function, abi: &str)
    ensures
        cg_fn(*final(f)) == cg_fn(*old(f)).abi(abi@),
{
    f.extern_abi(abi);
}

/// `codegen::Block::new`: an empty block written after `before`.
#[verifier::external_body]
pub(crate) fn block_new(before: &str) -> (r: codegen::Block)
    ensures
        cg_block(r) == BlockModel::new(before@),
{
    codegen::Block::new(before)
}

/// `codegen::Block::line`: adds a line.
#[verifier::external_body]
pub(crate) fn block_line(b: &mut codegen::Block, line: &str)
    ensures
        cg_block(*final(b)) == cg_block(*old(b)).line(line@),
{
    b.line(line);
}

/// `codegen::Block::push_block`: adds a nested block.
#[verifier::external_body]
pub(crate) fn block_push_block(b: &mut codegen::Block, inner: codegen::Block)
    ensures
        cg_block(*final(b)) == cg_block(*old(b)).block(cg_block(inner)),
{
    b.push_block(inner);
}

/// `codegen::Block::after`: sets the text after the closing brace.
#[verifier::external_body]
pub(crate) fn block_after(b: &mut codegen::Block, after: &str)
    ensures
        cg_block(*final(b)) == cg_block(*old(b)).after(after@),
{
    b.after(after);
}

/// `codegen::Struct::new`: a struct with the given name and no fields.
#[verifier::external_body]
pub(crate) fn struct_new(name: &str) -> (r: codegen::Struct)
    ensures
        cg_struct(r) == StructModel::new(name@),
{
    codegen::Struct::new(name)
}

/// `codegen::Struct::vis`: sets the visibility.
#[verifier::external_body]
pub(crate) fn struct_vis(s: &mut codegen::Struct, vis: &str)
    ensures
        cg_struct(*final(s)) == cg_struct(*old(s)).vis(vis@),
{
    s.vis(vis);
}

/// `codegen::Struct::derive`: adds a derive.
#[verifier::external_body]
pub(crate) fn struct_derive(s: &mut codegen::Struct, name: &str)
    ensures
        cg_struct(*final(s)) == cg_struct(*old(s)).derive(name@),
{
    s.derive(name);
}

/// `codegen::Struct::repr`: sets the representation.
#[verifier::external_body]
pub(crate) fn struct_repr(s: &mut codegen::Struct, repr: &str)
    ensures
        cg_struct(*final(s)) == cg_struct(*old(s)).repr(repr@),
{
    s.repr(repr);
}

/// `codegen::Struct::field`: adds a named field of the given type.
#[verifier::external_body]
pub(crate) fn struct_field(s: &mut codegen::Struct, name: &str, ty: &str)
    ensures
        cg_struct(*final(s)) == cg_struct(*old(s)).field(name@, ty@),
{
    s.field(name, ty);
}

/// `codegen::Impl::new`: an impl block for the type of the given name, without functions.
#[verifier::external_body]
pub(crate) fn impl_new(target: &str) -> (r: codegen::Impl)
    ensures
        cg_impl(r) == (ImplModel { target: target@, fns: Seq::empty() }),
{
    codegen::Impl::new(target)
}

/// `codegen::Impl::push_fn`: adds a function.
#[verifier::external_body]
pub(crate) fn impl_push_fn(i: &mut codegen::Impl, f: codegen::Function)
    ensures
        cg_impl(*final(i)) == (ImplModel { fns: cg_impl(*old(i)).fns.push(cg_fn(f)), ..cg_impl(*old(i)) }),
{
    i.push_fn(f);
}

/// `codegen::Trait::new`: a trait with the given name and no functions.
#[verifier::external_body]
pub(crate) fn trait_new(name: &str) -> (r: codegen::Trait)
    ensures
        cg_trait(r) == (TraitModel { name: name@, vis: None, fns: Seq::empty() }),
{
    codegen::Trait::new(name)
}

/// `codegen::Trait::vis`: sets the visibility.
#[verifier::external_body]
pub(crate) fn trait_vis(t: &mut codegen::Trait, vis: &str)
    ensures
        cg_trait(*final(t)) == (TraitModel { vis: Some(vis@), ..cg_trait(*old(t)) }),
{
    t.vis(vis);
}

/// `codegen::Trait::push_fn`: adds a function.
#[verifier::external_body]
pub(crate) fn trait_push_fn(t: &mut codegen::Trait, f: codegen::Function)
    ensures
        cg_trait(*final(t)) == (TraitModel { fns: cg_trait(*old(t)).fns.push(cg_fn(f)), ..cg_trait(*old(t)) }),
{
    t.push_fn(f);
}

/// `codegen::Scope::new`: an empty scope.
#[verifier::external_body]
pub(crate) fn scope_new() -> (r: codegen::Scope)
    ensures
        cg_scope(r) == Seq::<ItemModel>::empty(),
{
    codegen::Scope::new()
}

/// `codegen::Scope::push_struct`: adds a struct.
#[verifier::external_body]
pub(crate) fn scope_push_struct(scope: &mut codegen::Scope, s: codegen::Struct)
    ensures
        cg_scope(*final(scope)) == cg_scope(*old(scope)).push(ItemModel::Struct(cg_struct(s))),
{
    scope.push_struct(s);
}

/// `codegen::Scope::push_impl`: adds an impl block.
#[verifier::external_body]
pub(crate) fn scope_push_impl(scope: &mut codegen::Scope, i: codegen::Impl)
    ensures
        cg_scope(*final(scope)) == cg_scope(*old(scope)).push(ItemModel::Impl(cg_impl(i))),
{
    scope.push_impl(i);
}

/// `codegen::Scope::push_trait`: adds a trait.
#[verifier::external_body]
pub(crate) fn scope_push_trait(scope: &mut codegen::Scope, t: codegen::Trait)
    ensures
        cg_scope(*final(scope)) == cg_scope(*old(scope)).push(ItemModel::Trait(cg_trait(t))),
{
    scope.push_trait(t);
}

/// `codegen::Scope::push_fn`: adds a function.
#[verifier::external_body]
pub(crate) fn scope_push_fn(scope: &mut codegen::Scope, f: codegen::Function)
    ensures
        cg_scope(*final(scope)) == cg_scope(*old(scope)).push(ItemModel::Function(cg_fn(f))),
{
    scope.push_fn(f);
}

/// `codegen::Scope::to_string`: the rendered source, which is the name `rust_source` of the
/// scope's items; how `codegen` formats items is not stated. The scope must not hold an item
/// on which `codegen`'s formatting panics.
#[verifier::external_body]
pub(crate) fn scope_to_string(scope: &codegen::Scope) -> (r: String)
    requires
        renderable(cg_scope(*scope)),
    ensures
        r@ == rust_source(cg_scope(*scope)),
{
    scope.to_string()
}

} // verus!

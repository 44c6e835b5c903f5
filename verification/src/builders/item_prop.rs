//! A builder for item properties.

use crate::configuration::{ItemProperty, SimpleType, Type};
use vstd::prelude::*;

verus! {

/// An item property under construction. Its type must be chosen before it is built.
#[derive(Default)]
pub struct ItemProp {
    item_property_type: Option<Type>,
    optional: bool,
    roles: Vec<Vec<String>>,
    rust_by_value: bool,
    write: bool,
}

/// What an `ItemProp` holds so far.
pub struct ItemPropView {
    pub item_property_type: Option<Type>,
    pub optional: bool,
    pub roles: Seq<Vec<String>>,
    pub rust_by_value: bool,
    pub write: bool,
}

impl View for ItemProp {
    type V = ItemPropView;

    closed spec fn view(&self) -> ItemPropView {
        ItemPropView {
            item_property_type: self.item_property_type,
            optional: self.optional,
            roles: self.roles@,
            rust_by_value: self.rust_by_value,
            write: self.write,
        }
    }
}

impl ItemProp {
    /// A builder with no type yet, one empty role list, and every flag off.
    pub fn new() -> (r: Self)
        ensures
            r@.item_property_type is None,
            !r@.optional,
            !r@.rust_by_value,
            !r@.write,
            r@.roles.len() == 1,
            r@.roles[0]@.len() == 0,
    {
        let mut roles: Vec<Vec<String>> = Vec::new();
        roles.push(Vec::new());
        Self { optional: false, rust_by_value: false, write: false, roles, item_property_type: None }
    }

    /// Sets the type to the simple type `item_property_type`.
    pub fn simple(self, item_property_type: SimpleType) -> (r: Self)
        ensures
            r@ == (ItemPropView { item_property_type: Some(Type::Simple(item_property_type)), ..self@ }),
    {
        let mut s = self;
        s.item_property_type = Some(Type::Simple(item_property_type));
        s
    }

    /// Sets the type to `item_property_type` (which, like `simple`, is a simple type).
    pub fn object(self, item_property_type: SimpleType) -> (r: Self)
        ensures
            r@ == (ItemPropView { item_property_type: Some(Type::Simple(item_property_type)), ..self@ }),
    {
        let mut s = self;
        s.item_property_type = Some(Type::Simple(item_property_type));
        s
    }

    /// Makes the item property optional.
    pub fn optional(self) -> (r: Self)
        ensures
            r@ == (ItemPropView { optional: true, ..self@ }),
    {
        let mut s = self;
        s.optional = true;
        s
    }

    /// Makes the Rust getter return the value rather than a reference.
    pub fn get_by_value(self) -> (r: Self)
        ensures
            r@ == (ItemPropView { rust_by_value: true, ..self@ }),
    {
        let mut s = self;
        s.rust_by_value = true;
        s
    }

    /// Makes the item property writable.
    pub fn write(self) -> (r: Self)
        ensures
            r@ == (ItemPropView { write: true, ..self@ }),
    {
        let mut s = self;
        s.write = true;
        s
    }

    /// The item property with the chosen type, flags and roles.
    pub fn build(self) -> (r: ItemProperty)
        requires
            self@.item_property_type is Some,
        ensures
            r.item_property_type == self@.item_property_type->0,
            r.optional == self@.optional,
            r.rust_by_value == self@.rust_by_value,
            r.write == self@.write,
            r.roles@ == self@.roles,
    {
        let ItemProp { item_property_type, rust_by_value, optional, write, roles } = self;
        ItemProperty { optional, rust_by_value, write, item_property_type: item_property_type.unwrap(), roles }
    }
}

} // verus!

//! Names and Rust type spellings shared by the Rust emitters.

use crate::configuration::{ItemProperty, Property};
use crate::text::str_eq;
use vstd::prelude::*;
use vstd::string::*;

verus! {

pub open spec fn spec_qobject(name: Seq<char>) -> Seq<char> {
    name + "QObject"@
}

pub open spec fn spec_emitter(name: Seq<char>) -> Seq<char> {
    name + "Emitter"@
}

/// The name of the Rust type that stands for the C++ object.
pub fn qobject(name: &str) -> (r: String)
    ensures
        r@ == spec_qobject(name@),
{
    String::from_str(name).concat("QObject")
}

/// The name of the Rust type through which the implementation emits the object's signals.
pub fn emitter(name: &str) -> (r: String)
    ensures
        r@ == spec_emitter(name@),
{
    String::from_str(name).concat("Emitter")
}

pub open spec fn spec_rust_type(p: Property) -> Seq<char> {
    if p.optional {
        "Option<"@ + p.property_type.spec_rust_type() + ">"@
    } else {
        p.property_type.spec_rust_type()
    }
}

/// The Rust type of a property's value.
pub fn rust_type(p: &Property) -> (r: String)
    ensures
        r@ == spec_rust_type(*p),
{
    if p.optional {
        return String::from_str("Option<").concat(p.property_type.rust_type()).concat(">");
    }
    String::from_str(p.property_type.rust_type())
}

pub open spec fn spec_item_rust_type(p: ItemProperty) -> Seq<char> {
    if p.optional {
        "Option<"@ + p.item_property_type.spec_rust_type() + ">"@
    } else {
        p.item_property_type.spec_rust_type()
    }
}

/// The Rust type of an item property's value.
pub fn rust_type_(p: &ItemProperty) -> (r: String)
    ensures
        r@ == spec_item_rust_type(*p),
{
    if p.optional {
        return String::from_str("Option<").concat(p.item_property_type.rust_type()).concat(">");
    }
    String::from_str(p.item_property_type.rust_type())
}

pub open spec fn spec_rust_return_type(p: Property) -> Seq<char> {
    let t = p.property_type.spec_rust_type();
    let t1 = if t == "String"@ {
        if p.rust_by_value { "String"@ } else { "&str"@ }
    } else {
        t
    };
    let t2 = if t1 == "Vec<u8>"@ {
        if p.rust_by_value { "Vec<u8>"@ } else { "&[u8]"@ }
    } else {
        t1
    };
    if p.optional {
        "Option<"@ + t2 + ">"@
    } else {
        t2
    }
}

/// The Rust type that a property's getter returns: strings and byte arrays are borrowed
/// unless the property is read by value.
pub fn rust_return_type(p: &Property) -> (r: String)
    ensures
        r@ == spec_rust_return_type(*p),
{
    let value = p.rust_by_value;
    let mut type_: String = String::from_str(p.property_type.rust_type());
    if str_eq(type_.as_str(), "String") {
        type_ = if value { String::from_str("String") } else { String::from_str("&str") };
    }
    if str_eq(type_.as_str(), "Vec<u8>") {
        type_ = if value { String::from_str("Vec<u8>") } else { String::from_str("&[u8]") };
    }
    if p.optional {
        return String::from_str("Option<").concat(type_.as_str()).concat(">");
    }
    type_
}

pub open spec fn spec_item_rust_return_type(p: ItemProperty) -> Seq<char> {
    let t = p.item_property_type.spec_rust_type();
    let t1 = if t == "String"@ && !p.rust_by_value { "str"@ } else { t };
    let t2 = if t1 == "Vec<u8>"@ && !p.rust_by_value { "[u8]"@ } else { t1 };
    let t3 = if p.item_property_type.spec_is_complex() && !p.rust_by_value { "&"@ + t2 } else { t2 };
    if p.optional {
        "Option<"@ + t3 + ">"@
    } else {
        t3
    }
}

/// The Rust type that an item property's row getter returns.
pub fn rust_return_type_(p: &ItemProperty) -> (r: String)
    ensures
        r@ == spec_item_rust_return_type(*p),
{
    let mut type_: String = String::from_str(p.item_property_type.rust_type());
    if str_eq(type_.as_str(), "String") && !p.rust_by_value {
        type_ = String::from_str("str");
    }
    if str_eq(type_.as_str(), "Vec<u8>") && !p.rust_by_value {
        type_ = String::from_str("[u8]");
    }
    if p.item_property_type.is_complex() && !p.rust_by_value {
        type_ = String::from_str("&").concat(type_.as_str());
    }
    if p.optional {
        return String::from_str("Option<").concat(type_.as_str()).concat(">");
    }
    type_
}

pub open spec fn spec_rust_c_type(p: ItemProperty) -> Seq<char> {
    if p.optional {
        "COption<"@ + p.item_property_type.spec_rust_type() + ">"@
    } else {
        p.item_property_type.spec_rust_type()
    }
}

/// The C-compatible Rust type in which an item property's value crosses to C++.
pub fn rust_c_type(p: &ItemProperty) -> (r: String)
    ensures
        r@ == spec_rust_c_type(*p),
{
    if p.optional {
        return String::from_str("COption<").concat(p.item_property_type.rust_type()).concat(">");
    }
    String::from_str(p.item_property_type.rust_type())
}

} // verus!

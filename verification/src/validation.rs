//! Run-time tests of the conditions that the emitters require of a configuration, for callers
//! that cannot prove them: each returns exactly whether the condition holds.

use crate::configuration::{Config, Object, ObjectType, Type};
use crate::cpp::header::objects_ok;
use crate::entries::{ascending, entry_keys, key_lt, lemma_key_lt_transitive, str_lt};
use crate::rust::c_ffi::{ffi_supported};
use crate::rust::model::simple_item_props;
use crate::text::{ascii_initial, str_eq};
use vstd::prelude::*;
use vstd::string::*;

verus! {

/// Whether a name is non-empty and starts with an ASCII character.
pub fn has_ascii_initial(s: &str) -> (r: bool)
    ensures
        r == ascii_initial(s@),
{
    if s.unicode_len() == 0 {
        return false;
    }
    let c = s.get_char(0);
    (c as u32) < 128
}

/// Whether the keys of a table are strictly ascending.
pub fn keys_ascending<V>(entries: &Vec<(String, V)>) -> (r: bool)
    ensures
        r == ascending(entry_keys(entries@)),
{
    let ghost ks = entry_keys(entries@);
    let n = entries.len();
    if n == 0 {
        return true;
    }
    let mut i: usize = 1;
    while i < n
        invariant
            n == entries@.len(),
            1 <= i <= n,
            ks == entry_keys(entries@),
            forall|a: int, b: int| 0 <= a < b < i ==> key_lt(#[trigger] ks[a], #[trigger] ks[b]),
        decreases n - i,
    {
        if !str_lt(entries[i - 1].0.as_str(), entries[i].0.as_str()) {
            proof {
                assert(ks[i - 1] == entries@[i - 1].0@);
                assert(ks[i as int] == entries@[i as int].0@);
            }
            return false;
        }
        proof {
            assert(ks[i - 1] == entries@[i - 1].0@);
            assert(ks[i as int] == entries@[i as int].0@);
            assert forall|a: int, b: int| 0 <= a < b < i + 1 implies key_lt(#[trigger] ks[a], #[trigger] ks[b]) by {
                if b == i && a < i - 1 {
                    lemma_key_lt_transitive(ks[a], ks[i - 1], ks[b]);
                }
            }
        }
        i = i + 1;
    }
    true
}

/// Whether every writable property's name can be cut at its first character.
pub fn writable_names_valid(o: &Object) -> (r: bool)
    ensures
        r == o.writable_names_ok(),
{
    let mut i: usize = 0;
    while i < o.properties.len()
        invariant
            i <= o.properties@.len(),
            forall|j: int|
                0 <= j < i && (#[trigger] o.properties@[j]).1.write ==> ascii_initial(o.properties@[j].0@),
        decreases o.properties@.len() - i,
    {
        if o.properties[i].1.write && !has_ascii_initial(o.properties[i].0.as_str()) {
            return false;
        }
        i = i + 1;
    }
    true
}

/// Whether every writable item property's name can be cut at its first character.
pub fn writable_item_names_valid(o: &Object) -> (r: bool)
    ensures
        r == o.writable_item_names_ok(),
{
    let mut i: usize = 0;
    while i < o.item_properties.len()
        invariant
            i <= o.item_properties@.len(),
            forall|j: int|
                0 <= j < i && (#[trigger] o.item_properties@[j]).1.write ==> ascii_initial(o.item_properties@[j].0@),
        decreases o.item_properties@.len() - i,
    {
        if o.item_properties[i].1.write && !has_ascii_initial(o.item_properties[i].0.as_str()) {
            return false;
        }
        i = i + 1;
    }
    true
}

/// Whether the names of the change callbacks can be formed (see `Object::ctor_names_ok`),
/// nested objects included.
pub fn ctor_names_valid(o: &Object) -> (r: bool)
    ensures
        r == o.ctor_names_ok(),
    decreases o,
{
    let object_ok = has_ascii_initial(o.name.as_str());
    let mut i: usize = 0;
    while i < o.properties.len()
        invariant
            i <= o.properties@.len(),
            object_ok == ascii_initial(o.name@),
            forall|j: int|
                0 <= j < i ==> match (#[trigger] o.properties@[j]).1.property_type {
                    Type::Object(c) => c.ctor_names_ok(),
                    _ => ascii_initial(o.name@) && ascii_initial(o.properties@[j].0@),
                },
        decreases o.properties@.len() - i,
    {
        match &o.properties[i].1.property_type {
            Type::Object(inner) => {
                if !ctor_names_valid(&**inner) {
                    return false;
                }
            },
            _ => {
                if !object_ok || !has_ascii_initial(o.properties[i].0.as_str()) {
                    return false;
                }
            },
        }
        i = i + 1;
    }
    true
}

/// Whether the class declaration of the object can be written (see
/// `Object::header_names_ok`).
pub fn header_names_valid(o: &Object) -> (r: bool)
    ensures
        r == o.header_names_ok(),
{
    writable_names_valid(o) && writable_item_names_valid(o)
}

/// Whether the class definition of the object can be written (see `Object::cpp_names_ok`).
pub fn cpp_names_valid(o: &Object) -> (r: bool)
    ensures
        r == o.cpp_names_ok(),
{
    writable_names_valid(o) && ctor_names_valid(o)
}

/// Whether every object's class declaration can be written (`header_names_valid`).
pub fn config_names_valid(conf: &Config) -> (r: bool)
    ensures
        r == objects_ok(*conf),
{
    let mut i: usize = 0;
    while i < conf.objects.len()
        invariant
            i <= conf.objects@.len(),
            forall|j: int| 0 <= j < i ==> (#[trigger] conf.objects@[j]).1.header_names_ok(),
        decreases conf.objects@.len() - i,
    {
        if !header_names_valid(&conf.objects[i].1) {
            return false;
        }
        i = i + 1;
    }
    true
}

/// Whether the object's tables, and those of its nested objects, are in ascending name order
/// without repetition (see `Object::tables_ok`).
pub fn tables_valid(o: &Object) -> (r: bool)
    ensures
        r == o.tables_ok(),
    decreases o,
{
    if !keys_ascending(&o.functions) || !keys_ascending(&o.item_properties) || !keys_ascending(&o.properties)
        || !keys_ascending(&o.signals) {
        return false;
    }
    let mut i: usize = 0;
    while i < o.properties.len()
        invariant
            i <= o.properties@.len(),
            forall|j: int|
                0 <= j < i ==> match (#[trigger] o.properties@[j]).1.property_type {
                    Type::Object(c) => c.tables_ok(),
                    _ => true,
                },
        decreases o.properties@.len() - i,
    {
        if let Type::Object(inner) = &o.properties[i].1.property_type {
            if !tables_valid(&**inner) {
                return false;
            }
        }
        i = i + 1;
    }
    true
}

/// Whether the configuration's object table and every object's tables are well formed (see
/// `Config::tables_ok`).
pub fn config_tables_valid(conf: &Config) -> (r: bool)
    ensures
        r == conf.tables_ok(),
{
    if !keys_ascending(&conf.objects) {
        return false;
    }
    let mut i: usize = 0;
    while i < conf.objects.len()
        invariant
            i <= conf.objects@.len(),
            forall|j: int| 0 <= j < i ==> (#[trigger] conf.objects@[j]).1.tables_ok(),
        decreases conf.objects@.len() - i,
    {
        if !tables_valid(&conf.objects[i].1) {
            return false;
        }
        i = i + 1;
    }
    true
}

/// Whether the object's connections are sound (see `Object::connections_ok`), nested objects
/// included.
pub fn connections_valid(o: &Object) -> (r: bool)
    ensures
        r == o.connections_ok(),
    decreases o,
{
    if !keys_ascending(&o.functions) {
        return false;
    }
    let mut i: usize = 0;
    while i < o.connections.len()
        invariant
            i <= o.connections@.len(),
            forall|c: int| 0 <= c < i ==> o.connection_ok(#[trigger] o.connections@[c]),
        decreases o.connections@.len() - i,
    {
        let conn = &o.connections[i];
        let mut found_signal = false;
        let mut j: usize = 0;
        while j < o.signals.len()
            invariant
                j <= o.signals@.len(),
                found_signal == exists|m: int| 0 <= m < j && o.signals@[m].0@ == conn.signal@,
            decreases o.signals@.len() - j,
        {
            if str_eq(o.signals[j].0.as_str(), conn.signal.as_str()) {
                found_signal = true;
            }
            j = j + 1;
        }
        if !found_signal {
            return false;
        }
        let mut found_function = false;
        let mut m: usize = 0;
        while m < o.functions.len()
            invariant
                m <= o.functions@.len(),
                found_function == exists|q: int|
                    0 <= q < m && o.functions@[q].0@ == conn.function@ && o.functions@[q].1.arguments@.len() == 0,
            decreases o.functions@.len() - m,
        {
            if str_eq(o.functions[m].0.as_str(), conn.function.as_str()) && o.functions[m].1.arguments.len() == 0 {
                found_function = true;
            }
            m = m + 1;
        }
        if !found_function {
            return false;
        }
        i = i + 1;
    }
    let mut p: usize = 0;
    while p < o.properties.len()
        invariant
            p <= o.properties@.len(),
            forall|c: int| 0 <= c < o.connections@.len() ==> o.connection_ok(#[trigger] o.connections@[c]),
            ascending(entry_keys(o.functions@)),
            forall|j: int|
                0 <= j < p ==> match (#[trigger] o.properties@[j]).1.property_type {
                    Type::Object(c) => c.connections_ok(),
                    _ => true,
                },
        decreases o.properties@.len() - p,
    {
        if let Type::Object(inner) = &o.properties[p].1.property_type {
            if !connections_valid(&**inner) {
                return false;
            }
        }
        p = p + 1;
    }
    true
}

/// Whether every item property of the object holds a simple type.
pub fn item_props_simple(o: &Object) -> (r: bool)
    ensures
        r == simple_item_props(*o),
{
    let mut i: usize = 0;
    while i < o.item_properties.len()
        invariant
            i <= o.item_properties@.len(),
            forall|j: int| 0 <= j < i ==> (#[trigger] o.item_properties@[j]).1.item_property_type is Simple,
        decreases o.item_properties@.len() - i,
    {
        if let Type::Object(_) = &o.item_properties[i].1.item_property_type {
            return false;
        }
        i = i + 1;
    }
    true
}

/// Whether the C interface of the object can be emitted: no tree anywhere, and only simple
/// item properties (see `ffi_supported`).
pub fn ffi_valid(o: &Object) -> (r: bool)
    ensures
        r == ffi_supported(*o),
    decreases o,
{
    if o.object_type == ObjectType::Tree || !item_props_simple(o) {
        return false;
    }
    let mut i: usize = 0;
    while i < o.properties.len()
        invariant
            i <= o.properties@.len(),
            forall|j: int|
                0 <= j < i ==> match (#[trigger] o.properties@[j]).1.property_type {
                    Type::Object(c) => ffi_supported(*c),
                    _ => true,
                },
        decreases o.properties@.len() - i,
    {
        if let Type::Object(inner) = &o.properties[i].1.property_type {
            if !ffi_valid(&**inner) {
                return false;
            }
        }
        i = i + 1;
    }
    true
}

} // verus!

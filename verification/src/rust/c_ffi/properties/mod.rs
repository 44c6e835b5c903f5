//! The C functions through which C++ reads and writes an object's properties.

pub mod complex_non_optional;
pub mod complex_optional;
pub mod non_complex_non_optional;
pub mod non_complex_optional;

use crate::configuration::{Object, Property, SimpleType, Type};
use crate::rust::cg::{cg_fn, cg_scope, fn_arg, fn_attr, fn_extern_abi, fn_line, fn_new, fn_ret, fn_vis, scope_push_fn, FnModel, ItemModel};
use crate::rust::c_ffi::fn_items;
use crate::rust::util::{rust_type, spec_rust_type};
use crate::text::{snake, snake_case};
use vstd::prelude::*;
use vstd::string::*;

verus! {

pub open spec fn spec_base(o: Object, name: Seq<char>) -> Seq<char> {
    snake(o.name@) + "_"@ + snake(name)
}

/// The prefix of a property's C function names: `<object>_<property>` in snake case.
pub fn base(object: &Object, prop_name: &str) -> (r: String)
    ensures
        r@ == spec_base(*object, prop_name@),
{
    snake_case(object.name.as_str()).concat("_").concat(snake_case(prop_name).as_str())
}

pub open spec fn set_none_model(o: Object, name: Seq<char>) -> FnModel {
    FnModel::new((spec_base(o, name) + "_set_none"@)).abi("C"@).attr("no_mangle"@).vis("pub unsafe"@).arg("ptr"@, ("*mut "@ + o.name@)).line("let obj = &mut *ptr;"@).line(("obj.set_"@ + snake(name) + "(None);"@))
}

/// The C function that clears an optional property.
pub fn set_none(object: &Object, prop_name: &str) -> (r: codegen::Function)
    ensures
        cg_fn(r) == set_none_model(*object, prop_name@),
{
    let mut func = fn_new(String::from_str(base(object, prop_name).as_str()).concat("_set_none").as_str());
    fn_extern_abi(&mut func, "C");
    fn_attr(&mut func, "no_mangle");
    fn_vis(&mut func, "pub unsafe");
    fn_arg(&mut func, "ptr", String::from_str("*mut ").concat(object.name.as_str()).as_str());
    fn_line(&mut func, "let obj = &mut *ptr;");
    fn_line(&mut func, String::from_str("obj.set_").concat(snake_case(prop_name).as_str()).concat("(None);").as_str());
    func
}

pub open spec fn object_get_model(o: Object, name: Seq<char>, p: Property) -> FnModel {
    FnModel::new((spec_base(o, name) + "_get"@)).abi("C"@).attr("no_mangle"@).vis("pub unsafe"@).ret(("*mut "@ + spec_rust_type(p))).arg("ptr"@, ("*mut "@ + o.name@)).line(("(&mut *ptr)."@ + snake(name) + "_mut()"@))
}

/// The C getter of an object-typed property: a pointer to the nested Rust value.
pub fn object_get(object: &Object, prop_name: &str, property: &Property) -> (r: codegen::Function)
    ensures
        cg_fn(r) == object_get_model(*object, prop_name@, *property),
{
    let mut func = fn_new(String::from_str(base(object, prop_name).as_str()).concat("_get").as_str());
    fn_extern_abi(&mut func, "C");
    fn_attr(&mut func, "no_mangle");
    fn_vis(&mut func, "pub unsafe");
    fn_ret(&mut func, String::from_str("*mut ").concat(rust_type(property).as_str()).as_str());
    fn_arg(&mut func, "ptr", String::from_str("*mut ").concat(object.name.as_str()).as_str());
    fn_line(&mut func, String::from_str("(&mut *ptr).").concat(snake_case(prop_name).as_str()).concat("_mut()").as_str());
    func
}

pub open spec fn simple_prop_fns(o: Object, name: Seq<char>, p: Property, simp: SimpleType) -> Seq<FnModel> {
    if p.property_type.spec_is_complex() && !p.optional {
        let g = if p.rust_by_value {
            complex_non_optional::get_by_function_model(o, name, p)
        } else {
            complex_non_optional::getter_model(o, name, p)
        };
        if p.write {
            match simp {
                SimpleType::QString => seq![g, complex_non_optional::qstring_setter_model(o, name)],
                SimpleType::QByteArray => seq![g, complex_non_optional::qbytearray_setter_model(o, name)],
                _ => seq![g],
            }
        } else {
            seq![g]
        }
    } else if p.property_type.spec_is_complex() {
        let g = complex_optional::getter_model(o, name, p);
        if p.write {
            match simp {
                SimpleType::QString => seq![g, complex_optional::qstring_setter_model(o, name)],
                SimpleType::QByteArray => seq![g, complex_optional::qbytearray_setter_model(o, name)],
                _ => seq![g],
            }
        } else {
            seq![g]
        }
    } else if p.optional {
        let g = non_complex_optional::getter_model(o, name, p);
        if p.write { seq![g, non_complex_optional::setter_model(o, name, p)] } else { seq![g] }
    } else {
        let g = non_complex_non_optional::getter_model(o, name, p);
        if p.write { seq![g, non_complex_non_optional::setter_model(o, name, p)] } else { seq![g] }
    }
}

/// The C functions of a property of simple type, by whether it is a string or byte array and
/// whether it is optional: a getter, and a setter where the property is writable (for strings
/// and byte arrays, where it is one of those two types).
pub fn simple_prop(scope: &mut codegen::Scope, simp_type: &SimpleType, prop_name: &str, property: &Property, object: &Object)
    requires
        property.property_type == Type::Simple(*simp_type),
    ensures
        cg_scope(*final(scope)) == fn_items(cg_scope(*old(scope)), simple_prop_fns(*object, prop_name@, *property, *simp_type)),
{
    let ghost s0 = cg_scope(*scope);
    let ghost fns = simple_prop_fns(*object, prop_name@, *property, *simp_type);
    if property.is_complex() && !property.optional {
        if property.rust_by_value {
            scope_push_fn(scope, complex_non_optional::get_by_function(object, prop_name, property));
        } else {
            scope_push_fn(scope, complex_non_optional::getter(object, prop_name, property));
        }
        if property.write {
            match simp_type {
                SimpleType::QString => {
                    scope_push_fn(scope, complex_non_optional::qstring_setter(object, prop_name));
                },
                SimpleType::QByteArray => {
                    scope_push_fn(scope, complex_non_optional::qbytearray_setter(object, prop_name));
                },
                _ => {},
            }
        }
    } else if property.is_complex() {
        scope_push_fn(scope, complex_optional::getter(object, prop_name, property));
        if property.write {
            match simp_type {
                SimpleType::QString => {
                    scope_push_fn(scope, complex_optional::qstring_setter(object, prop_name));
                },
                SimpleType::QByteArray => {
                    scope_push_fn(scope, complex_optional::qbytearray_setter(object, prop_name));
                },
                _ => {},
            }
        }
    } else if property.optional {
        scope_push_fn(scope, non_complex_optional::getter(object, prop_name, property));
        if property.write {
            scope_push_fn(scope, non_complex_optional::setter(object, prop_name, property));
        }
    } else {
        scope_push_fn(scope, non_complex_non_optional::getter(object, prop_name, property));
        if property.write {
            scope_push_fn(scope, non_complex_non_optional::setter(object, prop_name, property));
        }
    }
    proof {
        assert(cg_scope(*scope) =~= fn_items(s0, fns));
    }
}

pub open spec fn property_fns(o: Object, name: Seq<char>, p: Property) -> Seq<FnModel> {
    let fs = match p.property_type {
        Type::Object(_) => seq![object_get_model(o, name, p)],
        Type::Simple(simp) => simple_prop_fns(o, name, p, simp),
    };
    if p.write && p.optional {
        fs.push(set_none_model(o, name))
    } else {
        fs
    }
}

pub open spec fn properties_items(items: Seq<ItemModel>, o: Object, n: int) -> Seq<ItemModel>
    decreases n,
{
    if n <= 0 {
        items
    } else {
        fn_items(properties_items(items, o, n - 1), property_fns(o, o.properties@[n - 1].0@, o.properties@[n - 1].1))
    }
}

/// Adds the C getter and setter functions of every property to the scope.
pub fn push_properties(scope: &mut codegen::Scope, object: &Object)
    ensures
        cg_scope(*final(scope)) == properties_items(cg_scope(*old(scope)), *object, object.properties@.len() as int),
{
    let ghost s0 = cg_scope(*scope);
    let mut i: usize = 0;
    while i < object.properties.len()
        invariant
            i <= object.properties@.len(),
            cg_scope(*scope) == properties_items(s0, *object, i as int),
        decreases object.properties@.len() - i,
    {
        let prop_name = object.properties[i].0.as_str();
        let property = &object.properties[i].1;
        let ghost s1 = cg_scope(*scope);
        match &property.property_type {
            Type::Object(_) => {
                scope_push_fn(scope, object_get(object, prop_name, property));
            },
            Type::Simple(simp_type) => {
                simple_prop(scope, simp_type, prop_name, property, object);
            },
        }
        if property.write && property.optional {
            scope_push_fn(scope, set_none(object, prop_name));
        }
        proof {
            assert(cg_scope(*scope) =~= fn_items(s1, property_fns(*object, prop_name@, *property)));
        }
        i = i + 1;
    }
}

} // verus!

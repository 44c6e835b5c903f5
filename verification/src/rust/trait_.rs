//! The trait that the Rust implementation of an object implements.

use crate::configuration::{Argument, FunctionDef, ItemProperty, Object, ObjectType, Property, SimpleType, Type};
use crate::rust::cg::{cg_fn, cg_scope, cg_trait, fn_arg, fn_bound, fn_decl, fn_generic, fn_line, fn_mut_self, fn_ref_self, fn_ret, scope_push_trait, trait_new, trait_push_fn, trait_vis, FnModel, ItemModel, TraitModel};
use crate::rust::model::{model_name, spec_model_name};
use crate::rust::util::{
    emitter, rust_return_type, rust_return_type_, rust_type, rust_type_, spec_emitter,
    spec_item_rust_return_type, spec_item_rust_type, spec_rust_return_type, spec_rust_type,
};
use crate::text::{snake, snake_case, str_eq};
use vstd::prelude::*;
use vstd::string::*;

verus! {

pub open spec fn new_args(f: FnModel, ps: Seq<(String, Property)>, n: int) -> FnModel
    decreases n,
{
    if n <= 0 {
        f
    } else {
        new_args(f, ps, n - 1).arg(snake(ps[n - 1].0@), ps[n - 1].1.spec_name_of_type())
    }
}

/// The trait's constructor: it takes the emitter, the model of a list or tree, and the Rust
/// values of the object-typed properties.
pub open spec fn trait_new_model(o: Object) -> FnModel {
    let f0 = FnModel::decl("new"@).ret("Self"@).arg("emit"@, spec_emitter(o.name@));
    let f1 = match spec_model_name(o) {
        Some(m) => f0.arg("model"@, m),
        None => f0,
    };
    let ops = o.spec_object_properties();
    new_args(f1, ops, ops.len() as int)
}

pub open spec fn setter_arg_type(p: Property) -> Seq<char> {
    if p.spec_name_of_type() == "QByteArray"@ {
        if p.optional { "Option<&[u8]>"@ } else { "&[u8]"@ }
    } else {
        spec_rust_type(p)
    }
}

pub open spec fn property_fns(fns: Seq<FnModel>, name: Seq<char>, p: Property) -> Seq<FnModel> {
    let lc = snake(name);
    if p.property_type.spec_is_object() {
        let typ = spec_rust_type(p);
        fns.push(FnModel::decl(lc).ref_self().ret("&"@ + typ)).push(
            FnModel::decl(lc + "_mut"@).mut_self().ret("&mut "@ + typ),
        )
    } else {
        let getter = if p.rust_by_function {
            FnModel::decl(lc).ref_self().generic("F"@).bound("F"@, "FnOnce("@ + spec_rust_return_type(p) + ")"@).arg(
                "getter"@,
                "F"@,
            )
        } else {
            FnModel::decl(lc).ref_self().ret(spec_rust_return_type(p))
        };
        if p.write {
            fns.push(getter).push(FnModel::decl("set_"@ + snake(name)).mut_self().arg("value"@, setter_arg_type(p)))
        } else {
            fns.push(getter)
        }
    }
}

pub open spec fn properties_fns(fns: Seq<FnModel>, ps: Seq<(String, Property)>, n: int) -> Seq<FnModel>
    decreases n,
{
    if n <= 0 {
        fns
    } else {
        property_fns(properties_fns(fns, ps, n - 1), ps[n - 1].0@, ps[n - 1].1)
    }
}

pub open spec fn trait_arg_type(a: Argument) -> Seq<char> {
    match a.argument_type {
        SimpleType::QByteArray => "&[u8]"@,
        _ => a.argument_type.spec_rust_type(),
    }
}

pub open spec fn trait_fn_args(f: FnModel, args: Seq<Argument>, n: int) -> FnModel
    decreases n,
{
    if n <= 0 {
        f
    } else {
        trait_fn_args(f, args, n - 1).arg(args[n - 1].name@, trait_arg_type(args[n - 1]))
    }
}

pub open spec fn function_fn(name: Seq<char>, f: FunctionDef) -> FnModel {
    let f0 = FnModel::decl(snake(name));
    let f1 = if f.mutable { f0.mut_self() } else { f0.ref_self() };
    trait_fn_args(f1, f.arguments@, f.arguments@.len() as int).ret(f.return_type.spec_rust_type())
}

pub open spec fn functions_fns(fns: Seq<FnModel>, fs: Seq<(String, FunctionDef)>, n: int) -> Seq<FnModel>
    decreases n,
{
    if n <= 0 {
        fns
    } else {
        functions_fns(fns, fs, n - 1).push(function_fn(fs[n - 1].0@, fs[n - 1].1))
    }
}

pub open spec fn list_fns() -> Seq<FnModel> {
    seq![FnModel::decl("row_count"@).ref_self().ret("usize"@), FnModel::decl("insert_rows"@).mut_self().arg("_row"@, "usize"@).arg("_count"@, "usize"@).ret("bool"@).line("false"@), FnModel::decl("remove_rows"@).mut_self().arg("_row"@, "usize"@).arg("_count"@, "usize"@).ret("bool"@).line("false"@), FnModel::decl("can_fetch_more"@).ref_self().ret("bool"@).line("false"@), FnModel::decl("fetch_more"@).mut_self().line(""@), FnModel::decl("sort"@).mut_self().arg("_"@, "u8"@).arg("_"@, "SortOrder"@).line(""@)]
}

pub open spec fn tree_fns() -> Seq<FnModel> {
    seq![FnModel::decl("row_count"@).ref_self().arg("_"@, "Option<usize>"@).ret("usize"@), FnModel::decl("can_fetch_more"@).ref_self().arg("_"@, "Option<usize>"@).ret("bool"@).line("false"@), FnModel::decl("fetch_more"@).mut_self().arg("_"@, "Option<usize>"@).line(""@), FnModel::decl("sort"@).mut_self().arg("_"@, "u8"@).arg("_"@, "SortOrder"@).line(""@), FnModel::decl("check_row"@).ref_self().arg("index"@, "usize"@).arg("row"@, "usize"@).ret("Option<usize>"@), FnModel::decl("index"@).arg("item"@, "Option<usize>"@).arg("row"@, "usize"@).ret("usize"@), FnModel::decl("parent"@).arg("index"@, "usize"@).ret("Option<usize>"@), FnModel::decl("row"@).arg("index"@, "usize"@).ret("usize"@)]
}

pub open spec fn item_setter_arg_type(ip: ItemProperty) -> Seq<char> {
    match ip.item_property_type {
        Type::Simple(SimpleType::QByteArray) => if ip.optional { "Option<&[u8]>"@ } else { "&[u8]"@ },
        _ => spec_item_rust_type(ip),
    }
}

pub open spec fn item_prop_fns(fns: Seq<FnModel>, name: Seq<char>, ip: ItemProperty) -> Seq<FnModel> {
    let lc = snake(name);
    let getter = FnModel::decl(lc).ref_self().arg("index"@, "usize"@).ret(spec_item_rust_return_type(ip));
    if ip.write {
        fns.push(getter).push(
            FnModel::decl("set_"@ + lc).mut_self().arg("index"@, "usize"@).ret("bool"@).arg("_"@, item_setter_arg_type(ip)),
        )
    } else {
        fns.push(getter)
    }
}

pub open spec fn item_props_fns(fns: Seq<FnModel>, ips: Seq<(String, ItemProperty)>, n: int) -> Seq<FnModel>
    decreases n,
{
    if n <= 0 {
        fns
    } else {
        item_prop_fns(item_props_fns(fns, ips, n - 1), ips[n - 1].0@, ips[n - 1].1)
    }
}

pub open spec fn trait_fns(o: Object) -> Seq<FnModel> {
    let f1 = seq![trait_new_model(o), FnModel::decl("emit"@).mut_self().ret("&mut "@ + spec_emitter(o.name@))];
    let f2 = properties_fns(f1, o.properties@, o.properties@.len() as int);
    let f3 = functions_fns(f2, o.functions@, o.functions@.len() as int);
    let f4 = match o.object_type {
        ObjectType::List => f3 + list_fns(),
        ObjectType::Tree => f3 + tree_fns(),
        _ => f3,
    };
    if o.object_type != ObjectType::Object {
        item_props_fns(f4, o.item_properties@, o.item_properties@.len() as int)
    } else {
        f4
    }
}

pub open spec fn trait_model(o: Object) -> TraitModel {
    TraitModel { name: o.name@ + "Trait"@, vis: Some("pub"@), fns: trait_fns(o) }
}

/// Adds the trait of an object to the scope: its constructor, `emit`, the accessors of its
/// properties, its functions, the model functions of a list or tree, and the row accessors.
pub fn push_trait(scope: &mut codegen::Scope, object: &Object)
    ensures
        cg_scope(*final(scope)) == cg_scope(*old(scope)).push(ItemModel::Trait(trait_model(*object))),
{
    let mut trait_def = trait_new(String::from_str(object.name.as_str()).concat("Trait").as_str());
    trait_vis(&mut trait_def, "pub");
    let emit_name = emitter(object.name.as_str());
    let mut new = fn_decl("new");
    fn_ret(&mut new, "Self");
    fn_arg(&mut new, "emit", emit_name.as_str());
    match model_name(object) {
        Some(model) => {
            fn_arg(&mut new, "model", model.as_str());
        },
        None => {},
    }
    let ops = object.object_properties();
    let ghost f1 = cg_fn(new);
    let ghost sops = object.spec_object_properties();
    let mut i: usize = 0;
    while i < ops.len()
        invariant
            i <= ops@.len(),
            ops@.map_values(|e: (&String, &Property)| (*e.0, *e.1)) == sops,
            cg_fn(new) == new_args(f1, sops, i as int),
        decreases ops@.len() - i,
    {
        proof {
            assert(ops@.map_values(|e: (&String, &Property)| (*e.0, *e.1))[i as int] == sops[i as int]);
        }
        fn_arg(&mut new, snake_case(ops[i].0.as_str()).as_str(), ops[i].1.name_of_type());
        i = i + 1;
    }
    trait_push_fn(&mut trait_def, new);
    let mut emit = fn_decl("emit");
    fn_mut_self(&mut emit);
    fn_ret(&mut emit, String::from_str("&mut ").concat(emit_name.as_str()).as_str());
    trait_push_fn(&mut trait_def, emit);
    proof {
        assert(cg_trait(trait_def).fns =~= seq![trait_new_model(*object), FnModel::decl("emit"@).mut_self().ret("&mut "@ + spec_emitter(object.name@))]);
    }
    let ghost t1 = cg_trait(trait_def);
    let mut p: usize = 0;
    while p < object.properties.len()
        invariant
            p <= object.properties@.len(),
            cg_trait(trait_def) == (TraitModel { fns: properties_fns(t1.fns, object.properties@, p as int), ..t1 }),
        decreases object.properties@.len() - p,
    {
        let name = &object.properties[p].0;
        let property = &object.properties[p].1;
        let lc_name = snake_case(name.as_str());
        if property.is_object() {
            let typ = rust_type(property);
            let mut g = fn_decl(lc_name.as_str());
            fn_ref_self(&mut g);
            fn_ret(&mut g, String::from_str("&").concat(typ.as_str()).as_str());
            trait_push_fn(&mut trait_def, g);
            let mut m = fn_decl(lc_name.clone().concat("_mut").as_str());
            fn_mut_self(&mut m);
            fn_ret(&mut m, String::from_str("&mut ").concat(typ.as_str()).as_str());
            trait_push_fn(&mut trait_def, m);
        } else {
            let mut g = fn_decl(lc_name.as_str());
            fn_ref_self(&mut g);
            if property.rust_by_function {
                fn_generic(&mut g, "F");
                fn_bound(&mut g, "F", String::from_str("FnOnce(").concat(rust_return_type(property).as_str()).concat(")").as_str());
                fn_arg(&mut g, "getter", "F");
            } else {
                fn_ret(&mut g, rust_return_type(property).as_str());
            }
            trait_push_fn(&mut trait_def, g);
            if property.write {
                let mut setter = fn_decl(String::from_str("set_").concat(snake_case(name.as_str()).as_str()).as_str());
                fn_mut_self(&mut setter);
                if str_eq(property.name_of_type(), "QByteArray") {
                    if property.optional {
                        fn_arg(&mut setter, "value", "Option<&[u8]>");
                    } else {
                        fn_arg(&mut setter, "value", "&[u8]");
                    }
                } else {
                    fn_arg(&mut setter, "value", rust_type(property).as_str());
                }
                trait_push_fn(&mut trait_def, setter);
            }
        }
        p = p + 1;
    }
    let ghost t2 = cg_trait(trait_def);
    let mut q: usize = 0;
    while q < object.functions.len()
        invariant
            q <= object.functions@.len(),
            cg_trait(trait_def) == (TraitModel { fns: functions_fns(t2.fns, object.functions@, q as int), ..t2 }),
        decreases object.functions@.len() - q,
    {
        let func = &object.functions[q].1;
        let mut trait_func = fn_decl(snake_case(object.functions[q].0.as_str()).as_str());
        if func.mutable {
            fn_mut_self(&mut trait_func);
        } else {
            fn_ref_self(&mut trait_func);
        }
        let ghost g0 = cg_fn(trait_func);
        let mut j: usize = 0;
        while j < func.arguments.len()
            invariant
                j <= func.arguments@.len(),
                cg_fn(trait_func) == trait_fn_args(g0, func.arguments@, j as int),
            decreases func.arguments@.len() - j,
        {
            let arg = &func.arguments[j];
            let typ = match &arg.argument_type {
                SimpleType::QByteArray => "&[u8]",
                _ => arg.argument_type.rust_type(),
            };
            fn_arg(&mut trait_func, arg.name.as_str(), typ);
            j = j + 1;
        }
        fn_ret(&mut trait_func, func.return_type.rust_type());
        trait_push_fn(&mut trait_def, trait_func);
        q = q + 1;
    }
    let ghost t3 = cg_trait(trait_def);
    match object.object_type {
        ObjectType::List => {
            {
                let mut f = fn_decl("row_count");
                fn_ref_self(&mut f);
                fn_ret(&mut f, "usize");
                trait_push_fn(&mut trait_def, f);
            }
            {
                let mut f = fn_decl("insert_rows");
                fn_mut_self(&mut f);
                fn_arg(&mut f, "_row", "usize");
                fn_arg(&mut f, "_count", "usize");
                fn_ret(&mut f, "bool");
                fn_line(&mut f, "false");
                trait_push_fn(&mut trait_def, f);
            }
            {
                let mut f = fn_decl("remove_rows");
                fn_mut_self(&mut f);
                fn_arg(&mut f, "_row", "usize");
                fn_arg(&mut f, "_count", "usize");
                fn_ret(&mut f, "bool");
                fn_line(&mut f, "false");
                trait_push_fn(&mut trait_def, f);
            }
            {
                let mut f = fn_decl("can_fetch_more");
                fn_ref_self(&mut f);
                fn_ret(&mut f, "bool");
                fn_line(&mut f, "false");
                trait_push_fn(&mut trait_def, f);
            }
            {
                let mut f = fn_decl("fetch_more");
                fn_mut_self(&mut f);
                fn_line(&mut f, "");
                trait_push_fn(&mut trait_def, f);
            }
            {
                let mut f = fn_decl("sort");
                fn_mut_self(&mut f);
                fn_arg(&mut f, "_", "u8");
                fn_arg(&mut f, "_", "SortOrder");
                fn_line(&mut f, "");
                trait_push_fn(&mut trait_def, f);
            }
            proof {
                assert(cg_trait(trait_def).fns =~= t3.fns + list_fns());
            }
        },
        ObjectType::Tree => {
            {
                let mut f = fn_decl("row_count");
                fn_ref_self(&mut f);
                fn_arg(&mut f, "_", "Option<usize>");
                fn_ret(&mut f, "usize");
                trait_push_fn(&mut trait_def, f);
            }
            {
                let mut f = fn_decl("can_fetch_more");
                fn_ref_self(&mut f);
                fn_arg(&mut f, "_", "Option<usize>");
                fn_ret(&mut f, "bool");
                fn_line(&mut f, "false");
                trait_push_fn(&mut trait_def, f);
            }
            {
                let mut f = fn_decl("fetch_more");
                fn_mut_self(&mut f);
                fn_arg(&mut f, "_", "Option<usize>");
                fn_line(&mut f, "");
                trait_push_fn(&mut trait_def, f);
            }
            {
                let mut f = fn_decl("sort");
                fn_mut_self(&mut f);
                fn_arg(&mut f, "_", "u8");
                fn_arg(&mut f, "_", "SortOrder");
                fn_line(&mut f, "");
                trait_push_fn(&mut trait_def, f);
            }
            {
                let mut f = fn_decl("check_row");
                fn_ref_self(&mut f);
                fn_arg(&mut f, "index", "usize");
                fn_arg(&mut f, "row", "usize");
                fn_ret(&mut f, "Option<usize>");
                trait_push_fn(&mut trait_def, f);
            }
            {
                let mut f = fn_decl("index");
                fn_arg(&mut f, "item", "Option<usize>");
                fn_arg(&mut f, "row", "usize");
                fn_ret(&mut f, "usize");
                trait_push_fn(&mut trait_def, f);
            }
            {
                let mut f = fn_decl("parent");
                fn_arg(&mut f, "index", "usize");
                fn_ret(&mut f, "Option<usize>");
                trait_push_fn(&mut trait_def, f);
            }
            {
                let mut f = fn_decl("row");
                fn_arg(&mut f, "index", "usize");
                fn_ret(&mut f, "usize");
                trait_push_fn(&mut trait_def, f);
            }
            proof {
                assert(cg_trait(trait_def).fns =~= t3.fns + tree_fns());
            }
        },
        _ => {},
    }
    if object.object_type != ObjectType::Object {
        let ghost t4 = cg_trait(trait_def);
        let mut k: usize = 0;
        while k < object.item_properties.len()
            invariant
                k <= object.item_properties@.len(),
                cg_trait(trait_def) == (TraitModel { fns: item_props_fns(t4.fns, object.item_properties@, k as int), ..t4 }),
            decreases object.item_properties@.len() - k,
        {
            let item_prop = &object.item_properties[k].1;
            let name = snake_case(object.item_properties[k].0.as_str());
            let mut g = fn_decl(name.as_str());
            fn_ref_self(&mut g);
            fn_arg(&mut g, "index", "usize");
            fn_ret(&mut g, rust_return_type_(item_prop).as_str());
            trait_push_fn(&mut trait_def, g);
            if item_prop.write {
                let mut setter = fn_decl(String::from_str("set_").concat(name.as_str()).as_str());
                fn_mut_self(&mut setter);
                fn_arg(&mut setter, "index", "usize");
                fn_ret(&mut setter, "bool");
                match (&item_prop.item_property_type, item_prop.optional) {
                    (Type::Simple(SimpleType::QByteArray), true) => {
                        fn_arg(&mut setter, "_", "Option<&[u8]>");
                    },
                    (Type::Simple(SimpleType::QByteArray), false) => {
                        fn_arg(&mut setter, "_", "&[u8]");
                    },
                    _ => {
                        fn_arg(&mut setter, "_", rust_type_(item_prop).as_str());
                    },
                }
                trait_push_fn(&mut trait_def, setter);
            }
            k = k + 1;
        }
    }
    scope_push_trait(scope, trait_def);
}

} // verus!

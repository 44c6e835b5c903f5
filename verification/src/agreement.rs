//! The two halves of the bindings meet at C functions: the C++ class calls them and the Rust
//! interface module defines them. The laws here state that both sides use the same names.

use crate::configuration::{FunctionDef, ItemProperty, Object, Property};
use crate::cpp::code::object::properties::setters::{prop_base, write_non_optional};
use crate::cpp::code::object::properties::write_plain_getter;
use crate::cpp::helpers::{c_set_arg, write_c_args, write_funcs_c_decl, write_function_c_decl_spec, write_object_c_decl_spec, write_prop_c_decl, write_props_c_decl};
use crate::rust::c_ffi::item_props::list as item_list;
use crate::rust::c_ffi::properties::{complex_optional, non_complex_non_optional, non_complex_optional};
use crate::rust::c_ffi::properties::{object_get_model, set_none_model};
use crate::rust::c_ffi::funcs::{args_model, function_model, lemma_arg_names_keep_head, lemma_args_keep_head, receiver_model};
use crate::rust::c_ffi::new_imp::{fields_model, lemma_ctor_keeps_head, new_model};
use crate::rust::c_ffi::{clear_model, spec_ptr_bundle_name};
use crate::rust::cg::{BlockModel, FnModel};
use crate::cpp::code::object::functions::write_function_def;
use crate::cpp::header::object::write_function_decl;
use crate::rust::trait_::{function_fn, functions_fns, item_props_fns, properties_fns, trait_fn_args, trait_model};
use crate::rust::write_helper::{conv_text, convs_text, function_text, names_text, params_text, ret_text};
use crate::text::{ends_with_text, holds_text, snake};
use crate::configuration::{Argument, ObjectType};
use vstd::prelude::*;

verus! {

/// Every Rust C getter of a property is named `<object>_<property>_get`, the name the C++
/// getters call; the C++ getter of a scalar property returns the result of calling it.
pub proof fn law_getter_names_agree(w: Seq<char>, o: Object, name: Seq<char>, p: Property)
    ensures
        non_complex_non_optional::getter_model(o, name, p).name == prop_base(o, name) + "_get"@,
        non_complex_optional::getter_model(o, name, p).name == prop_base(o, name) + "_get"@,
        complex_optional::getter_model(o, name, p).name == prop_base(o, name) + "_get"@,
        object_get_model(o, name, p).name == prop_base(o, name) + "_get"@,
        write_plain_getter(w, o, name, p) == w + "\n"@ + p.spec_name_of_type() + " "@ + o.name@ + "::"@ + name
            + "() const\n{\n    return "@ + non_complex_non_optional::getter_model(o, name, p).name + "(m_d);\n}\n"@,
{
    reveal_strlit("_get");
    reveal_strlit("(m_d);\n}\n");
    reveal_strlit("_get(m_d);\n}\n");
    assert(write_plain_getter(w, o, name, p) =~= w + "\n"@ + p.spec_name_of_type() + " "@ + o.name@ + "::"@ + name
        + "() const\n{\n    return "@ + non_complex_non_optional::getter_model(o, name, p).name + "(m_d);\n}\n"@);
}

/// Every Rust C setter of a property is named `<object>_<property>_set` and the function that
/// clears an optional property `<object>_<property>_set_none`, the names the C++ setters
/// call; the C++ setter of a scalar property hands its value to the Rust setter.
pub proof fn law_setter_names_agree(w: Seq<char>, o: Object, name: Seq<char>, p: Property)
    ensures
        non_complex_non_optional::setter_model(o, name, p).name == prop_base(o, name) + "_set"@,
        non_complex_optional::setter_model(o, name, p).name == prop_base(o, name) + "_set"@,
        complex_optional::qstring_setter_model(o, name).name == prop_base(o, name) + "_set"@,
        complex_optional::qbytearray_setter_model(o, name).name == prop_base(o, name) + "_set"@,
        set_none_model(o, name).name == prop_base(o, name) + "_set_none"@,
        !p.property_type.spec_is_complex() ==> write_non_optional(w, p, prop_base(o, name)) == w
            + non_complex_non_optional::setter_model(o, name, p).name + "(m_d, v);\n"@,
{
    if !p.property_type.spec_is_complex() {
        reveal_strlit("_set");
        reveal_strlit("(m_d, v);\n");
        reveal_strlit("_set(m_d, v);\n");
        assert(write_non_optional(w, p, prop_base(o, name)) =~= w + non_complex_non_optional::setter_model(o, name, p).name
            + "(m_d, v);\n"@);
    }
}

/// The C++ header declares the getter and setter of a scalar property under the names that
/// the Rust interface defines them with.
pub proof fn law_header_declarations_agree(w: Seq<char>, o: Object, name: Seq<char>, p: Property)
    requires
        !p.property_type.spec_is_object(),
        !p.property_type.spec_is_complex(),
        !p.optional,
    ensures
        ({
            let get_decl = w + p.spec_name_of_type() + " "@ + non_complex_non_optional::getter_model(o, name, p).name
                + "(const "@ + o.name@ + "::Private*);\n"@;
            write_prop_c_decl(w, o, snake(o.name@), name, p) == if p.write {
                get_decl + "    void "@ + non_complex_non_optional::setter_model(o, name, p).name + "("@ + o.name@
                    + "::Private*, "@ + c_set_arg(p.property_type.spec_c_set_type()) + ");\n"@
            } else {
                get_decl
            }
        }),
{
    reveal_strlit("_get");
    reveal_strlit("_get(const ");
    reveal_strlit("(const ");
    reveal_strlit("_set");
    reveal_strlit("_set(");
    reveal_strlit("(");
    let base = snake(o.name@) + "_"@ + snake(name);
    let get_decl = w + p.spec_name_of_type() + " "@ + non_complex_non_optional::getter_model(o, name, p).name
        + "(const "@ + o.name@ + "::Private*);\n"@;
    assert(w + p.spec_name_of_type() + " "@ + base + "_get(const "@ + o.name@ + "::Private*);\n"@ =~= get_decl);
    if p.write {
        let st = c_set_arg(p.property_type.spec_c_set_type());
        assert(get_decl + "    void "@ + base + "_set("@ + o.name@ + "::Private*, "@ + st + ");\n"@ =~= get_decl
            + "    void "@ + non_complex_non_optional::setter_model(o, name, p).name + "("@ + o.name@ + "::Private*, "@
            + st + ");\n"@);
    }
}

/// The C constructor and destructor of an object are `<object>_new` and `<object>_free`, the
/// names the C++ constructor and destructor call.
pub proof fn law_lifecycle_names_agree(o: Object)
    ensures
        new_model(o).name == snake(o.name@) + "_new"@,
        clear_model(o).name == snake(o.name@) + "_free"@,
{
    let name = snake(o.name@);
    let head = FnModel::new(name + "_new"@).abi("C"@).vis("pub unsafe"@).attr("no_mangle"@).ret("*mut "@ + o.name@).arg(
        "ptr_bundle"@,
        "*mut "@ + spec_ptr_bundle_name(o),
    ).line("let ptr_bundle = *ptr_bundle;"@).line(""@);
    let unpack = fields_model(BlockModel::new("let "@ + spec_ptr_bundle_name(o)), o, name).after(" = ptr_bundle;"@);
    lemma_ctor_keeps_head(head.block(unpack), o, name);
}

/// The C function of an object's function `name` is `<object>_<name>`, the name the C++
/// member function calls.
pub proof fn law_function_names_agree(o: Object, name: Seq<char>, f: FunctionDef)
    ensures
        function_model(name, f, o).name == snake(o.name@) + "_"@ + snake(name),
{
    let head = FnModel::new(snake(o.name@) + "_"@ + snake(name)).attr("no_mangle"@).vis("pub unsafe"@).abi("C"@);
    let r = receiver_model(head, o, f);
    lemma_args_keep_head(r, f.arguments@, f.arguments@.len() as int);
    let g = args_model(r, f.arguments@, f.arguments@.len() as int);
    let ret = f.return_type.spec_name();
    lemma_arg_names_keep_head(
        g.arg("data"@, "*mut "@ + ret).arg("set"@, "fn(*mut "@ + ret + ", str_: *const c_char, len: c_int)"@).line(
            "let ret = obj."@ + snake(name) + "("@,
        ),
        f.arguments@,
        f.arguments@.len() as int,
    );
    lemma_arg_names_keep_head(
        g.ret(f.return_type.spec_rust_type()).line("obj."@ + snake(name) + "("@),
        f.arguments@,
        f.arguments@.len() as int,
    );
}

/// The C functions of a list's item property are `<object>_data_<name>`,
/// `<object>_set_data_<name>` and `<object>_set_data_<name>_none`, the names the C++ model
/// accessors call.
pub proof fn law_item_names_agree(o: Object, name: Seq<char>, ip: ItemProperty)
    ensures
        item_list::complex_data_model(o, name, ip).name == snake(o.name@) + "_data_"@ + snake(name),
        item_list::non_complex_data_model(o, name, ip).name == snake(o.name@) + "_data_"@ + snake(name),
        item_list::non_complex_set_model(o, name, ip).name == snake(o.name@) + "_set_data_"@ + snake(name),
        item_list::qstring_set_model(o, name, ip).name == snake(o.name@) + "_set_data_"@ + snake(name),
        item_list::qbytearray_set_model(o, name, ip).name == snake(o.name@) + "_set_data_"@ + snake(name),
        item_list::set_none_model(o, name).name == snake(o.name@) + "_set_data_"@ + snake(name) + "_none"@,
{
    assert(item_list::set_none_model(o, name).name =~= snake(o.name@) + "_set_data_"@ + snake(name) + "_none"@);
}

proof fn lemma_qualifier_texts(f: FunctionDef)
    ensures
        (if f.mutable { ")"@ } else { ") const"@ }) + ";\n"@ == (if f.mutable { ");\n"@ } else { ") const;\n"@ }),
        (if f.mutable { ")"@ } else { ") const"@ }) == ")"@ + (if f.mutable { ""@ } else { " const"@ }),
{
    if f.mutable {
        assert(")"@ + ";\n"@ =~= ");\n"@) by {
            reveal_strlit(")");
            reveal_strlit(";\n");
            reveal_strlit(");\n");
        }
        assert(")"@ + ""@ =~= ")"@) by {
            reveal_strlit("");
        }
    } else {
        assert(") const"@ + ";\n"@ =~= ") const;\n"@) by {
            reveal_strlit(") const");
            reveal_strlit(";\n");
            reveal_strlit(") const;\n");
        }
        assert(") const"@ =~= ")"@ + " const"@) by {
            reveal_strlit(") const");
            reveal_strlit(")");
            reveal_strlit(" const");
        }
    }
}

proof fn lemma_decl_qualifier(w: Seq<char>, name: Seq<char>, f: FunctionDef)
    ensures
        ends_with_text(write_function_decl(w, name, f), (if f.mutable { ")"@ } else { ") const"@ }) + ";\n"@),
{
    lemma_qualifier_texts(f);
    let a = crate::cpp::header::object::write_decl_args(
        w + "Q_INVOKABLE "@ + f.return_type.spec_name() + " "@ + name + "("@,
        f.arguments@,
        f.arguments@.len() as int,
    );
    assert(write_function_decl(w, name, f) == a + ((if f.mutable { ")"@ } else { ") const"@ }) + ";\n"@));
}

proof fn lemma_def_qualifier(v: Seq<char>, o: Object, name: Seq<char>, f: FunctionDef)
    ensures
        holds_text(write_function_def(v, o, name, f), (if f.mutable { ")"@ } else { ") const"@ }) + "\n{\n"@),
{
    lemma_qualifier_texts(f);
    let q = if f.mutable { ")"@ } else { ") const"@ };
    let qual = if f.mutable { ""@ } else { " const"@ };
    let p = crate::cpp::code::object::functions::write_param_defs(
        v + f.return_type.spec_name() + " "@ + o.name@ + "::"@ + name + "("@,
        f.arguments@,
        f.arguments@.len() as int,
    );
    let w1 = p + ")"@ + qual + "\n{\n"@;
    assert(w1 =~= p + (q + "\n{\n"@));
    let d = write_function_def(v, o, name, f);
    let rest = d.subrange(w1.len() as int, d.len() as int);
    assert(d.subrange(0, w1.len() as int) =~= w1);
    assert(d =~= p + (q + "\n{\n"@) + rest);
}

/// An invokable function is `const` in C++ exactly when it is not mutable: its declaration
/// in the header ends with `) const;` and the signature of its definition with `) const`,
/// while a mutable function's declaration ends with `);` and its definition's signature
/// with `)`. The header and the definition thus agree on the qualifier.
pub proof fn law_const_qualifier_follows_mutability(w: Seq<char>, v: Seq<char>, o: Object, name: Seq<char>, f: FunctionDef)
    ensures
        ({
            let q = if f.mutable { ")"@ } else { ") const"@ };
            &&& ends_with_text(write_function_decl(w, name, f), q + ";\n"@)
            &&& holds_text(write_function_def(v, o, name, f), q + "\n{\n"@)
        }),
{
    lemma_decl_qualifier(w, name, f);
    lemma_def_qualifier(v, o, name, f);
}

proof fn lemma_trait_fn_args_keep(f: FnModel, args: Seq<Argument>, n: int)
    ensures
        trait_fn_args(f, args, n).name == f.name,
        trait_fn_args(f, args, n).self_arg == f.self_arg,
    decreases n,
{
    if n > 0 {
        lemma_trait_fn_args_keep(f, args, n - 1);
    }
}

proof fn lemma_functions_fns_index(fns: Seq<FnModel>, fs: Seq<(String, FunctionDef)>, n: int, i: int)
    requires
        0 <= i < n,
    ensures
        functions_fns(fns, fs, n).len() == fns.len() + n,
        functions_fns(fns, fs, n)[fns.len() + i] == function_fn(fs[i].0@, fs[i].1),
    decreases n,
{
    if n - 1 > i {
        lemma_functions_fns_index(fns, fs, n - 1, i);
    } else {
        lemma_functions_fns_len(fns, fs, n - 1);
    }
}

proof fn lemma_functions_fns_len(fns: Seq<FnModel>, fs: Seq<(String, FunctionDef)>, n: int)
    requires
        0 <= n,
    ensures
        functions_fns(fns, fs, n).len() == fns.len() + n,
    decreases n,
{
    if n > 0 {
        lemma_functions_fns_len(fns, fs, n - 1);
    }
}

proof fn lemma_item_props_fns_extend(fns: Seq<FnModel>, ips: Seq<(String, ItemProperty)>, n: int)
    ensures
        fns.is_prefix_of(item_props_fns(fns, ips, n)),
    decreases n,
{
    if n > 0 {
        lemma_item_props_fns_extend(fns, ips, n - 1);
        let a = item_props_fns(fns, ips, n - 1);
        let b = item_props_fns(fns, ips, n);
        assert(b.subrange(0, a.len() as int) =~= a);
        assert(b.subrange(0, fns.len() as int) =~= a.subrange(0, fns.len() as int));
    }
}

/// The method of the object's trait for each of its functions takes `&mut self` exactly when
/// the function is mutable and `&self` otherwise, and returns the Rust type of the function's
/// return type.
pub proof fn law_trait_receivers_follow_mutability(o: Object, i: int)
    requires
        0 <= i < o.functions@.len(),
    ensures
        exists|k: int|
            0 <= k < trait_model(o).fns.len() && (#[trigger] trait_model(o).fns[k]).name == snake(o.functions@[i].0@)
                && trait_model(o).fns[k].self_arg == Some(
                if o.functions@[i].1.mutable {
                    "&mut self"@
                } else {
                    "&self"@
                },
            ) && trait_model(o).fns[k].ret == Some(o.functions@[i].1.return_type.spec_rust_type()),
{
    let f = o.functions@[i].1;
    let f0 = FnModel::decl(snake(o.functions@[i].0@));
    let f1 = if f.mutable { f0.mut_self() } else { f0.ref_self() };
    lemma_trait_fn_args_keep(f1, f.arguments@, f.arguments@.len() as int);
    let e = crate::rust::trait_::trait_new_model(o);
    let f2 = properties_fns(
        seq![e, FnModel::decl("emit"@).mut_self().ret("&mut "@ + crate::rust::util::spec_emitter(o.name@))],
        o.properties@,
        o.properties@.len() as int,
    );
    lemma_functions_fns_index(f2, o.functions@, o.functions@.len() as int, i);
    let f3 = functions_fns(f2, o.functions@, o.functions@.len() as int);
    let k = f2.len() + i;
    let f4 = match o.object_type {
        ObjectType::List => f3 + crate::rust::trait_::list_fns(),
        ObjectType::Tree => f3 + crate::rust::trait_::tree_fns(),
        _ => f3,
    };
    assert(f4[k] == f3[k]);
    if o.object_type != ObjectType::Object {
        lemma_item_props_fns_extend(f4, o.item_properties@, o.item_properties@.len() as int);
        let f5 = item_props_fns(f4, o.item_properties@, o.item_properties@.len() as int);
        assert(f5.subrange(0, f4.len() as int)[k] == f5[k]);
    }
    assert(trait_model(o).fns[k] == function_fn(o.functions@[i].0@, f));
}

proof fn lemma_names_text_append(w: Seq<char>, args: Seq<Argument>, n: int)
    ensures
        names_text(w, args, n) == w + names_text(Seq::empty(), args, n),
    decreases n,
{
    if n <= 0 {
        assert(w + Seq::<char>::empty() =~= w);
    } else {
        lemma_names_text_append(w, args, n - 1);
        if n == 1 {
            assert(names_text(w, args, n) =~= w + names_text(Seq::empty(), args, n));
        } else {
            assert(names_text(w, args, n) =~= w + names_text(Seq::empty(), args, n));
        }
    }
}

proof fn lemma_convs_text_append(w: Seq<char>, args: Seq<Argument>, n: int)
    ensures
        convs_text(w, args, n) == w + convs_text(Seq::empty(), args, n),
    decreases n,
{
    if n <= 0 {
        assert(w + Seq::<char>::empty() =~= w);
    } else {
        lemma_convs_text_append(w, args, n - 1);
        let c0 = convs_text(Seq::empty(), args, n - 1);
        assert(conv_text(w + c0, args[n - 1]) =~= w + conv_text(c0, args[n - 1]));
    }
}

/// The text of a C wrapper of a function, after the deref line, given what comes before it.
pub open spec fn wrapper_tail(name: Seq<char>, f: FunctionDef) -> Seq<char> {
    let args = f.arguments@;
    let n = args.len() as int;
    let call = (if f.return_type.spec_is_complex() {
        "    let r = o."@
    } else {
        "    o."@
    }) + snake(name) + "("@ + names_text(Seq::empty(), args, n) + ")"@;
    let end = if f.return_type.spec_is_complex() {
        ";\n"@ + "    let s: *const c_char = r.as_ptr() as (*const c_char);\n    set(d, s, r.len() as i32);\n"@
    } else {
        "\n"@
    };
    call + end + "}\n"@
}

proof fn lemma_function_text_split(w: Seq<char>, name: Seq<char>, f: FunctionDef, lcname: Seq<char>, o: Object)
    ensures
        ({
            let args = f.arguments@;
            let n = args.len() as int;
            let w1 = w + "\n#[no_mangle]\npub unsafe extern \"C\" fn "@ + lcname + "_"@ + snake(name) + "(ptr: *"@ + (if f.mutable {
                "mut"@
            } else {
                "const"@
            }) + " "@ + o.name@;
            let w2 = ret_text(params_text(w1, args, n), f);
            let deref = if f.mutable { "    let o = &mut *ptr;\n"@ } else { "    let o = &*ptr;\n"@ };
            function_text(w, name, f, lcname, o) == w2 + convs_text(Seq::empty(), args, n) + deref + wrapper_tail(name, f)
        }),
{
    let args = f.arguments@;
    let n = args.len() as int;
    let w1 = w + "\n#[no_mangle]\npub unsafe extern \"C\" fn "@ + lcname + "_"@ + snake(name) + "(ptr: *"@ + (if f.mutable {
        "mut"@
    } else {
        "const"@
    }) + " "@ + o.name@;
    let w2 = ret_text(params_text(w1, args, n), f);
    let deref = if f.mutable { "    let o = &mut *ptr;\n"@ } else { "    let o = &*ptr;\n"@ };
    lemma_convs_text_append(w2, args, n);
    let w3 = convs_text(w2, args, n) + deref;
    let x = w3 + (if f.return_type.spec_is_complex() {
        "    let r = o."@
    } else {
        "    o."@
    }) + snake(name) + "("@;
    lemma_names_text_append(x, args, n);
    assert(function_text(w, name, f, lcname, o) =~= w2 + convs_text(Seq::empty(), args, n) + deref + wrapper_tail(name, f));
}

/// The C wrapper of an object's function reaches the Rust object through the receiver that
/// the trait method takes: a mutable function's wrapper takes `*mut` and borrows the object
/// with `&mut *ptr`, any other function's wrapper takes `*const` and borrows it with `&*ptr`
/// (both as codegen items and as text). A function whose return type is neither void nor a
/// string or byte array returns the Rust type of its return type, the type the trait method
/// returns.
pub proof fn law_function_wrappers_follow_mutability(w: Seq<char>, name: Seq<char>, f: FunctionDef, lcname: Seq<char>, o: Object)
    ensures
        function_model(name, f, o).args.len() > 0,
        function_model(name, f, o).args[0] == ("ptr"@, (if f.mutable { "*mut "@ } else { "*const "@ }) + o.name@),
        holds_text(
            function_text(w, name, f, lcname, o),
            if f.mutable { "    let o = &mut *ptr;\n"@ } else { "    let o = &*ptr;\n"@ },
        ),
        !f.return_type.spec_is_complex() && !(f.return_type is Void) ==> holds_text(
            function_text(w, name, f, lcname, o),
            ") -> "@ + f.return_type.spec_rust_type() + " {\n"@,
        ),
{
    let args = f.arguments@;
    let n = args.len() as int;
    let w1 = w + "\n#[no_mangle]\npub unsafe extern \"C\" fn "@ + lcname + "_"@ + snake(name) + "(ptr: *"@ + (if f.mutable {
        "mut"@
    } else {
        "const"@
    }) + " "@ + o.name@;
    let p = params_text(w1, args, n);
    let w2 = ret_text(p, f);
    let deref = if f.mutable { "    let o = &mut *ptr;\n"@ } else { "    let o = &*ptr;\n"@ };
    lemma_function_text_split(w, name, f, lcname, o);
    let cv = convs_text(Seq::empty(), args, n);
    let tail = wrapper_tail(name, f);
    let text = function_text(w, name, f, lcname, o);
    assert(text =~= (w2 + cv) + deref + tail);
    if !f.return_type.spec_is_complex() && !(f.return_type is Void) {
        let piece = ") -> "@ + f.return_type.spec_rust_type() + " {\n"@;
        assert(w2 =~= p + piece);
        assert(text =~= p + piece + (cv + deref + tail));
    }
    lemma_function_model_receiver(name, f, o);
}

proof fn lemma_args_model_keep_args(f: FnModel, args: Seq<Argument>, n: int)
    ensures
        f.args.is_prefix_of(crate::rust::c_ffi::funcs::args_model(f, args, n).args),
    decreases n,
{
    if n > 0 {
        lemma_args_model_keep_args(f, args, n - 1);
        let a = crate::rust::c_ffi::funcs::args_model(f, args, n - 1).args;
        let b = crate::rust::c_ffi::funcs::args_model(f, args, n).args;
        assert(b.subrange(0, a.len() as int) =~= a);
        assert(b.subrange(0, f.args.len() as int) =~= a.subrange(0, f.args.len() as int));
    }
}

proof fn lemma_arg_name_lines_keep_args(f: FnModel, args: Seq<Argument>, n: int)
    ensures
        crate::rust::c_ffi::funcs::arg_name_lines(f, args, n).args == f.args,
    decreases n,
{
    if n > 0 {
        lemma_arg_name_lines_keep_args(f, args, n - 1);
    }
}

proof fn lemma_function_model_receiver(name: Seq<char>, f: FunctionDef, o: Object)
    ensures
        function_model(name, f, o).args.len() > 0,
        function_model(name, f, o).args[0] == ("ptr"@, (if f.mutable { "*mut "@ } else { "*const "@ }) + o.name@),
{
    let head = FnModel::new(snake(o.name@) + "_"@ + snake(name)).attr("no_mangle"@).vis("pub unsafe"@).abi("C"@);
    let r = receiver_model(head, o, f);
    assert(r.args =~= seq![("ptr"@, (if f.mutable { "*mut "@ } else { "*const "@ }) + o.name@)]);
    lemma_args_model_keep_args(r, f.arguments@, f.arguments@.len() as int);
    let g = args_model(r, f.arguments@, f.arguments@.len() as int);
    assert(g.args[0] == r.args[0]);
    if f.return_type.spec_is_complex() {
        let ret = f.return_type.spec_name();
        let h = g.arg("data"@, "*mut "@ + ret).arg("set"@, "fn(*mut "@ + ret + ", str_: *const c_char, len: c_int)"@).line(
            "let ret = obj."@ + snake(name) + "("@,
        );
        lemma_arg_name_lines_keep_args(h, f.arguments@, f.arguments@.len() as int);
        assert(h.args[0] == g.args[0]);
    } else {
        let h = g.ret(f.return_type.spec_rust_type()).line("obj."@ + snake(name) + "("@);
        lemma_arg_name_lines_keep_args(h, f.arguments@, f.arguments@.len() as int);
    }
}

/// The C declaration of the function that clears an optional property.
pub open spec fn set_none_decl(o: Object, name: Seq<char>) -> Seq<char> {
    "    void "@ + set_none_model(o, name).name + "("@ + o.name@ + "::Private*);\n"@
}

proof fn lemma_prop_c_decl_set_none(w: Seq<char>, o: Object, name: Seq<char>, p: Property)
    requires
        p.write,
        p.optional,
    ensures
        ends_with_text(write_prop_c_decl(w, o, snake(o.name@), name, p), set_none_decl(o, name)),
{
    reveal_strlit("_set_none");
    reveal_strlit("_set_none(");
    reveal_strlit("(");
    let d = write_prop_c_decl(w, o, snake(o.name@), name, p);
    let base = snake(o.name@) + "_"@ + snake(name);
    let line = "    void "@ + base + "_set_none("@ + o.name@ + "::Private*);\n"@;
    assert(line =~= set_none_decl(o, name));
    let a = d.subrange(0, d.len() - line.len());
    assert(d =~= a + line);
}

proof fn lemma_prop_c_decl_extends(w: Seq<char>, o: Object, lcname: Seq<char>, name: Seq<char>, p: Property)
    ensures
        w.is_prefix_of(write_prop_c_decl(w, o, lcname, name, p)),
{
    let d = write_prop_c_decl(w, o, lcname, name, p);
    assert(d.subrange(0, w.len() as int) =~= w);
}

proof fn lemma_props_c_decl_extend(w: Seq<char>, o: Object, lcname: Seq<char>, m: int, n: int)
    requires
        0 <= m <= n,
    ensures
        write_props_c_decl(w, o, lcname, m).is_prefix_of(write_props_c_decl(w, o, lcname, n)),
    decreases n,
{
    if n > m {
        lemma_props_c_decl_extend(w, o, lcname, m, n - 1);
        let a = write_props_c_decl(w, o, lcname, m);
        let b = write_props_c_decl(w, o, lcname, n - 1);
        let c = write_props_c_decl(w, o, lcname, n);
        lemma_prop_c_decl_extends(b, o, lcname, o.properties@[n - 1].0@, o.properties@[n - 1].1);
        assert(c.subrange(0, a.len() as int) =~= b.subrange(0, a.len() as int));
    }
}

proof fn lemma_c_args_extend(w: Seq<char>, args: Seq<Argument>, n: int)
    ensures
        w.is_prefix_of(write_c_args(w, args, n)),
    decreases n,
{
    if n > 0 {
        lemma_c_args_extend(w, args, n - 1);
        let b = write_c_args(w, args, n - 1);
        let c = write_c_args(w, args, n);
        assert(c.subrange(0, w.len() as int) =~= b.subrange(0, w.len() as int));
    }
}

proof fn lemma_funcs_c_decl_extend(w: Seq<char>, o: Object, lcname: Seq<char>, n: int)
    requires
        n <= o.functions@.len(),
    ensures
        w.is_prefix_of(write_funcs_c_decl(w, o, lcname, n)),
    decreases n,
{
    if n > 0 {
        lemma_funcs_c_decl_extend(w, o, lcname, n - 1);
        let b = write_funcs_c_decl(w, o, lcname, n - 1);
        let c = write_funcs_c_decl(w, o, lcname, n);
        let f = o.functions@[n - 1].1;
        let w1 = b + (if f.return_type.spec_is_complex() { "void"@ } else { f.return_type.spec_name() }) + " "@ + lcname
            + "_"@ + snake(o.functions@[n - 1].0@) + "("@ + (if f.mutable { ""@ } else { "const "@ }) + o.name@
            + "::Private*"@;
        lemma_c_args_extend(w1, f.arguments@, f.arguments@.len() as int);
        let w2 = write_c_args(w1, f.arguments@, f.arguments@.len() as int);
        assert(w1.subrange(0, b.len() as int) =~= b);
        assert(w2.subrange(0, b.len() as int) =~= w2.subrange(0, w1.len() as int).subrange(0, b.len() as int));
        assert(w2.subrange(0, b.len() as int) =~= b);
        assert(c.subrange(0, w2.len() as int) =~= w2);
        assert(c.subrange(0, b.len() as int) =~= b);
        assert(c.subrange(0, w.len() as int) =~= b.subrange(0, w.len() as int));
    }
}

/// The C declarations of an object declare, for every writable optional property, the
/// function `<object>_<property>_set_none` that clears it, the function that the Rust
/// interface defines under that name.
pub proof fn law_set_none_declared(w: Seq<char>, o: Object, i: int)
    requires
        0 <= i < o.properties@.len(),
        o.properties@[i].1.write,
        o.properties@[i].1.optional,
    ensures
        holds_text(write_object_c_decl_spec(w, o), set_none_decl(o, o.properties@[i].0@)),
{
    let lcname = snake(o.name@);
    let w1 = crate::cpp::helpers::write_ctor_args_decl_full(w + o.name@ + "::Private* "@ + lcname + "_new("@, o) + ");\nvoid "@
        + lcname + "_free("@ + o.name@ + "::Private*);\n"@;
    let n = o.properties@.len() as int;
    let before = write_props_c_decl(w1, o, lcname, i);
    let d = write_props_c_decl(w1, o, lcname, i + 1);
    lemma_prop_c_decl_set_none(before, o, o.properties@[i].0@, o.properties@[i].1);
    let line = set_none_decl(o, o.properties@[i].0@);
    let a = choose|a: Seq<char>| d == a + line;
    lemma_props_c_decl_extend(w1, o, lcname, i + 1, n);
    let props = write_props_c_decl(w1, o, lcname, n);
    lemma_funcs_c_decl_extend(props, o, lcname, o.functions@.len() as int);
    let text = write_object_c_decl_spec(w, o);
    assert(d.is_prefix_of(text));
    let b = text.subrange(d.len() as int, text.len() as int);
    assert(text =~= a + line + b);
}

} // verus!

//! The pointer bundle is the one value that crosses from C++ to Rust when an object is built.
//! Three emitters describe it: the `#[repr(C)]` struct on the Rust side, the struct
//! declaration in the C++ header, and the aggregate initializer in the C++ constructor. The
//! laws here show that all three are written slot by slot from one layout, in the same order.

use crate::configuration::{nested_object, Object, ObjectType, Signal, Type};
use crate::cpp::code::object::{emit_block, write_ctor_args, write_ctor_args_upto, write_signal_lambdas, write_signal_params};
use crate::cpp::codegen::block_text;
use crate::cpp::header::{list_callback_line, signal_arg_lines, signal_lines, typedef_lines, typedef_lines_full};
use crate::cpp::helpers::spec_changed_f;
use crate::rust::c_ffi::ptr_bundle::{bundle_fields_model, bundle_fields_upto, list_bundle_fields, signal_fields, signal_type};
use crate::rust::cg::StructModel;
use crate::rust::util::spec_qobject;
use crate::template::fill_template;
use crate::text::{decimal, snake};
use vstd::prelude::*;

verus! {

/// One slot of the pointer bundle. `field` is the name under which the Rust side knows the
/// object the slot belongs to (the object's own name at the top, the property's name for a
/// nested object); `obj` is that object.
pub enum BundleSlot {
    /// The pointer to the C++ object; `ctor_arg` is what the C++ constructor passes for it
    /// (nothing for the object being built, which passes `this` itself).
    Pointer { field: Seq<char>, obj: Object, ctor_arg: Seq<char> },
    /// The change callback of a property that is not an object.
    Changed { field: Seq<char>, obj: Object, prop: Seq<char> },
    /// The row-change callbacks of a list.
    Model { field: Seq<char>, obj: Object },
    /// The callback of a signal.
    Signal { field: Seq<char>, obj: Object, name: Seq<char>, signal: Signal },
}

pub open spec fn signal_slots(field: Seq<char>, o: Object, n: int) -> Seq<BundleSlot>
    decreases n,
{
    if n <= 0 {
        Seq::empty()
    } else {
        signal_slots(field, o, n - 1).push(
            BundleSlot::Signal { field, obj: o, name: o.signals@[n - 1].0@, signal: o.signals@[n - 1].1 },
        )
    }
}

pub open spec fn layout_upto(o: Object, field: Seq<char>, prefix: Seq<char>, ctor_arg: Seq<char>, n: int) -> Seq<BundleSlot>
    decreases o, n,
{
    if n <= 0 || n > o.properties@.len() {
        seq![BundleSlot::Pointer { field, obj: o, ctor_arg }]
    } else {
        let l = layout_upto(o, field, prefix, ctor_arg, n - 1);
        let k = o.properties@[n - 1].0@;
        match o.properties@[n - 1].1.property_type {
            Type::Object(c) => l + layout(*c, k, prefix + "m_"@ + k + "->"@, ", "@ + prefix + "m_"@ + k),
            _ => l.push(BundleSlot::Changed { field, obj: o, prop: k }),
        }
    }
}

/// The slots of an object's part of the bundle: its pointer, a change callback per property
/// (the part of a nested object in its place), the model callbacks of a list, and a callback
/// per signal. `prefix` is the C++ member path of the object, `ctor_arg` what the C++
/// constructor passes for its pointer.
pub open spec fn layout(o: Object, field: Seq<char>, prefix: Seq<char>, ctor_arg: Seq<char>) -> Seq<BundleSlot>
    decreases o, o.properties@.len() + 1,
{
    let l1 = layout_upto(o, field, prefix, ctor_arg, o.properties@.len() as int);
    let l2 = if o.object_type == ObjectType::List {
        l1.push(BundleSlot::Model { field, obj: o })
    } else {
        l1
    };
    l2 + signal_slots(field, o, o.signals@.len() as int)
}

/// The Rust fields of one slot.
pub open spec fn slot_fields(s: StructModel, slot: BundleSlot) -> StructModel {
    match slot {
        BundleSlot::Pointer { field, obj, .. } => s.field(snake(field), "*mut "@ + spec_qobject(obj.name@)),
        BundleSlot::Changed { field, obj, prop } => s.field(
            snake(field) + "_"@ + snake(prop) + "_changed"@,
            "fn(*mut "@ + spec_qobject(obj.name@) + ")"@,
        ),
        BundleSlot::Model { field, obj } => list_bundle_fields(s, snake(field), spec_qobject(obj.name@)),
        BundleSlot::Signal { field, obj, name, signal } => s.field(
            snake(field) + "_"@ + name,
            signal_type(spec_qobject(obj.name@), signal),
        ),
    }
}

pub open spec fn fields_of(s: StructModel, slots: Seq<BundleSlot>) -> StructModel
    decreases slots.len(),
{
    if slots.len() == 0 {
        s
    } else {
        slot_fields(fields_of(s, slots.drop_last()), slots.last())
    }
}

/// The C++ member declarations of one slot, as lines of the header's struct.
pub open spec fn slot_lines(ls: Seq<Seq<char>>, slot: BundleSlot) -> Seq<Seq<char>> {
    match slot {
        BundleSlot::Pointer { obj, .. } => ls.push(obj.name@ + "* "@ + snake(obj.name@) + ";"@),
        BundleSlot::Changed { obj, prop, .. } => ls.push(
            "void (*"@ + snake(obj.name@) + "_"@ + snake(prop) + "_changed)("@ + obj.name@ + "*);"@,
        ),
        BundleSlot::Model { obj, .. } => ls.push(list_callback_line(obj)),
        BundleSlot::Signal { obj, name, signal, .. } => signal_arg_lines(
            ls.push("void (*"@ + snake(obj.name@) + "_"@ + name + ")(const "@ + obj.name@ + "*"@),
            signal,
            signal.arguments@.len() as int,
        ).push(");"@),
    }
}

pub open spec fn lines_of(ls: Seq<Seq<char>>, slots: Seq<BundleSlot>) -> Seq<Seq<char>>
    decreases slots.len(),
{
    if slots.len() == 0 {
        ls
    } else {
        slot_lines(lines_of(ls, slots.drop_last()), slots.last())
    }
}

/// What the C++ constructor passes for one slot (`lambdas` is the template of a list's
/// callbacks).
pub open spec fn slot_arg(w: Seq<char>, slot: BundleSlot, lambdas: Seq<char>) -> Seq<char> {
    match slot {
        BundleSlot::Pointer { ctor_arg, .. } => w + ctor_arg,
        BundleSlot::Changed { obj, prop, .. } => w + ",\n"@ + spec_changed_f(obj, prop),
        BundleSlot::Model { obj, .. } => w + fill_template(lambdas, obj.name@, decimal((obj.spec_column_count() - 1) as nat))
            + "\n"@,
        BundleSlot::Signal { obj, name, signal, .. } => write_signal_params(
            w + ","@ + "[](const "@ + obj.name@ + "* o"@,
            signal,
            signal.arguments@.len() as int,
        ) + ")"@ + block_text(emit_block(name, signal)),
    }
}

pub open spec fn args_of(w: Seq<char>, slots: Seq<BundleSlot>, lambdas: Seq<char>) -> Seq<char>
    decreases slots.len(),
{
    if slots.len() == 0 {
        w
    } else {
        slot_arg(args_of(w, slots.drop_last(), lambdas), slots.last(), lambdas)
    }
}

proof fn lemma_fields_append(s: StructModel, a: Seq<BundleSlot>, b: Seq<BundleSlot>)
    ensures
        fields_of(s, a + b) == fields_of(fields_of(s, a), b),
    decreases b.len(),
{
    if b.len() == 0 {
        assert(a + b =~= a);
    } else {
        lemma_fields_append(s, a, b.drop_last());
        assert((a + b).drop_last() =~= a + b.drop_last());
        assert((a + b).last() == b.last());
    }
}

proof fn lemma_lines_append(ls: Seq<Seq<char>>, a: Seq<BundleSlot>, b: Seq<BundleSlot>)
    ensures
        lines_of(ls, a + b) == lines_of(lines_of(ls, a), b),
    decreases b.len(),
{
    if b.len() == 0 {
        assert(a + b =~= a);
    } else {
        lemma_lines_append(ls, a, b.drop_last());
        assert((a + b).drop_last() =~= a + b.drop_last());
        assert((a + b).last() == b.last());
    }
}

proof fn lemma_args_append(w: Seq<char>, a: Seq<BundleSlot>, b: Seq<BundleSlot>, lambdas: Seq<char>)
    ensures
        args_of(w, a + b, lambdas) == args_of(args_of(w, a, lambdas), b, lambdas),
    decreases b.len(),
{
    if b.len() == 0 {
        assert(a + b =~= a);
    } else {
        lemma_args_append(w, a, b.drop_last(), lambdas);
        assert((a + b).drop_last() =~= a + b.drop_last());
        assert((a + b).last() == b.last());
    }
}

proof fn lemma_signal_slots(field: Seq<char>, o: Object, n: int, s: StructModel, ls: Seq<Seq<char>>, w: Seq<char>, lambdas: Seq<char>)
    requires
        0 <= n <= o.signals@.len(),
    ensures
        fields_of(s, signal_slots(field, o, n)) == signal_fields(s, snake(field), spec_qobject(o.name@), o.signals@, n),
        lines_of(ls, signal_slots(field, o, n)) == signal_lines(ls, o, n),
        args_of(w, signal_slots(field, o, n), lambdas) == write_signal_lambdas(w, o, n),
    decreases n,
{
    if n > 0 {
        lemma_signal_slots(field, o, n - 1, s, ls, w, lambdas);
        let sl = signal_slots(field, o, n);
        assert(sl.drop_last() =~= signal_slots(field, o, n - 1));
    }
}


proof fn lemma_layout_upto(
    s: StructModel,
    ls: Seq<Seq<char>>,
    w: Seq<char>,
    lambdas: Seq<char>,
    o: Object,
    field: Seq<char>,
    prefix: Seq<char>,
    ctor_arg: Seq<char>,
    n: int,
)
    ensures
        bundle_fields_upto(s, o, field, n) == fields_of(s, layout_upto(o, field, prefix, ctor_arg, n)),
        typedef_lines(ls, o, n) == lines_of(ls, layout_upto(o, field, prefix, ctor_arg, n)),
        write_ctor_args_upto(w + ctor_arg, prefix, o, lambdas, n) == args_of(w, layout_upto(o, field, prefix, ctor_arg, n), lambdas),
    decreases o, n,
{
    let l = layout_upto(o, field, prefix, ctor_arg, n);
    if n <= 0 || n > o.properties@.len() {
        assert(l.drop_last() =~= Seq::<BundleSlot>::empty());
        assert(fields_of(s, l) == slot_fields(fields_of(s, l.drop_last()), l.last()));
        assert(fields_of(s, Seq::<BundleSlot>::empty()) == s);
        assert(lines_of(ls, l) == slot_lines(lines_of(ls, l.drop_last()), l.last()));
        assert(lines_of(ls, Seq::<BundleSlot>::empty()) == ls);
        assert(args_of(w, l, lambdas) == slot_arg(args_of(w, l.drop_last(), lambdas), l.last(), lambdas));
        assert(args_of(w, Seq::<BundleSlot>::empty(), lambdas) == w);
    } else {
        lemma_layout_upto(s, ls, w, lambdas, o, field, prefix, ctor_arg, n - 1);
        let l0 = layout_upto(o, field, prefix, ctor_arg, n - 1);
        let k = o.properties@[n - 1].0@;
        let t = o.properties@[n - 1].1.property_type;
        if t is Object {
            let c = nested_object(t);
            let p2 = prefix + "m_"@ + k + "->"@;
            let a2 = ", "@ + prefix + "m_"@ + k;
            let lc = layout(c, k, p2, a2);
            assert(l == l0 + lc);
            lemma_fields_append(s, l0, lc);
            lemma_lines_append(ls, l0, lc);
            lemma_args_append(w, l0, lc, lambdas);
            let w1 = args_of(w, l0, lambdas);
            lemma_layout(fields_of(s, l0), lines_of(ls, l0), w1, lambdas, c, k, p2, a2);
            assert(w1 + ", "@ + prefix + "m_"@ + k =~= w1 + a2);
            assert(bundle_fields_upto(s, o, field, n) == bundle_fields_model(bundle_fields_upto(s, o, field, n - 1), c, k));
            assert(typedef_lines(ls, o, n) == typedef_lines_full(typedef_lines(ls, o, n - 1), c));
            assert(write_ctor_args_upto(w + ctor_arg, prefix, o, lambdas, n) == write_ctor_args(w1 + ", "@ + prefix + "m_"@ + k, p2, c, lambdas));
        } else {
            assert(l.drop_last() =~= l0);
        }
    }
}

proof fn lemma_layout(
    s: StructModel,
    ls: Seq<Seq<char>>,
    w: Seq<char>,
    lambdas: Seq<char>,
    o: Object,
    field: Seq<char>,
    prefix: Seq<char>,
    ctor_arg: Seq<char>,
)
    ensures
        bundle_fields_model(s, o, field) == fields_of(s, layout(o, field, prefix, ctor_arg)),
        typedef_lines_full(ls, o) == lines_of(ls, layout(o, field, prefix, ctor_arg)),
        write_ctor_args(w + ctor_arg, prefix, o, lambdas) == args_of(w, layout(o, field, prefix, ctor_arg), lambdas),
    decreases o, o.properties@.len() + 1,
{
    let n = o.properties@.len() as int;
    lemma_layout_upto(s, ls, w, lambdas, o, field, prefix, ctor_arg, n);
    let l1 = layout_upto(o, field, prefix, ctor_arg, n);
    let l2 = if o.object_type == ObjectType::List {
        l1.push(BundleSlot::Model { field, obj: o })
    } else {
        l1
    };
    if o.object_type == ObjectType::List {
        assert(l2.drop_last() =~= l1);
    }
    let sig = signal_slots(field, o, o.signals@.len() as int);
    lemma_fields_append(s, l2, sig);
    lemma_lines_append(ls, l2, sig);
    lemma_args_append(w, l2, sig, lambdas);
    lemma_signal_slots(field, o, o.signals@.len() as int, fields_of(s, l2), lines_of(ls, l2), args_of(w, l2, lambdas), lambdas);
}

/// The fields that the Rust side adds to a pointer bundle for an object, the member
/// declarations that the C++ header adds for it, and the arguments that the C++ constructor
/// passes for it are all written from the one layout `layout(o, ..)`, slot by slot and in the
/// same order: the object's pointer, a change callback per property (the part of a nested
/// object in its place), the model callbacks of a list, and a callback per signal. This holds
/// whatever the bundle, the declarations and the argument text held before. (A slot of model
/// callbacks is twelve Rust fields, one C++ line with twelve declarations, and the filled list
/// template in the constructor; the constructor passes nothing for the object's own pointer,
/// which is `this`, written before.)
pub proof fn law_bundle_layouts_agree(
    o: Object,
    field: Seq<char>,
    s: StructModel,
    ls: Seq<Seq<char>>,
    w: Seq<char>,
    lambdas: Seq<char>,
)
    ensures
        ({
            let slots = layout(o, field, ""@, ""@);
            &&& bundle_fields_model(s, o, field) == fields_of(s, slots)
            &&& typedef_lines_full(ls, o) == lines_of(ls, slots)
            &&& write_ctor_args(w, ""@, o, lambdas) == args_of(w, slots, lambdas)
        }),
{
    lemma_layout(s, ls, w, lambdas, o, field, ""@, ""@);
    assert(w + ""@ =~= w) by {
        reveal_strlit("");
    }
}

/// For the bundle as `ptr_bundle` builds it: the Rust struct, the C++ header's struct and the
/// C++ constructor's initializer follow the layout of the object under its own name.
pub proof fn law_ptr_bundle_layout(o: Object, lambdas: Seq<char>)
    ensures
        ({
            let slots = layout(o, o.name@, ""@, ""@);
            &&& crate::rust::c_ffi::ptr_bundle::ptr_bundle_model(o) == fields_of(
                StructModel::new(crate::rust::c_ffi::spec_ptr_bundle_name(o)).repr("C"@).vis("pub"@).derive("Clone"@).derive(
                    "Copy"@,
                ),
                slots,
            )
            &&& typedef_lines_full(Seq::empty(), o) == lines_of(Seq::empty(), slots)
            &&& write_ctor_args(Seq::empty(), ""@, o, lambdas) == args_of(Seq::empty(), slots, lambdas)
        }),
{
    let s0 = StructModel::new(crate::rust::c_ffi::spec_ptr_bundle_name(o)).repr("C"@).vis("pub"@).derive("Clone"@).derive(
        "Copy"@,
    );
    law_bundle_layouts_agree(o, o.name@, s0, Seq::empty(), Seq::empty(), lambdas);
}

} // verus!

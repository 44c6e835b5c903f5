//! The bindings configuration: objects with their properties, item properties, functions,
//! signals and connections, and the type vocabulary used to describe them.

use crate::entries::{ascending, entry_keys, insert_name, key_lt, lemma_key_lt_irreflexive, names_view};
use crate::text::{ascii_initial, lower_text, to_lowercase};
use std::rc::Rc;
use vstd::prelude::*;
use vstd::string::*;

verus! {

/// A whole bindings configuration. The tables hold `(name, value)` entries in ascending name
/// order, as the configuration's maps are walked when code is emitted.
pub struct Config {
    pub out_dir: String,
    pub cpp_file: String,
    pub objects: Vec<(String, Rc<Object>)>,
    pub rust: Rust,
    pub overwrite_implementation: bool,
}

pub struct Rust {
    pub dir: String,
    pub implementation_module: String,
    pub interface_module: String,
}

#[derive(PartialEq, Eq, Structural, Debug, Clone, Copy)]
pub enum ObjectType {
    Object,
    List,
    Tree,
}

#[derive(PartialEq, Clone, Debug)]
pub enum SimpleType {
    QString,
    QByteArray,
    Bool,
    Float,
    Double,
    Void,
    Qint8,
    Qint16,
    Qint32,
    Qint64,
    QUint8,
    QUint16,
    QUint32,
    QUint64,
    QObject(String),
}

/// The argument types a signal may carry: the scalar types that are passed by copy.
#[derive(PartialEq, Eq, Structural, Clone, Copy, Debug)]
pub enum CopyType {
    Bool,
    Float,
    Double,
    Qint8,
    Qint16,
    Qint32,
    Qint64,
    QUint8,
    QUint16,
    QUint32,
    QUint64,
}

pub enum Type {
    Simple(SimpleType),
    Object(Rc<Object>),
}

pub struct Object {
    pub name: String,
    pub functions: Vec<(String, FunctionDef)>,
    pub item_properties: Vec<(String, ItemProperty)>,
    pub object_type: ObjectType,
    pub properties: Vec<(String, Property)>,
    pub signals: Vec<(String, Signal)>,
    pub connections: Vec<Connection>,
}

pub struct Property {
    pub optional: bool,
    pub property_type: Type,
    pub rust_by_function: bool,
    pub rust_by_value: bool,
    pub write: bool,
}

pub struct ItemProperty {
    pub item_property_type: Type,
    pub optional: bool,
    pub roles: Vec<Vec<String>>,
    pub rust_by_value: bool,
    pub write: bool,
}

pub struct FunctionDef {
    pub return_type: SimpleType,
    pub mutable: bool,
    pub arguments: Vec<Argument>,
}

pub struct Argument {
    pub name: String,
    pub argument_type: SimpleType,
}

pub struct Signal {
    pub arguments: Vec<CopyArgument>,
}

pub struct CopyArgument {
    pub name: String,
    pub argument_type: CopyType,
}

/// A queued connection from one of the object's signals to one of its functions.
pub struct Connection {
    pub signal: String,
    pub function: String,
}

impl SimpleType {
    pub open spec fn spec_name(&self) -> Seq<char> {
        match self {
            SimpleType::QString => "QString"@,
            SimpleType::QByteArray => "QByteArray"@,
            SimpleType::Bool => "bool"@,
            SimpleType::Float => "float"@,
            SimpleType::Double => "double"@,
            SimpleType::Void => "void"@,
            SimpleType::Qint8 => "qint8"@,
            SimpleType::Qint16 => "qint16"@,
            SimpleType::Qint32 => "qint32"@,
            SimpleType::Qint64 => "qint64"@,
            SimpleType::QUint8 => "quint8"@,
            SimpleType::QUint16 => "quint16"@,
            SimpleType::QUint32 => "quint32"@,
            SimpleType::QUint64 => "quint64"@,
            SimpleType::QObject(name) => name@,
        }
    }

    /// The C++ name of the type.
    pub fn name(&self) -> (r: &str)
        ensures
            r@ == self.spec_name(),
    {
        match self {
            SimpleType::QString => "QString",
            SimpleType::QByteArray => "QByteArray",
            SimpleType::Bool => "bool",
            SimpleType::Float => "float",
            SimpleType::Double => "double",
            SimpleType::Void => "void",
            SimpleType::Qint8 => "qint8",
            SimpleType::Qint16 => "qint16",
            SimpleType::Qint32 => "qint32",
            SimpleType::Qint64 => "qint64",
            SimpleType::QUint8 => "quint8",
            SimpleType::QUint16 => "quint16",
            SimpleType::QUint32 => "quint32",
            SimpleType::QUint64 => "quint64",
            SimpleType::QObject(name) => name.as_str(),
        }
    }

    pub open spec fn spec_is_complex(&self) -> bool {
        self is QString || self is QByteArray
    }

    /// Whether values of the type are passed between C++ and Rust as a pointer and a length.
    pub fn is_complex(&self) -> (r: bool)
        ensures
            r == self.spec_is_complex(),
    {
        match self {
            SimpleType::QString | SimpleType::QByteArray => true,
            _ => false,
        }
    }

    pub open spec fn spec_cpp_set_type(&self) -> Seq<char> {
        match self {
            SimpleType::QString => "const QString&"@,
            SimpleType::QByteArray => "const QByteArray&"@,
            _ => self.spec_name(),
        }
    }

    /// The C++ type of a setter's argument.
    pub fn cpp_set_type(&self) -> (r: &str)
        ensures
            r@ == self.spec_cpp_set_type(),
    {
        match self {
            SimpleType::QString => "const QString&",
            SimpleType::QByteArray => "const QByteArray&",
            _ => self.name(),
        }
    }

    pub open spec fn spec_c_set_type(&self) -> Seq<char> {
        match self {
            SimpleType::QString => "qstring_t"@,
            SimpleType::QByteArray => "qbytearray_t"@,
            _ => self.spec_name(),
        }
    }

    /// The C type of a setter's argument.
    pub fn c_set_type(&self) -> (r: &str)
        ensures
            r@ == self.spec_c_set_type(),
    {
        match self {
            SimpleType::QString => "qstring_t",
            SimpleType::QByteArray => "qbytearray_t",
            _ => self.name(),
        }
    }

    pub open spec fn spec_rust_type(&self) -> Seq<char> {
        match self {
            SimpleType::QString => "String"@,
            SimpleType::QByteArray => "Vec<u8>"@,
            SimpleType::Bool => "bool"@,
            SimpleType::Float => "f32"@,
            SimpleType::Double => "f64"@,
            SimpleType::Void => "()"@,
            SimpleType::Qint8 => "i8"@,
            SimpleType::Qint16 => "i16"@,
            SimpleType::Qint32 => "i32"@,
            SimpleType::Qint64 => "i64"@,
            SimpleType::QUint8 => "u8"@,
            SimpleType::QUint16 => "u16"@,
            SimpleType::QUint32 => "u32"@,
            SimpleType::QUint64 => "u64"@,
            SimpleType::QObject(name) => name@,
        }
    }

    /// The Rust type that stands for the type.
    pub fn rust_type(&self) -> (r: &str)
        ensures
            r@ == self.spec_rust_type(),
    {
        match self {
            SimpleType::QString => "String",
            SimpleType::QByteArray => "Vec<u8>",
            SimpleType::Bool => "bool",
            SimpleType::Float => "f32",
            SimpleType::Double => "f64",
            SimpleType::Void => "()",
            SimpleType::Qint8 => "i8",
            SimpleType::Qint16 => "i16",
            SimpleType::Qint32 => "i32",
            SimpleType::Qint64 => "i64",
            SimpleType::QUint8 => "u8",
            SimpleType::QUint16 => "u16",
            SimpleType::QUint32 => "u32",
            SimpleType::QUint64 => "u64",
            SimpleType::QObject(name) => name.as_str(),
        }
    }

    pub open spec fn spec_rust_type_init(&self) -> Seq<char> {
        match self {
            SimpleType::QString => "String::new()"@,
            SimpleType::QByteArray => "Vec::new()"@,
            SimpleType::Bool => "false"@,
            SimpleType::Float | SimpleType::Double => "0.0"@,
            SimpleType::Void => "()"@,
            _ => "0"@,
        }
    }

    /// A Rust expression for the type's initial value.
    pub fn rust_type_init(&self) -> (r: &str)
        ensures
            r@ == self.spec_rust_type_init(),
    {
        match self {
            SimpleType::QString => "String::new()",
            SimpleType::QByteArray => "Vec::new()",
            SimpleType::Bool => "false",
            SimpleType::Float | SimpleType::Double => "0.0",
            SimpleType::Void => "()",
            _ => "0",
        }
    }
}

impl CopyType {
    pub open spec fn spec_name(&self) -> Seq<char> {
        match self {
            CopyType::Bool => "bool"@,
            CopyType::Float => "float"@,
            CopyType::Double => "double"@,
            CopyType::Qint8 => "qint8"@,
            CopyType::Qint16 => "qint16"@,
            CopyType::Qint32 => "qint32"@,
            CopyType::Qint64 => "qint64"@,
            CopyType::QUint8 => "quint8"@,
            CopyType::QUint16 => "quint16"@,
            CopyType::QUint32 => "quint32"@,
            CopyType::QUint64 => "quint64"@,
        }
    }

    /// The C++ name of the type; it is also the C type and the C++ argument type.
    pub fn name(&self) -> (r: &str)
        ensures
            r@ == self.spec_name(),
    {
        match self {
            CopyType::Bool => "bool",
            CopyType::Float => "float",
            CopyType::Double => "double",
            CopyType::Qint8 => "qint8",
            CopyType::Qint16 => "qint16",
            CopyType::Qint32 => "qint32",
            CopyType::Qint64 => "qint64",
            CopyType::QUint8 => "quint8",
            CopyType::QUint16 => "quint16",
            CopyType::QUint32 => "quint32",
            CopyType::QUint64 => "quint64",
        }
    }

    pub fn c_set_type(&self) -> (r: &str)
        ensures
            r@ == self.spec_name(),
    {
        self.name()
    }

    pub fn cpp_set_type(&self) -> (r: &str)
        ensures
            r@ == self.spec_name(),
    {
        self.name()
    }

    pub open spec fn spec_rust_type(&self) -> Seq<char> {
        match self {
            CopyType::Bool => "bool"@,
            CopyType::Float => "f32"@,
            CopyType::Double => "f64"@,
            CopyType::Qint8 => "i8"@,
            CopyType::Qint16 => "i16"@,
            CopyType::Qint32 => "i32"@,
            CopyType::Qint64 => "i64"@,
            CopyType::QUint8 => "u8"@,
            CopyType::QUint16 => "u16"@,
            CopyType::QUint32 => "u32"@,
            CopyType::QUint64 => "u64"@,
        }
    }

    pub fn rust_type(&self) -> (r: &str)
        ensures
            r@ == self.spec_rust_type(),
    {
        match self {
            CopyType::Bool => "bool",
            CopyType::Float => "f32",
            CopyType::Double => "f64",
            CopyType::Qint8 => "i8",
            CopyType::Qint16 => "i16",
            CopyType::Qint32 => "i32",
            CopyType::Qint64 => "i64",
            CopyType::QUint8 => "u8",
            CopyType::QUint16 => "u16",
            CopyType::QUint32 => "u32",
            CopyType::QUint64 => "u64",
        }
    }
}

impl Type {
    pub open spec fn spec_is_object(&self) -> bool {
        self is Object
    }

    pub fn is_object(&self) -> (r: bool)
        ensures
            r == self.spec_is_object(),
    {
        match self {
            Type::Object(_) => true,
            _ => false,
        }
    }

    pub open spec fn spec_is_complex(&self) -> bool {
        match self {
            Type::Simple(s) => s.spec_is_complex(),
            _ => false,
        }
    }

    pub fn is_complex(&self) -> (r: bool)
        ensures
            r == self.spec_is_complex(),
    {
        match self {
            Type::Simple(simple) => simple.is_complex(),
            _ => false,
        }
    }

    pub open spec fn spec_name(&self) -> Seq<char> {
        match self {
            Type::Simple(s) => s.spec_name(),
            Type::Object(o) => o.name@,
        }
    }

    pub fn name(&self) -> (r: &str)
        ensures
            r@ == self.spec_name(),
    {
        match self {
            Type::Simple(s) => s.name(),
            Type::Object(o) => o.name.as_str(),
        }
    }

    pub open spec fn spec_cpp_set_type(&self) -> Seq<char> {
        match self {
            Type::Simple(s) => s.spec_cpp_set_type(),
            Type::Object(o) => o.name@,
        }
    }

    pub fn cpp_set_type(&self) -> (r: &str)
        ensures
            r@ == self.spec_cpp_set_type(),
    {
        match self {
            Type::Simple(s) => s.cpp_set_type(),
            Type::Object(o) => o.name.as_str(),
        }
    }

    pub open spec fn spec_c_set_type(&self) -> Seq<char> {
        match self {
            Type::Simple(s) => s.spec_c_set_type(),
            Type::Object(o) => o.name@,
        }
    }

    pub fn c_set_type(&self) -> (r: &str)
        ensures
            r@ == self.spec_c_set_type(),
    {
        match self {
            Type::Simple(s) => s.c_set_type(),
            Type::Object(o) => o.name.as_str(),
        }
    }

    pub open spec fn spec_rust_type(&self) -> Seq<char> {
        match self {
            Type::Simple(s) => s.spec_rust_type(),
            Type::Object(o) => o.name@,
        }
    }

    pub fn rust_type(&self) -> (r: &str)
        ensures
            r@ == self.spec_rust_type(),
    {
        match self {
            Type::Simple(s) => s.rust_type(),
            Type::Object(o) => o.name.as_str(),
        }
    }

    /// A Rust expression for the initial value; object types have none.
    pub fn rust_type_init(&self) -> (r: &str)
        requires
            !self.spec_is_object(),
        ensures
            r@ == self->Simple_0.spec_rust_type_init(),
    {
        match self {
            Type::Simple(s) => s.rust_type_init(),
            Type::Object(_) => { proof { assert(false); } "" },
        }
    }
}

/// The C getter's trailing arguments for a type passed by pointer and length:
/// a pointer to the C++ value and the setter that fills it.
pub open spec fn spec_c_get_type(name: Seq<char>) -> Seq<char> {
    name + "*, "@ + lower_text(name) + "_set"@
}

pub fn c_get_type_of(name: &str) -> (r: String)
    ensures
        r@ == spec_c_get_type(name@),
{
    let lower = to_lowercase(name);
    String::from_str(name).concat("*, ").concat(lower.as_str()).concat("_set")
}

impl Property {
    pub open spec fn spec_name_of_type(&self) -> Seq<char> {
        self.property_type.spec_name()
    }

    pub fn name_of_type(&self) -> (r: &str)
        ensures
            r@ == self.spec_name_of_type(),
    {
        self.property_type.name()
    }

    pub fn is_object(&self) -> (r: bool)
        ensures
            r == self.property_type.spec_is_object(),
    {
        self.property_type.is_object()
    }

    pub fn is_complex(&self) -> (r: bool)
        ensures
            r == self.property_type.spec_is_complex(),
    {
        self.property_type.is_complex()
    }

    pub fn c_get_type(&self) -> (r: String)
        ensures
            r@ == spec_c_get_type(self.spec_name_of_type()),
    {
        c_get_type_of(self.property_type.name())
    }
}

impl ItemProperty {
    pub open spec fn spec_name_of_type(&self) -> Seq<char> {
        self.item_property_type.spec_name()
    }

    pub fn name_of_type(&self) -> (r: &str)
        ensures
            r@ == self.spec_name_of_type(),
    {
        self.item_property_type.name()
    }

    pub fn is_complex(&self) -> (r: bool)
        ensures
            r == self.item_property_type.spec_is_complex(),
    {
        self.item_property_type.is_complex()
    }

    pub open spec fn spec_cpp_set_type(&self) -> Seq<char> {
        if self.optional {
            "option_"@ + self.item_property_type.spec_cpp_set_type()
        } else {
            self.item_property_type.spec_cpp_set_type()
        }
    }

    pub fn cpp_set_type(&self) -> (r: String)
        ensures
            r@ == self.spec_cpp_set_type(),
    {
        let typ = String::from_str(self.item_property_type.cpp_set_type());
        if self.optional {
            return String::from_str("option_").concat(typ.as_str());
        }
        typ
    }

    pub fn c_get_type(&self) -> (r: String)
        ensures
            r@ == spec_c_get_type(self.spec_name_of_type()),
    {
        c_get_type_of(self.item_property_type.name())
    }

    pub fn c_set_type(&self) -> (r: &str)
        ensures
            r@ == self.item_property_type.spec_c_set_type(),
    {
        self.item_property_type.c_set_type()
    }
}


/// The type names mentioned by the first `n` properties, added to `acc`.
pub open spec fn prop_types(acc: Set<Seq<char>>, ps: Seq<(String, Property)>, n: int, only_optional: bool) -> Set<Seq<char>>
    decreases n,
{
    if n <= 0 {
        acc
    } else {
        let before = prop_types(acc, ps, n - 1, only_optional);
        if !only_optional || ps[n - 1].1.optional {
            before.insert(ps[n - 1].1.spec_name_of_type())
        } else {
            before
        }
    }
}

/// The type names mentioned by the first `n` item properties, added to `acc`.
pub open spec fn item_types(acc: Set<Seq<char>>, ps: Seq<(String, ItemProperty)>, n: int, only_optional: bool) -> Set<Seq<char>>
    decreases n,
{
    if n <= 0 {
        acc
    } else {
        let before = item_types(acc, ps, n - 1, only_optional);
        if !only_optional || ps[n - 1].1.optional {
            before.insert(ps[n - 1].1.spec_name_of_type())
        } else {
            before
        }
    }
}

/// The type names of the first `n` arguments, added to `acc`.
pub open spec fn arg_types(acc: Set<Seq<char>>, args: Seq<Argument>, n: int) -> Set<Seq<char>>
    decreases n,
{
    if n <= 0 {
        acc
    } else {
        arg_types(acc, args, n - 1).insert(args[n - 1].argument_type.spec_name())
    }
}

/// The return and argument type names of the first `n` functions, added to `acc`.
pub open spec fn func_types(acc: Set<Seq<char>>, fs: Seq<(String, FunctionDef)>, n: int) -> Set<Seq<char>>
    decreases n,
{
    if n <= 0 {
        acc
    } else {
        let f = fs[n - 1].1;
        arg_types(
            func_types(acc, fs, n - 1).insert(f.return_type.spec_name()),
            f.arguments@,
            f.arguments@.len() as int,
        )
    }
}

/// Every type name that an object mentions, added to `acc`.
pub open spec fn object_types(acc: Set<Seq<char>>, o: Object) -> Set<Seq<char>> {
    func_types(
        item_types(
            prop_types(acc, o.properties@, o.properties@.len() as int, false),
            o.item_properties@,
            o.item_properties@.len() as int,
            false,
        ),
        o.functions@,
        o.functions@.len() as int,
    )
}

/// The type names that optional values take in an object, and `quintptr` for a model.
pub open spec fn object_optional_types(acc: Set<Seq<char>>, o: Object) -> Set<Seq<char>> {
    let s = item_types(
        prop_types(acc, o.properties@, o.properties@.len() as int, true),
        o.item_properties@,
        o.item_properties@.len() as int,
        true,
    );
    if o.object_type != ObjectType::Object {
        s.insert("quintptr"@)
    } else {
        s
    }
}

/// Every type name the first `n` objects mention.
pub open spec fn config_types(objs: Seq<(String, Rc<Object>)>, n: int) -> Set<Seq<char>>
    decreases n,
{
    if n <= 0 {
        Set::empty()
    } else {
        object_types(config_types(objs, n - 1), *objs[n - 1].1)
    }
}

/// The optional type names of the first `n` objects.
pub open spec fn config_optional_types(objs: Seq<(String, Rc<Object>)>, n: int) -> Set<Seq<char>>
    decreases n,
{
    if n <= 0 {
        Set::empty()
    } else {
        object_optional_types(config_optional_types(objs, n - 1), *objs[n - 1].1)
    }
}

/// Every name of `a` other than `quintptr` is a name of `b`.
pub open spec fn names_within(a: Set<Seq<char>>, b: Set<Seq<char>>) -> bool {
    forall|t: Seq<char>| #[trigger] a.contains(t) && t != "quintptr"@ ==> b.contains(t)
}

proof fn lemma_prop_types_within(a: Set<Seq<char>>, b: Set<Seq<char>>, ps: Seq<(String, Property)>, n: int)
    requires
        names_within(a, b),
    ensures
        names_within(prop_types(a, ps, n, true), prop_types(b, ps, n, false)),
    decreases n,
{
    if n > 0 {
        lemma_prop_types_within(a, b, ps, n - 1);
    }
}

proof fn lemma_item_types_within(a: Set<Seq<char>>, b: Set<Seq<char>>, ps: Seq<(String, ItemProperty)>, n: int)
    requires
        names_within(a, b),
    ensures
        names_within(item_types(a, ps, n, true), item_types(b, ps, n, false)),
    decreases n,
{
    if n > 0 {
        lemma_item_types_within(a, b, ps, n - 1);
    }
}

proof fn lemma_arg_types_grow(acc: Set<Seq<char>>, args: Seq<Argument>, n: int)
    ensures
        acc.subset_of(arg_types(acc, args, n)),
    decreases n,
{
    if n > 0 {
        lemma_arg_types_grow(acc, args, n - 1);
    }
}

proof fn lemma_func_types_grow(acc: Set<Seq<char>>, fs: Seq<(String, FunctionDef)>, n: int)
    ensures
        acc.subset_of(func_types(acc, fs, n)),
    decreases n,
{
    if n > 0 {
        lemma_func_types_grow(acc, fs, n - 1);
        let f = fs[n - 1].1;
        lemma_arg_types_grow(func_types(acc, fs, n - 1).insert(f.return_type.spec_name()), f.arguments@, f.arguments@.len() as int);
    }
}

/// Every type that optional values take in a configuration (`quintptr` aside, which a model
/// adds for its row indexes) is one of the configuration's types.
pub proof fn law_optional_types_are_types(objs: Seq<(String, Rc<Object>)>, n: int)
    ensures
        names_within(config_optional_types(objs, n), config_types(objs, n)),
    decreases n,
{
    if n > 0 {
        law_optional_types_are_types(objs, n - 1);
        let o = *objs[n - 1].1;
        let a = config_optional_types(objs, n - 1);
        let b = config_types(objs, n - 1);
        lemma_prop_types_within(a, b, o.properties@, o.properties@.len() as int);
        let pa = prop_types(a, o.properties@, o.properties@.len() as int, true);
        let pb = prop_types(b, o.properties@, o.properties@.len() as int, false);
        lemma_item_types_within(pa, pb, o.item_properties@, o.item_properties@.len() as int);
        let ib = item_types(pb, o.item_properties@, o.item_properties@.len() as int, false);
        lemma_func_types_grow(ib, o.functions@, o.functions@.len() as int);
    }
}

/// A list of names, ascending and without repetition, that holds exactly the names of `s`.
pub open spec fn lists_set(v: Seq<String>, s: Set<Seq<char>>) -> bool {
    ascending(names_view(v)) && names_view(v).to_set() == s
}

fn add_name(names: &mut Vec<String>, name: &str)
    requires
        ascending(names_view(old(names)@)),
    ensures
        ascending(names_view(final(names)@)),
        names_view(final(names)@).to_set() == names_view(old(names)@).to_set().insert(name@),
{
    let _ = insert_name(names, String::from_str(name));
}

fn add_prop_types(names: &mut Vec<String>, ps: &Vec<(String, Property)>, only_optional: bool)
    requires
        ascending(names_view(old(names)@)),
    ensures
        ascending(names_view(final(names)@)),
        names_view(final(names)@).to_set() == prop_types(names_view(old(names)@).to_set(), ps@, ps@.len() as int, only_optional),
{
    let ghost acc = names_view(names@).to_set();
    let mut i: usize = 0;
    while i < ps.len()
        invariant
            i <= ps@.len(),
            ascending(names_view(names@)),
            names_view(names@).to_set() == prop_types(acc, ps@, i as int, only_optional),
        decreases ps@.len() - i,
    {
        if !only_optional || ps[i].1.optional {
            add_name(names, ps[i].1.name_of_type());
        }
        i = i + 1;
    }
}

fn add_item_types(names: &mut Vec<String>, ps: &Vec<(String, ItemProperty)>, only_optional: bool)
    requires
        ascending(names_view(old(names)@)),
    ensures
        ascending(names_view(final(names)@)),
        names_view(final(names)@).to_set() == item_types(names_view(old(names)@).to_set(), ps@, ps@.len() as int, only_optional),
{
    let ghost acc = names_view(names@).to_set();
    let mut i: usize = 0;
    while i < ps.len()
        invariant
            i <= ps@.len(),
            ascending(names_view(names@)),
            names_view(names@).to_set() == item_types(acc, ps@, i as int, only_optional),
        decreases ps@.len() - i,
    {
        if !only_optional || ps[i].1.optional {
            add_name(names, ps[i].1.name_of_type());
        }
        i = i + 1;
    }
}

fn add_function_types(names: &mut Vec<String>, fs: &Vec<(String, FunctionDef)>)
    requires
        ascending(names_view(old(names)@)),
    ensures
        ascending(names_view(final(names)@)),
        names_view(final(names)@).to_set() == func_types(names_view(old(names)@).to_set(), fs@, fs@.len() as int),
{
    let ghost acc = names_view(names@).to_set();
    let mut i: usize = 0;
    while i < fs.len()
        invariant
            i <= fs@.len(),
            ascending(names_view(names@)),
            names_view(names@).to_set() == func_types(acc, fs@, i as int),
        decreases fs@.len() - i,
    {
        let f = &fs[i].1;
        add_name(names, f.return_type.name());
        let ghost mid = names_view(names@).to_set();
        let mut j: usize = 0;
        while j < f.arguments.len()
            invariant
                j <= f.arguments@.len(),
                ascending(names_view(names@)),
                names_view(names@).to_set() == arg_types(mid, f.arguments@, j as int),
            decreases f.arguments@.len() - j,
        {
            add_name(names, f.arguments[j].name_of_type());
            j = j + 1;
        }
        i = i + 1;
    }
}

impl Config {
    /// Every type name that the objects mention, in ascending order and without repetition.
    pub fn types(&self) -> (r: Vec<String>)
        ensures
            lists_set(r@, config_types(self.objects@, self.objects@.len() as int)),
    {
        let mut ops: Vec<String> = Vec::new();
        proof {
            assert(names_view(ops@).to_set() =~= Set::empty());
        }
        let mut i: usize = 0;
        while i < self.objects.len()
            invariant
                i <= self.objects@.len(),
                lists_set(ops@, config_types(self.objects@, i as int)),
            decreases self.objects@.len() - i,
        {
            let o: &Object = &self.objects[i].1;
            add_prop_types(&mut ops, &o.properties, false);
            add_item_types(&mut ops, &o.item_properties, false);
            add_function_types(&mut ops, &o.functions);
            i = i + 1;
        }
        ops
    }

    /// The type names that optional values take, and `quintptr` when there is a model.
    pub fn optional_types(&self) -> (r: Vec<String>)
        ensures
            lists_set(r@, config_optional_types(self.objects@, self.objects@.len() as int)),
    {
        let mut ops: Vec<String> = Vec::new();
        proof {
            assert(names_view(ops@).to_set() =~= Set::empty());
        }
        let mut i: usize = 0;
        while i < self.objects.len()
            invariant
                i <= self.objects@.len(),
                lists_set(ops@, config_optional_types(self.objects@, i as int)),
            decreases self.objects@.len() - i,
        {
            let o: &Object = &self.objects[i].1;
            add_prop_types(&mut ops, &o.properties, true);
            add_item_types(&mut ops, &o.item_properties, true);
            if o.object_type != ObjectType::Object {
                add_name(&mut ops, "quintptr");
            }
            i = i + 1;
        }
        ops
    }

    /// Whether some object is a list or a tree model.
    pub fn has_list_or_tree(&self) -> (r: bool)
        ensures
            r == exists|i: int|
                0 <= i < self.objects@.len() && (#[trigger] self.objects@[i]).1.object_type != ObjectType::Object,
    {
        let mut i: usize = 0;
        while i < self.objects.len()
            invariant
                i <= self.objects@.len(),
                forall|j: int| 0 <= j < i ==> (#[trigger] self.objects@[j]).1.object_type == ObjectType::Object,
            decreases self.objects@.len() - i,
        {
            let t = self.objects[i].1.object_type;
            if t == ObjectType::List || t == ObjectType::Tree {
                return true;
            }
            i = i + 1;
        }
        false
    }
}

/// The names of the first `n` properties whose type is not an object.
pub open spec fn non_object_names(ps: Seq<(String, Property)>, n: int) -> Seq<Seq<char>>
    decreases n,
{
    if n <= 0 {
        Seq::empty()
    } else if ps[n - 1].1.property_type.spec_is_object() {
        non_object_names(ps, n - 1)
    } else {
        non_object_names(ps, n - 1).push(ps[n - 1].0@)
    }
}

/// The first `n` properties whose type is an object, as `(name, property)` entries.
pub open spec fn object_entries(ps: Seq<(String, Property)>, n: int) -> Seq<(String, Property)>
    decreases n,
{
    if n <= 0 {
        Seq::empty()
    } else if ps[n - 1].1.property_type.spec_is_object() {
        object_entries(ps, n - 1).push(ps[n - 1])
    } else {
        object_entries(ps, n - 1)
    }
}

/// The largest number of roles among the first `n` item properties, and at least 1.
pub open spec fn max_roles(ips: Seq<(String, ItemProperty)>, n: int) -> nat
    decreases n,
{
    if n <= 0 {
        1
    } else {
        let m = max_roles(ips, n - 1);
        let k = ips[n - 1].1.roles@.len();
        if k > m { k } else { m }
    }
}

/// A model always has at least one column.
pub proof fn lemma_max_roles_positive(ips: Seq<(String, ItemProperty)>, n: int)
    ensures
        max_roles(ips, n) >= 1,
    decreases n,
{
    if n > 0 {
        lemma_max_roles_positive(ips, n - 1);
    }
}

impl Object {
    pub open spec fn spec_non_object_property_names(&self) -> Seq<Seq<char>> {
        non_object_names(self.properties@, self.properties@.len() as int)
    }

    pub open spec fn spec_object_properties(&self) -> Seq<(String, Property)> {
        object_entries(self.properties@, self.properties@.len() as int)
    }

    pub open spec fn spec_column_count(&self) -> nat {
        max_roles(self.item_properties@, self.item_properties@.len() as int)
    }

    /// The names of the properties whose type is not an object, in table order. With
    /// `object_properties` it splits the property names (`law_property_names_partition`).
    pub fn non_object_property_names(&self) -> (r: Vec<&String>)
        ensures
            r@.map_values(|s: &String| s@) == self.spec_non_object_property_names(),
    {
        let mut r: Vec<&String> = Vec::new();
        let mut i: usize = 0;
        while i < self.properties.len()
            invariant
                i <= self.properties@.len(),
                r@.map_values(|s: &String| s@) =~= non_object_names(self.properties@, i as int),
            decreases self.properties@.len() - i,
        {
            if !self.properties[i].1.is_object() {
                let ghost before = r@;
                r.push(&self.properties[i].0);
                proof {
                    assert(r@.map_values(|s: &String| s@) =~= before.map_values(|s: &String| s@).push(
                        self.properties@[i as int].0@,
                    ));
                }
            }
            i = i + 1;
        }
        r
    }

    /// The properties whose type is an object, in table order. With
    /// `non_object_property_names` it splits the property names (`law_property_names_partition`).
    pub fn object_properties(&self) -> (r: Vec<(&String, &Property)>)
        ensures
            r@.map_values(|e: (&String, &Property)| (*e.0, *e.1)) == self.spec_object_properties(),
    {
        let mut r: Vec<(&String, &Property)> = Vec::new();
        let mut i: usize = 0;
        while i < self.properties.len()
            invariant
                i <= self.properties@.len(),
                r@.map_values(|e: (&String, &Property)| (*e.0, *e.1)) =~= object_entries(self.properties@, i as int),
            decreases self.properties@.len() - i,
        {
            if self.properties[i].1.is_object() {
                let ghost before = r@;
                r.push((&self.properties[i].0, &self.properties[i].1));
                proof {
                    assert(r@.map_values(|e: (&String, &Property)| (*e.0, *e.1)) =~= before.map_values(
                        |e: (&String, &Property)| (*e.0, *e.1),
                    ).push(self.properties@[i as int]));
                }
            }
            i = i + 1;
        }
        r
    }

    /// Whether some property's type is an object.
    pub fn contains_object(&self) -> (r: bool)
        ensures
            r == exists|i: int|
                0 <= i < self.properties@.len() && (#[trigger] self.properties@[i]).1.property_type.spec_is_object(),
    {
        let mut i: usize = 0;
        while i < self.properties.len()
            invariant
                i <= self.properties@.len(),
                forall|j: int| 0 <= j < i ==> !(#[trigger] self.properties@[j]).1.property_type.spec_is_object(),
            decreases self.properties@.len() - i,
        {
            if self.properties[i].1.is_object() {
                return true;
            }
            i = i + 1;
        }
        false
    }

    /// The number of columns of a model: the most roles any item property has, and at least 1.
    pub fn column_count(&self) -> (r: usize)
        ensures
            r == self.spec_column_count(),
            r >= 1,
    {
        let mut column_count: usize = 1;
        let mut i: usize = 0;
        while i < self.item_properties.len()
            invariant
                i <= self.item_properties@.len(),
                column_count == max_roles(self.item_properties@, i as int),
            decreases self.item_properties@.len() - i,
        {
            let k = self.item_properties[i].1.roles.len();
            if k > column_count {
                column_count = k;
            }
            i = i + 1;
        }
        proof {
            lemma_max_roles_positive(self.item_properties@, self.item_properties@.len() as int);
        }
        column_count
    }
}

impl Object {
    /// The setter of a writable property is named after the property with its first
    /// character upper-cased, which cuts the name at its first byte: such names are non-empty
    /// and start with an ASCII character.
    pub open spec fn writable_names_ok(self) -> bool {
        forall|i: int|
            0 <= i < self.properties@.len() && (#[trigger] self.properties@[i]).1.write ==> ascii_initial(
                self.properties@[i].0@,
            )
    }

    /// The same for the setters of writable item properties.
    pub open spec fn writable_item_names_ok(self) -> bool {
        forall|i: int|
            0 <= i < self.item_properties@.len() && (#[trigger] self.item_properties@[i]).1.write
                ==> ascii_initial(self.item_properties@[i].0@)
    }

    /// The change callbacks passed to the Rust constructor are named after the object and a
    /// non-object property (`lower_initial(object) + upper_initial(property) + "Changed"`), for
    /// nested objects too: those names start with an ASCII character.
    pub open spec fn ctor_names_ok(self) -> bool
        decreases self,
    {
        forall|i: int|
            0 <= i < self.properties@.len() ==> match (#[trigger] self.properties@[i]).1.property_type {
                Type::Object(c) => c.ctor_names_ok(),
                _ => ascii_initial(self.name@) && ascii_initial(self.properties@[i].0@),
            }
    }

    /// The names that the class declaration in the header cuts at their first byte.
    pub open spec fn header_names_ok(self) -> bool {
        self.writable_names_ok() && self.writable_item_names_ok()
    }

    /// The names that the class definition cuts at their first byte.
    pub open spec fn cpp_names_ok(self) -> bool {
        self.writable_names_ok() && self.ctor_names_ok()
    }
}

impl Object {
    /// The connection links a signal the object declares to a function of the object that
    /// takes no arguments.
    pub open spec fn connection_ok(self, c: Connection) -> bool {
        &&& exists|j: int| 0 <= j < self.signals@.len() && self.signals@[j].0@ == c.signal@
        &&& exists|j: int|
            0 <= j < self.functions@.len() && self.functions@[j].0@ == c.function@
                && self.functions@[j].1.arguments@.len() == 0
    }

    /// Every connection links a signal the object declares to a function of the object that
    /// takes no arguments, function names are unique, and the same holds in nested objects.
    pub open spec fn connections_ok(self) -> bool
        decreases self,
    {
        &&& ascending(entry_keys(self.functions@))
        &&& forall|i: int| 0 <= i < self.connections@.len() ==> self.connection_ok(#[trigger] self.connections@[i])
        &&& forall|i: int|
            0 <= i < self.properties@.len() ==> match (#[trigger] self.properties@[i]).1.property_type {
                Type::Object(c) => c.connections_ok(),
                _ => true,
            }
    }
}

impl FunctionDef {
    pub fn name_of_type(&self) -> (r: &str)
        ensures
            r@ == self.return_type.spec_name(),
    {
        self.return_type.name()
    }
}

impl Argument {
    pub fn name_of_type(&self) -> (r: &str)
        ensures
            r@ == self.argument_type.spec_name(),
    {
        self.argument_type.name()
    }
}

/// The object that an object-typed property holds.
pub open spec fn nested_object(t: Type) -> Object {
    match t {
        Type::Object(c) => *c,
        Type::Simple(_) => arbitrary(),
    }
}


impl Object {
    /// Every table of the object holds its entries in ascending name order, with no name
    /// twice, as the maps they stand for do; nested objects too.
    pub open spec fn tables_ok(self) -> bool
        decreases self,
    {
        &&& ascending(entry_keys(self.functions@))
        &&& ascending(entry_keys(self.item_properties@))
        &&& ascending(entry_keys(self.properties@))
        &&& ascending(entry_keys(self.signals@))
        &&& forall|i: int|
            0 <= i < self.properties@.len() ==> match (#[trigger] self.properties@[i]).1.property_type {
                Type::Object(c) => c.tables_ok(),
                _ => true,
            }
    }
}

impl Config {
    /// The objects are held in ascending name order, with no name twice, and each object's
    /// tables are well formed.
    pub open spec fn tables_ok(self) -> bool {
        &&& ascending(entry_keys(self.objects@))
        &&& forall|i: int| 0 <= i < self.objects@.len() ==> (#[trigger] self.objects@[i]).1.tables_ok()
    }
}

/// Whether some property among the first `n` is named `k` and has (or has not) an object type.
pub open spec fn named_among(ps: Seq<(String, Property)>, n: int, k: Seq<char>, object: bool) -> bool {
    exists|j: int| 0 <= j < n && #[trigger] ps[j].0@ == k && ps[j].1.property_type.spec_is_object() == object
}

proof fn lemma_partition_upto(ps: Seq<(String, Property)>, n: int)
    requires
        0 <= n <= ps.len(),
    ensures
        non_object_names(ps, n).len() + object_entries(ps, n).len() == n,
        forall|k: Seq<char>| #[trigger] non_object_names(ps, n).contains(k) <==> named_among(ps, n, k, false),
        forall|k: Seq<char>| #[trigger] entry_keys(object_entries(ps, n)).contains(k) <==> named_among(ps, n, k, true),
    decreases n,
{
    if n > 0 {
        lemma_partition_upto(ps, n - 1);
        let a0 = non_object_names(ps, n - 1);
        let b0 = entry_keys(object_entries(ps, n - 1));
        let a = non_object_names(ps, n);
        let b = entry_keys(object_entries(ps, n));
        let last = ps[n - 1];
        if last.1.property_type.spec_is_object() {
            assert(b =~= b0.push(last.0@));
            assert(a == a0);
        } else {
            assert(a =~= a0.push(last.0@));
            assert(b =~= b0);
        }
        assert forall|k: Seq<char>| #[trigger] a.contains(k) <==> named_among(ps, n, k, false) by {
            if named_among(ps, n, k, false) {
                let j = choose|j: int| 0 <= j < n && #[trigger] ps[j].0@ == k && ps[j].1.property_type.spec_is_object() == false;
                if j < n - 1 {
                    assert(named_among(ps, n - 1, k, false));
                    assert(a0.contains(k));
                    if !last.1.property_type.spec_is_object() {
                        let m = choose|m: int| 0 <= m < a0.len() && a0[m] == k;
                        assert(a[m] == k);
                    }
                } else {
                    assert(a[a.len() - 1] == k);
                }
            }
            if a.contains(k) {
                let m = choose|m: int| 0 <= m < a.len() && a[m] == k;
                if m < a0.len() {
                    assert(a0[m] == k);
                    assert(a0.contains(k));
                    let j = choose|j: int| 0 <= j < n - 1 && #[trigger] ps[j].0@ == k && ps[j].1.property_type.spec_is_object() == false;
                    assert(ps[j].0@ == k);
                } else {
                    assert(ps[n - 1].0@ == k);
                }
            }
        }
        assert forall|k: Seq<char>| #[trigger] b.contains(k) <==> named_among(ps, n, k, true) by {
            if named_among(ps, n, k, true) {
                let j = choose|j: int| 0 <= j < n && #[trigger] ps[j].0@ == k && ps[j].1.property_type.spec_is_object() == true;
                if j < n - 1 {
                    assert(named_among(ps, n - 1, k, true));
                    assert(b0.contains(k));
                    if last.1.property_type.spec_is_object() {
                        let m = choose|m: int| 0 <= m < b0.len() && b0[m] == k;
                        assert(b[m] == k);
                    }
                } else {
                    assert(b[b.len() - 1] == k);
                }
            }
            if b.contains(k) {
                let m = choose|m: int| 0 <= m < b.len() && b[m] == k;
                if m < b0.len() {
                    assert(b0[m] == k);
                    assert(b0.contains(k));
                    let j = choose|j: int| 0 <= j < n - 1 && #[trigger] ps[j].0@ == k && ps[j].1.property_type.spec_is_object() == true;
                    assert(ps[j].0@ == k);
                } else {
                    assert(ps[n - 1].0@ == k);
                }
            }
        }
    }
}

/// The names of the properties that are not objects and those of the properties that are
/// objects split the property table: together they are all its names, they have no name in
/// common (the table holds no name twice), and their lengths add up to the table's.
pub proof fn law_property_names_partition(o: Object)
    requires
        ascending(entry_keys(o.properties@)),
    ensures
        o.spec_non_object_property_names().len() + o.spec_object_properties().len() == o.properties@.len(),
        forall|k: Seq<char>|
            entry_keys(o.properties@).contains(k) <==> (#[trigger] o.spec_non_object_property_names().contains(k)
                || entry_keys(o.spec_object_properties()).contains(k)),
        forall|k: Seq<char>|
            !(#[trigger] o.spec_non_object_property_names().contains(k) && entry_keys(o.spec_object_properties()).contains(
                k,
            )),
{
    let ps = o.properties@;
    let n = ps.len() as int;
    lemma_partition_upto(ps, n);
    let keys = entry_keys(ps);
    assert forall|k: Seq<char>|
        keys.contains(k) <==> (#[trigger] o.spec_non_object_property_names().contains(k) || entry_keys(
            o.spec_object_properties(),
        ).contains(k)) by {
        if keys.contains(k) {
            let j = choose|j: int| 0 <= j < keys.len() && keys[j] == k;
            assert(ps[j].0@ == k);
            if ps[j].1.property_type.spec_is_object() {
                assert(named_among(ps, n, k, true));
            } else {
                assert(named_among(ps, n, k, false));
            }
        }
        if named_among(ps, n, k, false) {
            let j = choose|j: int| 0 <= j < n && #[trigger] ps[j].0@ == k && ps[j].1.property_type.spec_is_object() == false;
            assert(keys[j] == k);
        }
        if named_among(ps, n, k, true) {
            let j = choose|j: int| 0 <= j < n && #[trigger] ps[j].0@ == k && ps[j].1.property_type.spec_is_object() == true;
            assert(keys[j] == k);
        }
    }
    assert forall|k: Seq<char>|
        !(#[trigger] o.spec_non_object_property_names().contains(k) && entry_keys(o.spec_object_properties()).contains(k)) by {
        if named_among(ps, n, k, false) && named_among(ps, n, k, true) {
            let j1 = choose|j: int| 0 <= j < n && #[trigger] ps[j].0@ == k && ps[j].1.property_type.spec_is_object() == false;
            let j2 = choose|j: int| 0 <= j < n && #[trigger] ps[j].0@ == k && ps[j].1.property_type.spec_is_object() == true;
            assert(keys[j1] == k && keys[j2] == k);
            if j1 < j2 {
                assert(key_lt(keys[j1], keys[j2]));
            } else {
                assert(key_lt(keys[j2], keys[j1]));
            }
            lemma_key_lt_irreflexive(k);
        }
    }
}

} // verus!

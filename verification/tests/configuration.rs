use riqtshaw::validation::{config_names_valid, connections_valid, cpp_names_valid, ffi_valid};
use riqtshaw::configuration::{
    c_get_type_of, Argument, Config, Connection, FunctionDef, ItemProperty, Object, ObjectType, Property, Rust, Signal,
    SimpleType, Type,
};
use std::rc::Rc;

fn prop(t: SimpleType, optional: bool, write: bool) -> Property {
    Property { optional, property_type: Type::Simple(t), rust_by_function: false, rust_by_value: false, write }
}

fn item(t: SimpleType, roles: Vec<Vec<&str>>) -> ItemProperty {
    ItemProperty {
        item_property_type: Type::Simple(t),
        optional: false,
        roles: roles.into_iter().map(|r| r.into_iter().map(|s| s.to_string()).collect()).collect(),
        rust_by_value: false,
        write: false,
    }
}

fn object(name: &str, object_type: ObjectType, properties: Vec<(&str, Property)>) -> Object {
    Object {
        name: name.to_string(),
        functions: Vec::new(),
        item_properties: Vec::new(),
        object_type,
        properties: properties.into_iter().map(|(n, p)| (n.to_string(), p)).collect(),
        signals: Vec::new(),
        connections: Vec::new(),
    }
}

fn config(objects: Vec<Object>) -> Config {
    Config {
        out_dir: String::new(),
        cpp_file: "src/Bindings.cpp".to_string(),
        objects: objects.into_iter().map(|o| (o.name.clone(), Rc::new(o))).collect(),
        rust: Rust {
            dir: "rust".to_string(),
            implementation_module: "implementation".to_string(),
            interface_module: "interface".to_string(),
        },
        overwrite_implementation: false,
    }
}

fn person() -> Object {
    let mut o = object(
        "Person",
        ObjectType::Object,
        vec![("age", prop(SimpleType::QUint8, true, true)), ("name", prop(SimpleType::QString, false, true))],
    );
    o.functions.push((
        "greet".to_string(),
        FunctionDef {
            return_type: SimpleType::QString,
            mutable: false,
            arguments: vec![Argument { name: "who".to_string(), argument_type: SimpleType::QString }],
        },
    ));
    o
}

#[test]
fn types_are_sorted_and_unique() {
    let conf = config(vec![person()]);
    assert_eq!(conf.types(), vec!["QString".to_string(), "quint8".to_string()]);
    assert_eq!(conf.optional_types(), vec!["quint8".to_string()]);
    assert!(!conf.has_list_or_tree());
}

#[test]
fn a_list_adds_quintptr_to_the_optional_types() {
    let list = object("Items", ObjectType::List, vec![("count", prop(SimpleType::QUint8, true, false))]);
    let conf = config(vec![list]);
    assert_eq!(conf.optional_types(), vec!["quint8".to_string(), "quintptr".to_string()]);
    assert!(conf.has_list_or_tree());
}

#[test]
fn column_count_is_the_most_roles() {
    let mut o = object("Items", ObjectType::List, Vec::new());
    assert_eq!(o.column_count(), 1);
    o.item_properties.push(("a".to_string(), item(SimpleType::QString, vec![vec!["display"]])));
    o.item_properties.push(("b".to_string(), item(SimpleType::Bool, vec![vec![], vec![], vec!["edit"]])));
    assert_eq!(o.column_count(), 3);
}

#[test]
fn property_name_lists() {
    let inner = object("Inner", ObjectType::Object, Vec::new());
    let outer = object(
        "Outer",
        ObjectType::Object,
        vec![
            ("a", prop(SimpleType::Bool, false, false)),
            (
                "child",
                Property {
                    optional: false,
                    property_type: Type::Object(Rc::new(inner)),
                    rust_by_function: false,
                    rust_by_value: false,
                    write: false,
                },
            ),
            ("z", prop(SimpleType::Qint32, false, false)),
        ],
    );
    let names: Vec<&str> = outer.non_object_property_names().into_iter().map(|s| s.as_str()).collect();
    assert_eq!(names, vec!["a", "z"]);
    let objects: Vec<&str> = outer.object_properties().into_iter().map(|e| e.0.as_str()).collect();
    assert_eq!(objects, vec!["child"]);
    assert!(outer.contains_object());
    assert!(!person().contains_object());
}

#[test]
fn type_names() {
    assert_eq!(SimpleType::QUint64.name(), "quint64");
    assert_eq!(SimpleType::QUint64.rust_type(), "u64");
    assert_eq!(SimpleType::QByteArray.rust_type(), "Vec<u8>");
    assert_eq!(SimpleType::Float.rust_type_init(), "0.0");
    assert_eq!(SimpleType::QString.cpp_set_type(), "const QString&");
    assert_eq!(SimpleType::QString.c_set_type(), "qstring_t");
    assert!(SimpleType::QByteArray.is_complex());
    assert!(!SimpleType::Bool.is_complex());
    assert_eq!(c_get_type_of("QString"), "QString*, qstring_set");
}

#[test]
fn validation_finds_bad_names() {
    assert!(cpp_names_valid(&person()));
    assert!(config_names_valid(&config(vec![person()])));
    // Nothing of an object without properties is cut, so even an empty name passes.
    assert!(cpp_names_valid(&object("", ObjectType::Object, Vec::new())));
    // A read-only name is only cut to name a change callback in the class definition.
    let read_only = || object("Foo", ObjectType::Object, vec![("été", prop(SimpleType::Bool, false, false))]);
    assert!(config_names_valid(&config(vec![read_only()])));
    assert!(!cpp_names_valid(&read_only()));
    let writable = || object("Foo", ObjectType::Object, vec![("été", prop(SimpleType::Bool, false, true))]);
    assert!(!config_names_valid(&config(vec![person(), writable()])));
    let unnamed = object("", ObjectType::Object, vec![("x", prop(SimpleType::Bool, false, false))]);
    assert!(!cpp_names_valid(&unnamed));
}

#[test]
fn validation_finds_bad_connections() {
    let mut o = person();
    o.signals.push(("ready".to_string(), Signal { arguments: Vec::new() }));
    o.functions.push(("reload".to_string(), FunctionDef { return_type: SimpleType::Void, mutable: true, arguments: Vec::new() }));
    o.connections.push(Connection { signal: "ready".to_string(), function: "reload".to_string() });
    assert!(connections_valid(&o));
    o.connections.push(Connection { signal: "missing".to_string(), function: "reload".to_string() });
    assert!(!connections_valid(&o));
    let mut p = person();
    p.signals.push(("ready".to_string(), Signal { arguments: Vec::new() }));
    p.connections.push(Connection { signal: "ready".to_string(), function: "greet".to_string() });
    assert!(!connections_valid(&p));
}

#[test]
fn validation_of_the_rust_interface() {
    assert!(ffi_valid(&person()));
    assert!(!ffi_valid(&object("T", ObjectType::Tree, Vec::new())));
}

#[test]
fn table_validation() {
    let sorted = object("O", ObjectType::Object, vec![("a", prop(SimpleType::Bool, false, false)), ("b", prop(SimpleType::Bool, false, false))]);
    assert!(riqtshaw::validation::tables_valid(&sorted));
    let unsorted = object("O", ObjectType::Object, vec![("b", prop(SimpleType::Bool, false, false)), ("a", prop(SimpleType::Bool, false, false))]);
    assert!(!riqtshaw::validation::tables_valid(&unsorted));
    let twice = object("O", ObjectType::Object, vec![("a", prop(SimpleType::Bool, false, false)), ("a", prop(SimpleType::Bool, false, true))]);
    assert!(!riqtshaw::validation::tables_valid(&twice));
    assert!(riqtshaw::validation::config_tables_valid(&config(vec![person()])));
}

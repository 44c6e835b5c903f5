use riqtshaw::configuration::{Config, ItemProperty, Object, ObjectType, Property, Rust, SimpleType, Type};
use riqtshaw::cpp::code::object::write_cpp_object;
use riqtshaw::cpp::code::single_pass::object::write_cpp_object as write_cpp_object_in_one_pass;
use riqtshaw::cpp::helpers::write_object_c_decl;
use std::rc::Rc;
use riqtshaw::cpp::code::single_pass::model_getter_setter::write_model_getter_setter;
use riqtshaw::cpp::code::single_pass::object::write_cpp_object_properties;
use riqtshaw::cpp::code::single_pass::properties::properties;
use riqtshaw::cpp::header::header_guard;
use riqtshaw::cpp::helpers::role_name;

fn prop(t: SimpleType, optional: bool, write: bool) -> Property {
    Property { optional, property_type: Type::Simple(t), rust_by_function: false, rust_by_value: false, write }
}

fn object(name: &str, object_type: ObjectType, properties: Vec<(&str, Property)>) -> Object {
    Object {
        name: name.to_string(),
        functions: Vec::new(),
        item_properties: Vec::new(),
        object_type,
        properties: properties.into_iter().map(|(n, p)| (n.to_string(), p)).collect(),
        signals: Vec::new(),
        connections: Vec::new(),
    }
}

#[test]
fn roles_have_qt_names() {
    assert_eq!(role_name("display"), "DisplayRole");
    assert_eq!(role_name("edit"), "EditRole");
    assert_eq!(role_name("toolTip"), "ToolTipRole");
    assert_eq!(role_name("whatsthis"), "WhatsThisRole");
}

#[test]
fn header_guard_is_the_upper_case_file_name() {
    assert_eq!(header_guard("Bindings.h"), "BINDINGS_H");
    assert_eq!(header_guard("my.file.h"), "MY_FILE_H");
}

#[test]
fn scalar_property_accessors() {
    let o = object("Person", ObjectType::Object, vec![("age", prop(SimpleType::QUint8, false, true))]);
    let mut w = String::new();
    write_cpp_object_properties(&mut w, &o, "person");
    assert_eq!(
        w,
        "quint8 Person::age() const\n{\n    return person_age_get(m_d);\n}\nvoid Person::setAge(quint8 v) {\n    person_age_set(m_d, v);\n}\n"
    );
    let mut v = String::new();
    properties(&mut v, &o);
    assert_eq!(
        v,
        "\nquint8 Person::age() const\n{\n    return person_age_get(m_d);\n}\nvoid Person::setAge(quint8 v) {\nperson_age_set(m_d, v);\n}\n"
    );
}

#[test]
fn optional_text_property_accessors() {
    let o = object("Person", ObjectType::Object, vec![("nickName", prop(SimpleType::QString, true, true))]);
    let mut w = String::new();
    write_cpp_object_properties(&mut w, &o, "person");
    let expected = [
        "QString Person::nickName() const\n{\n    QString v;\n    person_nick_name_get(m_d, &v, set_qstring);\n    return v;\n}\n",
        "void Person::setNickName(const QString& v) {\n    if (v.isNull()) {\n        person_nick_name_set_none(m_d);\n    } else {\n",
        "    person_nick_name_set(m_d, reinterpret_cast<const ushort*>(v.data()), v.size());\n    }\n}\n",
    ]
    .concat();
    assert_eq!(w, expected);
}

#[test]
fn list_item_accessors() {
    let mut o = object("Foo", ObjectType::List, Vec::new());
    let ip = ItemProperty {
        item_property_type: Type::Simple(SimpleType::QString),
        optional: false,
        roles: vec![vec!["display".to_string()]],
        rust_by_value: false,
        write: true,
    };
    o.item_properties.push(("name".to_string(), ip));
    let mut w = String::new();
    write_model_getter_setter(&mut w, ", index", "name", &o.item_properties[0].1, &o);
    let expected = [
        "QString Foo::name(int row) const\n{\n    QString s;\n    foo_data_name(m_d, row, &s, set_qstring);\n    return s;\n}\n\n",
        "bool Foo::setName(int row, const QString& value)\n{\n    bool set = false;\n",
        "    set = foo_set_data_name(m_d, row, value.utf16(), value.length());\n",
        "    if (set) {\n        QModelIndex index = createIndex(row, 0, row);\n        Q_EMIT dataChanged(index, index);\n    }\n",
        "    return set;\n}\n\n",
    ]
    .concat();
    assert_eq!(w, expected);
}

#[test]
fn read_only_optional_item_getter() {
    let o = object("Foo", ObjectType::List, Vec::new());
    let ip = ItemProperty {
        item_property_type: Type::Simple(SimpleType::QUint32),
        optional: true,
        roles: vec![vec![]],
        rust_by_value: false,
        write: false,
    };
    let mut w = String::new();
    write_model_getter_setter(&mut w, ", index", "count", &ip, &o);
    assert_eq!(w, "QVariant Foo::count(int row) const\n{\n    QVariant v;\n    v = foo_data_count(m_d, row);\n    return v;\n}\n\n");
}

fn config(objects: Vec<Object>) -> Config {
    Config {
        out_dir: String::new(),
        cpp_file: "src/Bindings.cpp".to_string(),
        objects: objects.into_iter().map(|o| (o.name.clone(), Rc::new(o))).collect(),
        rust: Rust {
            dir: "rust".to_string(),
            implementation_module: "implementation".to_string(),
            interface_module: "interface".to_string(),
        },
        overwrite_implementation: false,
    }
}

#[test]
fn c_declarations_of_an_object() {
    let o = object("Person", ObjectType::Object, vec![("age", prop(SimpleType::QUint8, false, true))]);
    let conf = config(Vec::new());
    let mut w = String::new();
    write_object_c_decl(&mut w, &o, &conf);
    let expected = [
        "Person::Private* person_new(Person*, void (*)(Person*)\n);\n",
        "void person_free(Person::Private*);\n",
        "quint8 person_age_get(const Person::Private*);\n",
        "    void person_age_set(Person::Private*, quint8);\n",
    ]
    .concat();
    assert_eq!(w, expected);
}

#[test]
fn class_definition_of_an_empty_object() {
    let o = object("Empty", ObjectType::Object, Vec::new());
    let conf = config(Vec::new());
    let mut w = String::new();
    write_cpp_object(&mut w, &o, &conf, "");
    let expected = [
        "\nEmpty::Empty(bool /*owned*/, QObject *parent):\n    QObject(parent),m_d(nullptr), m_ownsPrivate(false){}\n",
        "\nEmpty::Empty(QObject *parent):\n    QObject(parent),\nm_d(empty_new( new EmptyPtrBundle { this})),\n    m_ownsPrivate(true)\n{\n}\n",
        "\nEmpty::~Empty() {\n    if (m_ownsPrivate) {\n        empty_free(m_d);\n    }\n}\n",
    ]
    .concat();
    assert_eq!(w, expected);
    let mut v = String::new();
    write_cpp_object_in_one_pass(&mut v, &o, &conf, "");
    let expected_one_pass = [
        "Empty::Empty(bool /*owned*/, QObject *parent):\n    QObject(parent),\n    m_d(nullptr),\n    m_ownsPrivate(false)\n{\n}\n",
        "Empty::Empty(QObject *parent):\n    QObject(parent),\n    m_d(empty_new(this)),\n    m_ownsPrivate(true)\n{\n}\n\n",
        "Empty::~Empty() {\n    if (m_ownsPrivate) {\n        empty_free(m_d);\n    }\n}\n",
    ]
    .concat();
    assert_eq!(v, expected_one_pass);
}

#[test]
fn read_only_names_are_not_cut() {
    let o = object("Person", ObjectType::Object, vec![("été", prop(SimpleType::QUint8, false, false))]);
    let mut v = String::new();
    properties(&mut v, &o);
    assert_eq!(v, "\nquint8 Person::été() const\n{\n    return person_été_get(m_d);\n}\n");
    let list = object("Foo", ObjectType::List, Vec::new());
    let ip = ItemProperty {
        item_property_type: Type::Simple(SimpleType::Bool),
        optional: false,
        roles: vec![vec![]],
        rust_by_value: false,
        write: false,
    };
    let mut w = String::new();
    write_model_getter_setter(&mut w, ", index", "été", &ip, &list);
    assert_eq!(w, "bool Foo::été(int row) const\n{\n    return foo_data_été(m_d, row);\n}\n\n");
}

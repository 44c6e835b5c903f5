use riqtshaw::configuration::{Config, Object, ObjectType, Property, Rust, SimpleType, Type};
use riqtshaw::cpp::code::object::constructor_args;
use riqtshaw::cpp::codegen::LineBlock;
use riqtshaw::cpp::header::write_extern_typedefs;
use riqtshaw::rust::c_ffi::ptr_bundle::ptr_bundle;
use riqtshaw::text::{lower_initial, snake_case, upper_initial};
use std::rc::Rc;

fn prop(t: Type) -> Property {
    Property { optional: false, property_type: t, rust_by_function: false, rust_by_value: false, write: true }
}

fn object(name: &str, properties: Vec<(&str, Property)>) -> Object {
    Object {
        name: name.to_string(),
        functions: Vec::new(),
        item_properties: Vec::new(),
        object_type: ObjectType::Object,
        properties: properties.into_iter().map(|(n, p)| (n.to_string(), p)).collect(),
        signals: Vec::new(),
        connections: Vec::new(),
    }
}

fn person() -> Object {
    let friend = object("Friend", vec![("name", prop(Type::Simple(SimpleType::QUint8)))]);
    object(
        "Person",
        vec![("age", prop(Type::Simple(SimpleType::QUint8))), ("friend", prop(Type::Object(Rc::new(friend))))],
    )
}

#[test]
fn bundle_layouts_agree_on_a_nested_object() {
    let o = person();
    let mut scope = codegen::Scope::new();
    scope.push_struct(ptr_bundle(&o));
    assert_eq!(
        scope.to_string(),
        "#[derive(Clone, Copy)]\n#[repr(C)]\npub struct PersonPtrBundle {\n    person: *mut PersonQObject,\n    person_age_changed: fn(*mut PersonQObject),\n    friend: *mut FriendQObject,\n    friend_name_changed: fn(*mut FriendQObject),\n}"
    );
    let mut block = LineBlock::new();
    write_extern_typedefs(&mut block, &o);
    assert_eq!(
        block.to_text(),
        "{Person* person;\nvoid (*person_age_changed)(Person*);\nFriend* friend;\nvoid (*friend_name_changed)(Friend*);\n}"
    );
    let conf = Config {
        out_dir: String::new(),
        cpp_file: String::new(),
        objects: Vec::new(),
        rust: Rust { dir: String::new(), implementation_module: String::new(), interface_module: String::new() },
        overwrite_implementation: false,
    };
    let mut w = String::from("this");
    constructor_args(&mut w, "", &o, &conf, "");
    assert_eq!(w, "this,\npersonAgeChanged, m_friend,\nfriendNameChanged");
}

#[test]
fn case_helpers_on_ascii_names() {
    assert_eq!(snake_case("PersonList"), "person_list");
    assert_eq!(upper_initial("age"), "Age");
    assert_eq!(lower_initial("Person"), "person");
}

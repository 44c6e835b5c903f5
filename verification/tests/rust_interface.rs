use riqtshaw::configuration::{Argument, FunctionDef, Object, ObjectType, Property, SimpleType, Type};
use riqtshaw::rust::c_ffi::models::list::{insert_rows, row_count};
use riqtshaw::rust::c_ffi::properties::non_complex_non_optional;
use riqtshaw::rust::c_ffi::ptr_bundle::ptr_bundle;
use riqtshaw::rust::trait_::push_trait;
use riqtshaw::rust::write::write_rust_interface_object;
use riqtshaw::rust::write_helper::write_function;

fn prop(t: SimpleType, optional: bool, write: bool) -> Property {
    Property { optional, property_type: Type::Simple(t), rust_by_function: false, rust_by_value: false, write }
}

fn object(name: &str, object_type: ObjectType, properties: Vec<(&str, Property)>) -> Object {
    Object {
        name: name.to_string(),
        functions: Vec::new(),
        item_properties: Vec::new(),
        object_type,
        properties: properties.into_iter().map(|(n, p)| (n.to_string(), p)).collect(),
        signals: Vec::new(),
        connections: Vec::new(),
    }
}

fn render_fn(f: codegen::Function) -> String {
    let mut scope = codegen::Scope::new();
    scope.push_fn(f);
    scope.to_string()
}

#[test]
fn text_c_function_with_a_string_argument_and_result() {
    let f = FunctionDef {
        return_type: SimpleType::QString,
        mutable: false,
        arguments: vec![Argument { name: "who".to_string(), argument_type: SimpleType::QString }],
    };
    let o = object("Foo", ObjectType::Object, Vec::new());
    let mut r = String::new();
    write_function(&mut r, &"greet".to_string(), &f, "foo", &o);
    let expected = [
        "\n#[no_mangle]\npub unsafe extern \"C\" fn foo_greet(ptr: *const Foo",
        ", who_str: *const c_ushort, who_len: c_int",
        ", d: *mut QString, set: fn(*mut QString, str: *const c_char, len: c_int)) {\n",
        "    let mut who = String::new();\n    set_string_from_utf16(&mut who, who_str, who_len);\n",
        "    let o = &*ptr;\n",
        "    let r = o.greet(who);\n",
        "    let s: *const c_char = r.as_ptr() as (*const c_char);\n    set(d, s, r.len() as i32);\n",
        "}\n",
    ]
    .concat();
    assert_eq!(r, expected);
}

#[test]
fn text_c_function_with_scalar_arguments() {
    let f = FunctionDef {
        return_type: SimpleType::Void,
        mutable: true,
        arguments: vec![
            Argument { name: "a".to_string(), argument_type: SimpleType::Qint32 },
            Argument { name: "b".to_string(), argument_type: SimpleType::Bool },
        ],
    };
    let o = object("Foo", ObjectType::Object, Vec::new());
    let mut r = String::new();
    write_function(&mut r, &"resetAll".to_string(), &f, "foo", &o);
    assert_eq!(
        r,
        "\n#[no_mangle]\npub unsafe extern \"C\" fn foo_reset_all(ptr: *mut Foo, a: i32, b: bool) {\n    let o = &mut *ptr;\n    o.reset_all(a, b)\n}\n"
    );
}

#[test]
fn rendered_property_getter() {
    let o = object("Person", ObjectType::Object, vec![("age", prop(SimpleType::QUint8, false, true))]);
    let f = non_complex_non_optional::getter(&o, "age", &o.properties[0].1);
    assert_eq!(
        render_fn(f),
        "#[no_mangle]\npub unsafe extern \"C\" fn person_age_get(ptr: *const Person) -> u8 {\n    (&*ptr).age()\n}"
    );
    let s = non_complex_non_optional::setter(&o, "age", &o.properties[0].1);
    assert_eq!(
        render_fn(s),
        "#[no_mangle]\npub unsafe extern \"C\" fn person_age_set(ptr: *mut Person, value: u8) {\n    (&mut *ptr).set_age(value)\n}"
    );
}

#[test]
fn rendered_model_functions() {
    let o = object("Person", ObjectType::List, Vec::new());
    assert_eq!(
        render_fn(row_count(&o)),
        "#[no_mangle]\npub unsafe extern \"C\" fn person_row_count(ptr: *const Person, index: COption<usize>) -> c_int {\n    to_c_int((&*ptr).row_count(index.into()))\n}"
    );
    let expected = [
        "#[no_mangle]\npub unsafe extern \"C\" fn person_insert_rows(ptr: *mut Person, row: c_int, count: c_int) -> bool {\n",
        "    match (to_usize(row), to_usize(count)) {\n",
        "        (Some(row), Some(count)) => \n",
        "        {\n            (&mut *ptr).insert_rows(row, count)\n        }\n",
        "        _ => false\n",
        "    }\n}",
    ]
    .concat();
    assert_eq!(render_fn(insert_rows(&o)), expected);
}

#[test]
fn rendered_pointer_bundle() {
    let o = object("Person", ObjectType::Object, vec![("age", prop(SimpleType::QUint8, false, true))]);
    let mut scope = codegen::Scope::new();
    scope.push_struct(ptr_bundle(&o));
    assert_eq!(
        scope.to_string(),
        "#[derive(Clone, Copy)]\n#[repr(C)]\npub struct PersonPtrBundle {\n    person: *mut PersonQObject,\n    person_age_changed: fn(*mut PersonQObject),\n}"
    );
}

#[test]
fn interface_module_of_an_object() {
    let o = object("Simple", ObjectType::Object, vec![("value", prop(SimpleType::Bool, false, true))]);
    let mut r = String::new();
    write_rust_interface_object(&mut r, &o);
    assert!(r.ends_with('\n'));
    assert!(r.contains("pub struct SimpleQObject"));
    assert!(r.contains("pub struct SimpleEmitter"));
    assert!(r.contains("pub trait SimpleTrait"));
    assert!(r.contains("pub unsafe extern \"C\" fn simple_new(ptr_bundle: *mut SimplePtrBundle) -> *mut Simple {"));
    assert!(r.contains("pub unsafe extern \"C\" fn simple_free(ptr: *mut Simple) {"));
    assert!(r.contains("pub unsafe extern \"C\" fn simple_value_get(ptr: *const Simple) -> bool {"));
    assert!(r.contains("pub unsafe extern \"C\" fn simple_value_set(ptr: *mut Simple, value: bool) {"));
    assert!(r.contains("pub struct SimplePtrBundle"));
    assert!(r.contains("impl SimpleEmitter {"));
    assert!(r.contains("    /// Clone the emitter\n"));
    assert!(r.contains("    pub fn clone(&mut self) -> SimpleEmitter {"));
    assert!(r.contains("} = ptr_bundle;"));
    let exported = r.matches("#[no_mangle]\npub unsafe extern \"C\" fn ").count();
    assert_eq!(exported, 4);
    assert_eq!(r.matches("extern \"C\"").count(), 4);
    let new_at = r.find("fn simple_new").unwrap();
    let free_at = r.find("fn simple_free").unwrap();
    let bundle_at = r.find("pub struct SimplePtrBundle").unwrap();
    assert!(new_at < free_at && free_at < bundle_at);
}

#[test]
fn rendered_trait_of_an_object() {
    let o = object("Simple", ObjectType::Object, vec![("value", prop(SimpleType::Bool, false, true))]);
    let mut scope = codegen::Scope::new();
    push_trait(&mut scope, &o);
    let expected = [
        "pub trait SimpleTrait {\n",
        "    fn new(emit: SimpleEmitter) -> Self;\n\n",
        "    fn emit(&mut self) -> &mut SimpleEmitter;\n\n",
        "    fn value(&self) -> bool;\n\n",
        "    fn set_value(&mut self, value: bool);\n}",
    ]
    .concat();
    assert_eq!(scope.to_string(), expected);
}

#[test]
fn rendered_trait_getter_by_function() {
    let mut p = prop(SimpleType::QString, false, false);
    p.rust_by_function = true;
    let o = object("Named", ObjectType::Object, vec![("title", p)]);
    let mut scope = codegen::Scope::new();
    push_trait(&mut scope, &o);
    assert!(scope.to_string().contains("    fn title<F>(&self, getter: F)\n    where F: FnOnce(&str),\n    ;"));
}

#[test]
fn cpp_calls_the_c_functions_that_rust_defines() {
    let o = object("Person", ObjectType::Object, vec![("age", prop(SimpleType::QUint8, false, true))]);
    let getter = render_fn(non_complex_non_optional::getter(&o, "age", &o.properties[0].1));
    let setter = render_fn(non_complex_non_optional::setter(&o, "age", &o.properties[0].1));
    assert!(getter.contains("fn person_age_get("));
    assert!(setter.contains("fn person_age_set("));
    let mut cpp = String::new();
    riqtshaw::cpp::code::object::properties::properties(&mut cpp, &o);
    assert!(cpp.contains("return person_age_get(m_d);"));
    assert!(cpp.contains("person_age_set(m_d, v);"));
}

#[test]
fn constructor_statements_of_a_tree() {
    let o = object("Nodes", ObjectType::Tree, Vec::new());
    let mut f = codegen::Function::new("build");
    riqtshaw::rust::c_ffi::new_imp::new_ctor(&o, "nodes", &mut f);
    let text = render_fn(f);
    assert!(text.contains("let nodes_emit = NodesEmitter {"));
    assert!(text.contains("new_data_ready: nodes_new_data_ready,"));
    assert!(text.contains("let model = NodesTree {"));
    assert!(text.contains("let d_nodes = Nodes::new(nodes_emit, model"));
}

#[test]
fn required_text_property_functions() {
    let o = object("Person", ObjectType::Object, vec![("name", prop(SimpleType::QString, false, true))]);
    let mut scope = codegen::Scope::new();
    riqtshaw::rust::c_ffi::properties::simple_prop(&mut scope, &SimpleType::QString, "name", &o.properties[0].1, &o);
    assert_eq!(
        scope.to_string(),
        "#[no_mangle]\npub unsafe extern \"C\" fn person_name_get(ptr: *const Person, prop: *mut QString, set: fn(*mut QString, *const c_char, c_int)) {\n    let obj = &*ptr;\n    let value = obj.name();\n    let str_: *const c_char = value.as_ptr() as (*const c_char);\n    set(prop, str_, to_c_int(value.len()));\n}\n\n#[no_mangle]\npub unsafe extern \"C\" fn person_name_set(ptr: *mut Person, value: *const c_ushort, len: c_int) {\n    let obj = &mut *ptr;\n    let mut s = String::new();\n    set_string_from_utf16(&mut s, value, len);\n    obj.set_name(s);\n}"
    );
}

#[test]
fn required_bytes_property_by_value() {
    let mut p = prop(SimpleType::QByteArray, false, true);
    p.rust_by_value = true;
    let o = object("Person", ObjectType::Object, vec![("data", p)]);
    let mut scope = codegen::Scope::new();
    riqtshaw::rust::c_ffi::properties::simple_prop(&mut scope, &SimpleType::QByteArray, "data", &o.properties[0].1, &o);
    assert_eq!(
        scope.to_string(),
        "#[no_mangle]\npub unsafe extern \"C\" fn person_data_get(ptr: *const Person, prop: *mut QByteArray, set: fn(*mut QByteArray, *const c_char, c_int)) {\n    let obj = &*ptr;\n    obj.data(|value| {\n        let str_: *const c_char = value.as_ptr() as (*const c_char);\n        set(prop, str_, to_c_int(value.len()));\n    });\n}\n\n#[no_mangle]\npub unsafe extern \"C\" fn person_data_set(ptr: *mut Person, value: *const c_char, len: c_int) {\n    let obj = &mut *ptr;\n    let value = qba_slice!(value, len);\n    obj.set_data(value);\n}"
    );
}

#[test]
fn byte_array_item_setter_takes_chars() {
    let o = object("Files", ObjectType::List, Vec::new());
    let ip = riqtshaw::configuration::ItemProperty {
        item_property_type: Type::Simple(SimpleType::QByteArray),
        optional: false,
        roles: vec![vec![]],
        rust_by_value: false,
        write: true,
    };
    let f = riqtshaw::rust::c_ffi::item_props::list::qbytearray_set(&o, "content", &ip);
    let text = render_fn(f);
    assert!(text.contains("fn files_set_data_content(ptr: *mut Files, row: c_int, bs: *const c_char, len: c_int) -> bool {"));
    assert!(text.contains("    let slice = qba_slice!(bs, len);\n    obj.set_content(to_usize(row).unwrap_or(0), slice)\n"));
}

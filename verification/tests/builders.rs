use riqtshaw::builders::item_prop::ItemProp;
use riqtshaw::builders::obj::Obj;
use riqtshaw::builders::sig::Sig;
use riqtshaw::configuration::{CopyType, ObjectType, SimpleType, Type};

#[test]
fn item_prop_builder_sets_flags() {
    let ip = ItemProp::new().simple(SimpleType::QString).write().optional().build();
    assert!(ip.write);
    assert!(ip.optional);
    assert!(!ip.rust_by_value);
    assert_eq!(ip.roles.len(), 1);
    assert!(ip.roles[0].is_empty());
    assert!(matches!(ip.item_property_type, Type::Simple(SimpleType::QString)));
}

#[test]
fn item_prop_builder_by_value() {
    let ip = ItemProp::new().object(SimpleType::QUint8).get_by_value().build();
    assert!(ip.rust_by_value);
    assert!(!ip.write);
    assert!(!ip.optional);
    assert!(matches!(ip.item_property_type, Type::Simple(SimpleType::QUint8)));
}

#[test]
fn default_item_prop_has_no_roles() {
    let ip = ItemProp::default().simple(SimpleType::Bool).build();
    assert!(ip.roles.is_empty());
}

#[test]
fn obj_builder_needs_a_name() {
    assert!(Obj::new().list().build().is_none());
    assert!(Obj::default().build().is_none());
    let o = Obj::new().name("Fibonacci").list().build().unwrap();
    assert_eq!(o.name, "Fibonacci");
    assert_eq!(o.object_type, ObjectType::List);
    assert!(o.properties.is_empty());
    let p = Obj::new().name("Plain").build().unwrap();
    assert_eq!(p.object_type, ObjectType::Object);
}

#[test]
fn obj_builder_takes_hooks() {
    let sig = Sig::new().arg("value", CopyType::Qint32).build();
    let signals = vec![("changed".to_string(), sig)];
    let o = Obj::new().name("Counter").hooks((signals, Vec::new())).build().unwrap();
    assert_eq!(o.signals.len(), 1);
    assert_eq!(o.signals[0].0, "changed");
    assert!(o.connections.is_empty());
}

#[test]
fn sig_builder_keeps_argument_order() {
    let s = Sig::new().arg("x", CopyType::Bool).arg("y", CopyType::Qint32).build();
    assert_eq!(s.arguments.len(), 2);
    assert_eq!(s.arguments[0].name, "x");
    assert_eq!(s.arguments[0].argument_type, CopyType::Bool);
    assert_eq!(s.arguments[1].name, "y");
    assert_eq!(s.arguments[1].argument_type, CopyType::Qint32);
    assert!(Sig::new().build().arguments.is_empty());
}

//! A builder for objects.

use crate::configuration::{Connection, FunctionDef, ItemProperty, Object, ObjectType, Property, Signal};
use crate::entries::{ascending, entry_keys};
use vstd::prelude::*;
use vstd::string::*;

verus! {

/// An object under construction. Its name must be given before it can be built. Its tables
/// hold `(name, value)` entries in ascending name order, without repetition.
pub struct Obj<'a> {
    name: Option<&'a str>,
    functions: Vec<(String, FunctionDef)>,
    item_properties: Vec<(String, ItemProperty)>,
    object_type: ObjectType,
    properties: Vec<(String, Property)>,
    signals: Vec<(String, Signal)>,
    connections: Vec<Connection>,
}

/// What an `Obj` holds so far.
pub struct ObjView {
    pub name: Option<Seq<char>>,
    pub functions: Seq<(String, FunctionDef)>,
    pub item_properties: Seq<(String, ItemProperty)>,
    pub object_type: ObjectType,
    pub properties: Seq<(String, Property)>,
    pub signals: Seq<(String, Signal)>,
    pub connections: Seq<Connection>,
}

impl<'a> Obj<'a> {
    /// The tables are in ascending name order, without repetition.
    #[verifier::type_invariant]
    closed spec fn tables_sorted(self) -> bool {
        &&& ascending(entry_keys(self.functions@))
        &&& ascending(entry_keys(self.item_properties@))
        &&& ascending(entry_keys(self.properties@))
        &&& ascending(entry_keys(self.signals@))
    }
}

impl<'a> View for Obj<'a> {
    type V = ObjView;

    closed spec fn view(&self) -> ObjView {
        ObjView {
            name: match self.name {
                Some(n) => Some(n@),
                None => None,
            },
            functions: self.functions@,
            item_properties: self.item_properties@,
            object_type: self.object_type,
            properties: self.properties@,
            signals: self.signals@,
            connections: self.connections@,
        }
    }
}

/// A builder with no name, empty tables and the plain object type.
pub open spec fn empty_obj() -> ObjView {
    ObjView {
        name: None,
        functions: Seq::empty(),
        item_properties: Seq::empty(),
        object_type: ObjectType::Object,
        properties: Seq::empty(),
        signals: Seq::empty(),
        connections: Seq::empty(),
    }
}

impl<'a> Default for Obj<'a> {
    /// The same as `Obj::new`.
    fn default() -> (r: Self)
        ensures
            r@ == empty_obj(),
    {
        Self::new()
    }
}

impl<'a> Obj<'a> {
    /// A builder with no name, empty tables and the plain object type.
    pub fn new() -> (r: Self)
        ensures
            r@ == empty_obj(),
    {
        Obj {
            name: None,
            functions: Vec::new(),
            item_properties: Vec::new(),
            properties: Vec::new(),
            signals: Vec::new(),
            connections: Vec::new(),
            object_type: ObjectType::Object,
        }
    }

    /// Sets the name.
    pub fn name(self, name: &'a str) -> (r: Self)
        ensures
            r@ == (ObjView { name: Some(name@), ..self@ }),
    {
        proof {
            use_type_invariant(&self);
        }
        let mut s = self;
        s.name = Some(name);
        s
    }

    /// Sets the functions.
    pub fn funcs(self, functions: Vec<(String, FunctionDef)>) -> (r: Self)
        requires
            ascending(entry_keys(functions@)),
        ensures
            r@ == (ObjView { functions: functions@, ..self@ }),
    {
        proof {
            use_type_invariant(&self);
        }
        let mut s = self;
        s.functions = functions;
        s
    }

    /// Sets the item properties.
    pub fn item_props(self, item_props: Vec<(String, ItemProperty)>) -> (r: Self)
        requires
            ascending(entry_keys(item_props@)),
        ensures
            r@ == (ObjView { item_properties: item_props@, ..self@ }),
    {
        proof {
            use_type_invariant(&self);
        }
        let mut s = self;
        s.item_properties = item_props;
        s
    }

    /// Sets the properties.
    pub fn props(self, properties: Vec<(String, Property)>) -> (r: Self)
        requires
            ascending(entry_keys(properties@)),
        ensures
            r@ == (ObjView { properties: properties@, ..self@ }),
    {
        proof {
            use_type_invariant(&self);
        }
        let mut s = self;
        s.properties = properties;
        s
    }

    /// Sets the signals and the connections.
    pub fn hooks(self, hooks: (Vec<(String, Signal)>, Vec<Connection>)) -> (r: Self)
        requires
            ascending(entry_keys(hooks.0@)),
        ensures
            r@ == (ObjView { signals: hooks.0@, connections: hooks.1@, ..self@ }),
    {
        let (signals, connections) = hooks;
        proof {
            use_type_invariant(&self);
        }
        let mut s = self;
        s.signals = signals;
        s.connections = connections;
        s
    }

    /// Makes the object a list.
    pub fn list(self) -> (r: Self)
        ensures
            r@ == (ObjView { object_type: ObjectType::List, ..self@ }),
    {
        proof {
            use_type_invariant(&self);
        }
        let mut s = self;
        s.object_type = ObjectType::List;
        s
    }

    /// The object, or `None` when no name was given.
    pub fn build(self) -> (r: Option<Object>)
        ensures
            r is None <==> self@.name is None,
            r matches Some(o) ==> {
                &&& self@.name == Some(o.name@)
                &&& ascending(entry_keys(o.functions@))
                &&& ascending(entry_keys(o.item_properties@))
                &&& ascending(entry_keys(o.properties@))
                &&& ascending(entry_keys(o.signals@))
                &&& o.functions@ == self@.functions
                &&& o.item_properties@ == self@.item_properties
                &&& o.object_type == self@.object_type
                &&& o.properties@ == self@.properties
                &&& o.signals@ == self@.signals
                &&& o.connections@ == self@.connections
            },
    {
        proof {
            use_type_invariant(&self);
        }
        let Obj { name, functions, item_properties, object_type, properties, signals, connections } = self;
        let name = match name {
            Some(n) => String::from_str(n),
            None => {
                return None;
            },
        };
        Some(Object { name, functions, item_properties, properties, object_type, signals, connections })
    }
}

} // verus!

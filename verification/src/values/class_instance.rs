use super::clone_entries;
use super::entries_view;
use super::RuntimeValue;
use super::Value;
use super::ValueType;
use super::ValueView;
use vstd::prelude::*;
use vstd::std_specs::convert::FromSpecImpl;

verus! {

/// The property table of an instance, with the name of its class. An instance
/// answers the type tag of an object.
#[derive(Debug)]
pub struct ClassInstanceValue {
    pub class_name: String,
    pub map: Vec<(String, Value)>,
}

impl View for ClassInstanceValue {
    type V = (Seq<char>, Seq<(Seq<char>, ValueView)>);

    open spec fn view(&self) -> (Seq<char>, Seq<(Seq<char>, ValueView)>) {
        (self.class_name@, entries_view(self.map))
    }
}

impl RuntimeValue for ClassInstanceValue {
    open spec fn kind_spec(&self) -> ValueType {
        ValueType::Object
    }

    fn kind(&self) -> ValueType {
        ValueType::Object
    }
}

impl From<(String, Vec<(String, Value)>)> for ClassInstanceValue {
    fn from(parts: (String, Vec<(String, Value)>)) -> (r: Self) {
        ClassInstanceValue { class_name: parts.0, map: parts.1 }
    }
}

impl FromSpecImpl<(String, Vec<(String, Value)>)> for ClassInstanceValue {
    open spec fn obeys_from_spec() -> bool {
        true
    }

    open spec fn from_spec(parts: (String, Vec<(String, Value)>)) -> Self {
        ClassInstanceValue { class_name: parts.0, map: parts.1 }
    }
}

impl ClassInstanceValue {
    pub fn new(class_name: String, map: Vec<(String, Value)>) -> (r: Self)
        ensures
            r.class_name == class_name,
            r.map == map,
    {
        ClassInstanceValue { class_name, map }
    }

    /// A copy of the entries.
    pub fn map(&self) -> (r: Vec<(String, Value)>)
        ensures
            entries_view(r) == self@.1,
    {
        clone_entries(&self.map)
    }

    pub fn class_name(&self) -> (r: String)
        ensures
            r@ == self@.0,
    {
        self.class_name.clone()
    }
}

} // verus!

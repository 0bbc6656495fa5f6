use super::RuntimeValue;
use super::ValueType;
use vstd::prelude::*;
use vstd::std_specs::convert::FromSpecImpl;

verus! {

/// A text. Its model is the sequence of its code points.
#[derive(Debug)]
pub struct StringValue {
    pub value: String,
}

impl View for StringValue {
    type V = Seq<char>;

    open spec fn view(&self) -> Seq<char> {
        self.value@
    }
}

impl RuntimeValue for StringValue {
    open spec fn kind_spec(&self) -> ValueType {
        ValueType::String
    }

    fn kind(&self) -> ValueType {
        ValueType::String
    }
}

impl From<String> for StringValue {
    fn from(value: String) -> (r: Self) {
        StringValue { value }
    }
}

impl FromSpecImpl<String> for StringValue {
    open spec fn obeys_from_spec() -> bool {
        true
    }

    open spec fn from_spec(value: String) -> Self {
        StringValue { value }
    }
}

impl Clone for StringValue {
    fn clone(&self) -> (r: Self)
        ensures
            r == *self,
    {
        StringValue { value: self.value.clone() }
    }
}

impl StringValue {
    pub fn value(&self) -> (r: String)
        ensures
            r == self.value,
    {
        self.value.clone()
    }
}

} // verus!

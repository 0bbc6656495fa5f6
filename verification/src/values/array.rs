use super::clone_values;
use super::RuntimeValue;
use super::Value;
use super::values_view;
use super::ValueType;
use super::ValueView;
use vstd::prelude::*;
use vstd::std_specs::convert::FromSpecImpl;

verus! {

/// An ordered sequence of values.
#[derive(Debug)]
pub struct ArrayValue {
    pub value: Vec<Value>,
}

impl View for ArrayValue {
    type V = Seq<ValueView>;

    open spec fn view(&self) -> Seq<ValueView> {
        values_view(self.value)
    }
}

impl RuntimeValue for ArrayValue {
    open spec fn kind_spec(&self) -> ValueType {
        ValueType::Array
    }

    fn kind(&self) -> ValueType {
        ValueType::Array
    }
}

impl From<Vec<Value>> for ArrayValue {
    fn from(value: Vec<Value>) -> (r: Self) {
        ArrayValue { value }
    }
}

impl FromSpecImpl<Vec<Value>> for ArrayValue {
    open spec fn obeys_from_spec() -> bool {
        true
    }

    open spec fn from_spec(value: Vec<Value>) -> Self {
        ArrayValue { value }
    }
}

impl Clone for ArrayValue {
    fn clone(&self) -> (r: Self)
        ensures
            r@ == self@,
    {
        ArrayValue { value: clone_values(&self.value) }
    }
}

impl ArrayValue {
    /// A copy of the elements, in order.
    pub fn value(&self) -> (r: Vec<Value>)
        ensures
            values_view(r) == self@,
    {
        clone_values(&self.value)
    }

    /// Appends one element. Nothing removes an element, so the length of an
    /// array is the number of elements appended to it.
    pub fn append_element(&mut self, element: Value)
        ensures
            final(self)@ == old(self)@.push(element@),
            final(self)@.len() == old(self)@.len() + 1,
    {
        self.value.push(element);
        assert(self@ =~= old(self)@.push(element@));
    }
}

} // verus!

use super::RuntimeValue;
use super::ValueType;
use vstd::prelude::*;
use vstd::std_specs::convert::FromSpecImpl;

verus! {

/// A signed integer of the machine's width.
#[derive(Debug, Clone, Copy)]
pub struct IntegerValue {
    pub value: isize,
}

impl RuntimeValue for IntegerValue {
    open spec fn kind_spec(&self) -> ValueType {
        ValueType::Integer
    }

    fn kind(&self) -> ValueType {
        ValueType::Integer
    }
}

impl From<isize> for IntegerValue {
    fn from(value: isize) -> (r: Self) {
        IntegerValue { value }
    }
}

impl FromSpecImpl<isize> for IntegerValue {
    open spec fn obeys_from_spec() -> bool {
        true
    }

    open spec fn from_spec(value: isize) -> Self {
        IntegerValue { value }
    }
}

impl IntegerValue {
    pub fn value(&self) -> (r: isize)
        ensures
            r == self.value,
    {
        self.value
    }
}

} // verus!

use super::RuntimeValue;
use super::ValueType;
use vstd::prelude::*;
use vstd::std_specs::convert::FromSpecImpl;

verus! {

/// A boolean.
#[derive(Debug, Clone, Copy)]
pub struct BoolValue {
    pub value: bool,
}

impl RuntimeValue for BoolValue {
    open spec fn kind_spec(&self) -> ValueType {
        ValueType::Boolean
    }

    fn kind(&self) -> ValueType {
        ValueType::Boolean
    }
}

impl From<bool> for BoolValue {
    fn from(value: bool) -> (r: Self) {
        BoolValue { value }
    }
}

impl FromSpecImpl<bool> for BoolValue {
    open spec fn obeys_from_spec() -> bool {
        true
    }

    open spec fn from_spec(value: bool) -> Self {
        BoolValue { value }
    }
}

impl BoolValue {
    pub fn value(&self) -> (r: bool)
        ensures
            r == self.value,
    {
        self.value
    }
}

} // verus!

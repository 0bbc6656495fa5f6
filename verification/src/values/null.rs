use super::RuntimeValue;
use super::ValueType;
use vstd::prelude::*;

verus! {

/// The value `null`.
#[derive(Debug, Clone, Copy)]
pub struct NullValue {}

impl RuntimeValue for NullValue {
    open spec fn kind_spec(&self) -> ValueType {
        ValueType::Null
    }

    fn kind(&self) -> ValueType {
        ValueType::Null
    }
}

impl Default for NullValue {
    fn default() -> (r: Self)
        ensures
            r == (NullValue {  }),
    {
        NullValue {  }
    }
}

} // verus!

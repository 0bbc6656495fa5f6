use super::RuntimeValue;
use super::ValueType;
use vstd::prelude::*;

verus! {

/// A decimal number, held as the IEEE 754 bit pattern of a 64-bit binary
/// floating-point number. The library carries the pattern and never computes
/// on it: arithmetic on decimals is the host's.
#[derive(Debug, Clone, Copy)]
pub struct DecimalValue {
    pub bits: u64,
}

impl RuntimeValue for DecimalValue {
    open spec fn kind_spec(&self) -> ValueType {
        ValueType::Decimal
    }

    fn kind(&self) -> ValueType {
        ValueType::Decimal
    }
}

impl DecimalValue {
    pub fn from_bits(bits: u64) -> (r: Self)
        ensures
            r.bits == bits,
    {
        DecimalValue { bits }
    }

    /// The bit pattern of the number.
    pub fn value(&self) -> (r: u64)
        ensures
            r == self.bits,
    {
        self.bits
    }

    pub fn to_bits(&self) -> (r: u64)
        ensures
            r == self.bits,
    {
        self.bits
    }
}

} // verus!

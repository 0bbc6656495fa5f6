use crate::builtin::mk_native_fn;
use crate::builtin::native;
use crate::host::DecimalFunction;
use crate::host::Host;
use crate::text::text;
use crate::values::clone_value;
use crate::values::lemma_value_view;
use crate::values::native_fn::Builtin;
use crate::values::native_fn::ClosureType;
use crate::values::object::ObjectValue;
use crate::values::Value;
use crate::values::ValueView;
use vstd::prelude::*;

verus! {

/// The method `abs` of a number.
pub fn abs(value: Value) -> (r: ClosureType)
    ensures
        r.builtin == Builtin::NumberAbs,
        r.receiver@ == value@,
{
    ClosureType::bound(Builtin::NumberAbs, value)
}

/// What `abs` answers for an integer: its magnitude, or `null` where the
/// magnitude is no integer of the machine.
pub open spec fn integer_abs_result(i: int) -> ValueView {
    if i >= 0 {
        ValueView::Integer(i)
    } else if -i <= isize::MAX {
        ValueView::Integer(-i)
    } else {
        ValueView::Null
    }
}

/// Runs `abs` on `value`, whatever the arguments: the magnitude of a number,
/// `null` for any other value. The host is asked for `Abs` of a decimal
/// number, and its answer is the result; for any other value it is not
/// asked.
pub fn run_abs<H: Host>(value: &Value, host: &mut H) -> (r: Value)
    ensures
        match value@ {
            ValueView::Integer(i) => r@ == integer_abs_result(i),
            ValueView::Decimal(_) => r@ is Decimal,
            _ => r@ == ValueView::Null,
        },
        value@ is Decimal ==> exists|asked: &mut H, d: u64, bits: u64|
            call_ensures(H::decimal_apply, (asked, DecimalFunction::Abs, d), bits) && value@
                == ValueView::Decimal(d) && mut_ref_current(asked) == *old(host) && mut_ref_future(
                asked,
            ) == *final(host) && r@ == ValueView::Decimal(bits),
        !(value@ is Decimal) ==> *final(host) == *old(host),
{
    proof {
        lemma_value_view(*value);
    }
    match value {
        Value::Decimal(d) => Value::decimal(host.decimal_apply(DecimalFunction::Abs, d.bits)),
        Value::Integer(i) => {
            if i.value >= 0 {
                Value::integer(i.value)
            } else if i.value == isize::MIN {
                Value::null()
            } else {
                Value::integer(-i.value)
            }
        },
        _ => Value::null(),
    }
}

/// The entries of the method object of the number `value`.
pub open spec fn number_object_entries(value: ValueView) -> Seq<(Seq<char>, ValueView)> {
    seq![("abs"@, native("number.abs"@, Builtin::NumberAbs, value))]
}

/// The method object of a number.
pub fn get_number_object(number_value: &Value) -> (r: ObjectValue)
    ensures
        r@ == number_object_entries(number_value@),
{
    let mut map: Vec<(String, Value)> = Vec::new();
    let value = clone_value(number_value);
    map.push((text("abs"), mk_native_fn(text("number.abs"), abs(value))));
    let r = ObjectValue { map };
    assert(r@ =~= number_object_entries(number_value@));
    r
}

} // verus!

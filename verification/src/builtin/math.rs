use crate::builtin::mk_native_fn;
use crate::builtin::native;
use crate::host::DecimalFunction;
use crate::host::Host;
use crate::text::text;
use crate::values::clone_value;
use crate::values::entries_view;
use crate::values::lemma_value_view;
use crate::values::native_fn::Builtin;
use crate::values::native_fn::ClosureType;
use crate::values::Value;
use crate::values::values_view;
use crate::values::ValueView;
use vstd::arithmetic::power::pow as power;
use vstd::prelude::*;

verus! {

/// The bit pattern of the decimal number 3.14159.
pub const PI_BITS: u64 = 0x400921f9f01b866e;

/// `math.random`: the decimal number that the host draws when it is asked
/// for one.
pub fn random<H: Host>(host: &mut H) -> (r: Value)
    ensures
        r@ is Decimal,
        exists|asked: &mut H, bits: u64|
            call_ensures(H::random, (asked,), bits) && mut_ref_current(asked) == *old(host)
                && mut_ref_future(asked) == *final(host) && r@ == ValueView::Decimal(bits),
{
    Value::decimal(host.random())
}

/// What the functions that round have in common: `null` to no argument and
/// to an argument that is no number, the argument itself where it is an
/// integer, a decimal number where it is one.
pub open spec fn rounds(args: Seq<ValueView>, r: ValueView) -> bool {
    if args.len() == 0 {
        r == ValueView::Null
    } else {
        match args[0] {
            ValueView::Integer(_) => r == args[0],
            ValueView::Decimal(_) => r is Decimal,
            _ => r == ValueView::Null,
        }
    }
}

/// Applies a function that rounds to the first argument. A decimal number is
/// handed to the host with that function, and the host's answer is the
/// result; for any other argument the host is not asked.
pub fn round_with<H: Host>(function: DecimalFunction, args: &Vec<Value>, host: &mut H) -> (r:
    Value)
    ensures
        rounds(values_view(*args), r@),
        values_view(*args).len() > 0 && values_view(*args)[0] is Decimal ==> exists|asked: &mut H, d: u64, bits: u64|
            call_ensures(H::decimal_apply, (asked, function, d), bits) && values_view(*args)[0]
                == ValueView::Decimal(d) && mut_ref_current(asked) == *old(host) && mut_ref_future(
                asked,
            ) == *final(host) && r@ == ValueView::Decimal(bits),
        !(values_view(*args).len() > 0 && values_view(*args)[0] is Decimal) ==> *final(host) == *old(host),
{
    if args.len() == 0 {
        return Value::null();
    }
    proof {
        lemma_value_view(args[0]);
    }
    match &args[0] {
        Value::Decimal(d) => Value::decimal(host.decimal_apply(function, d.bits)),
        Value::Integer(_) => clone_value(&args[0]),
        _ => Value::null(),
    }
}

/// `math.floor`: the host is asked for `Floor` of a decimal argument.
pub fn floor<H: Host>(args: Vec<Value>, host: &mut H) -> (r: Value)
    ensures
        rounds(values_view(args), r@),
        values_view(args).len() > 0 && values_view(args)[0] is Decimal ==> exists|asked: &mut H, d: u64, bits: u64|
            call_ensures(H::decimal_apply, (asked, DecimalFunction::Floor, d), bits) && values_view(args)[0]
                == ValueView::Decimal(d) && mut_ref_current(asked) == *old(host) && mut_ref_future(
                asked,
            ) == *final(host) && r@ == ValueView::Decimal(bits),
        !(values_view(args).len() > 0 && values_view(args)[0] is Decimal) ==> *final(host) == *old(host),
{
    round_with(DecimalFunction::Floor, &args, host)
}

/// `math.ceil`: the host is asked for `Ceil` of a decimal argument.
pub fn ceil<H: Host>(args: Vec<Value>, host: &mut H) -> (r: Value)
    ensures
        rounds(values_view(args), r@),
        values_view(args).len() > 0 && values_view(args)[0] is Decimal ==> exists|asked: &mut H, d: u64, bits: u64|
            call_ensures(H::decimal_apply, (asked, DecimalFunction::Ceil, d), bits) && values_view(args)[0]
                == ValueView::Decimal(d) && mut_ref_current(asked) == *old(host) && mut_ref_future(
                asked,
            ) == *final(host) && r@ == ValueView::Decimal(bits),
        !(values_view(args).len() > 0 && values_view(args)[0] is Decimal) ==> *final(host) == *old(host),
{
    round_with(DecimalFunction::Ceil, &args, host)
}

/// `math.trunc`: the host is asked for `Trunc` of a decimal argument.
pub fn trunc<H: Host>(args: Vec<Value>, host: &mut H) -> (r: Value)
    ensures
        rounds(values_view(args), r@),
        values_view(args).len() > 0 && values_view(args)[0] is Decimal ==> exists|asked: &mut H, d: u64, bits: u64|
            call_ensures(H::decimal_apply, (asked, DecimalFunction::Trunc, d), bits) && values_view(args)[0]
                == ValueView::Decimal(d) && mut_ref_current(asked) == *old(host) && mut_ref_future(
                asked,
            ) == *final(host) && r@ == ValueView::Decimal(bits),
        !(values_view(args).len() > 0 && values_view(args)[0] is Decimal) ==> *final(host) == *old(host),
{
    round_with(DecimalFunction::Trunc, &args, host)
}

/// `math.round`: the host is asked for `Round` of a decimal argument.
pub fn round<H: Host>(args: Vec<Value>, host: &mut H) -> (r: Value)
    ensures
        rounds(values_view(args), r@),
        values_view(args).len() > 0 && values_view(args)[0] is Decimal ==> exists|asked: &mut H, d: u64, bits: u64|
            call_ensures(H::decimal_apply, (asked, DecimalFunction::Round, d), bits) && values_view(args)[0]
                == ValueView::Decimal(d) && mut_ref_current(asked) == *old(host) && mut_ref_future(
                asked,
            ) == *final(host) && r@ == ValueView::Decimal(bits),
        !(values_view(args).len() > 0 && values_view(args)[0] is Decimal) ==> *final(host) == *old(host),
{
    round_with(DecimalFunction::Round, &args, host)
}

/// `base` multiplied with itself `exponent` times, as long as every product
/// is an integer of the machine.
spec fn checked_power(base: int, exponent: nat) -> Option<int>
    decreases exponent,
{
    if exponent == 0 {
        Some(1)
    } else {
        match checked_power(base, (exponent - 1) as nat) {
            Some(p) => if isize::MIN <= p * base <= isize::MAX {
                Some(p * base)
            } else {
                None
            },
            None => None,
        }
    }
}

/// What `pow` answers for two integers: the power, or `null` where the
/// exponent is negative or the power is no integer of the machine.
pub open spec fn integer_power_result(base: int, exponent: int) -> ValueView {
    if exponent < 0 {
        ValueView::Null
    } else if isize::MIN <= power(base, exponent as nat) <= isize::MAX {
        ValueView::Integer(power(base, exponent as nat))
    } else {
        ValueView::Null
    }
}

/// A power of minus one is one or minus one.
proof fn lemma_power_of_minus_one_is_unit(exponent: nat)
    ensures
        power(-1, exponent) == 1 || power(-1, exponent) == -1,
    decreases exponent,
{
    reveal(power);
    if exponent > 0 {
        lemma_power_of_minus_one_is_unit((exponent - 1) as nat);
    }
}

/// Where a power is an integer of the machine, so is the power before it.
proof fn lemma_smaller_power_fits(base: int, exponent: nat)
    requires
        exponent > 0,
        isize::MIN <= power(base, exponent) <= isize::MAX,
    ensures
        isize::MIN <= power(base, (exponent - 1) as nat) <= isize::MAX,
{
    reveal(power);
    let q = power(base, (exponent - 1) as nat);
    assert(power(base, exponent) == base * q);
    if base == 0 {
        if exponent - 1 > 0 {
            vstd::arithmetic::power::lemma0_pow((exponent - 1) as nat);
        }
    } else if base == 1 {
        vstd::arithmetic::power::lemma1_pow((exponent - 1) as nat);
    } else if base == -1 {
        lemma_power_of_minus_one_is_unit((exponent - 1) as nat);
    } else {
        let low = isize::MIN as int;
        let high = isize::MAX as int;
        assert(low <= q <= high) by (nonlinear_arith)
            requires
                base >= 2 || base <= -2,
                low <= base * q <= high,
                low == -high - 1,
                high >= 1,
        {
        }
    }
}

/// Repeated multiplication within the integers of the machine gives the
/// power where the power is such an integer, and nothing where it is not.
proof fn lemma_checked_power(base: int, exponent: nat)
    ensures
        checked_power(base, exponent) == (if isize::MIN <= power(base, exponent) <= isize::MAX {
            Some(power(base, exponent))
        } else {
            None
        }),
    decreases exponent,
{
    reveal(power);
    if exponent > 0 {
        lemma_checked_power(base, (exponent - 1) as nat);
        let q = power(base, (exponent - 1) as nat);
        assert(power(base, exponent) == base * q);
        assert(q * base == base * q) by (nonlinear_arith);
        if isize::MIN <= power(base, exponent) <= isize::MAX {
            lemma_smaller_power_fits(base, exponent);
        }
    }
}

/// What holds of `pow`. It answers `null` unless it is given two numbers. Two
/// integers give an integer; where one of them is a decimal number, the
/// result is a decimal number.
pub open spec fn powers(args: Seq<ValueView>, r: ValueView) -> bool {
    if args.len() != 2 {
        r == ValueView::Null
    } else {
        match (args[0], args[1]) {
            (ValueView::Integer(b), ValueView::Integer(e)) => r == integer_power_result(b, e),
            (ValueView::Integer(_), ValueView::Decimal(_)) => r is Decimal,
            (ValueView::Decimal(_), ValueView::Integer(_)) => r is Decimal,
            (ValueView::Decimal(_), ValueView::Decimal(_)) => r is Decimal,
            _ => r == ValueView::Null,
        }
    }
}

proof fn lemma_power_of_zero(exponent: nat)
    ensures
        checked_power(0, exponent) == if exponent == 0 {
            Some(1int)
        } else {
            Some(0int)
        },
    decreases exponent,
{
    if exponent > 0 {
        lemma_power_of_zero((exponent - 1) as nat);
    }
}

proof fn lemma_power_of_one(exponent: nat)
    ensures
        checked_power(1, exponent) == Some(1int),
    decreases exponent,
{
    if exponent > 0 {
        lemma_power_of_one((exponent - 1) as nat);
    }
}

proof fn lemma_power_of_minus_one(exponent: nat)
    ensures
        checked_power(-1, exponent) == if exponent % 2 == 0 {
            Some(1int)
        } else {
            Some(-1int)
        },
    decreases exponent,
{
    if exponent > 0 {
        lemma_power_of_minus_one((exponent - 1) as nat);
    }
}

proof fn lemma_power_stays_none(base: int, reached: nat, exponent: nat)
    requires
        reached <= exponent,
        checked_power(base, reached) is None,
    ensures
        checked_power(base, exponent) is None,
    decreases exponent,
{
    if reached < exponent {
        lemma_power_stays_none(base, reached, (exponent - 1) as nat);
    }
}

/// The power of two integers.
pub fn integer_power(base: isize, exponent: isize) -> (r: Value)
    ensures
        r@ == integer_power_result(base as int, exponent as int),
{
    if exponent < 0 {
        return Value::null();
    }
    proof {
        lemma_checked_power(base as int, exponent as nat);
    }
    if base == 0 {
        proof {
            lemma_power_of_zero(exponent as nat);
        }
        return Value::integer(if exponent == 0 { 1 } else { 0 });
    }
    if base == 1 {
        proof {
            lemma_power_of_one(exponent as nat);
        }
        return Value::integer(1);
    }
    if base == -1 {
        proof {
            lemma_power_of_minus_one(exponent as nat);
        }
        return Value::integer(if exponent % 2 == 0 { 1 } else { -1 });
    }
    let mut result: isize = 1;
    let mut i: isize = 0;
    while i < exponent
        invariant
            0 <= i <= exponent,
            checked_power(base as int, i as nat) == Some(result as int),
        decreases exponent - i,
    {
        match result.checked_mul(base) {
            Some(product) => {
                result = product;
            },
            None => {
                proof {
                    assert(checked_power(base as int, (i + 1) as nat) is None);
                    lemma_power_stays_none(base as int, (i + 1) as nat, exponent as nat);
                    lemma_checked_power(base as int, exponent as nat);
                }
                return Value::null();
            },
        }
        i = i + 1;
    }
    Value::integer(result)
}

/// The bits of a number as a decimal number: of a decimal number its own, of
/// an integer what the host answers when it is asked to convert it. The host
/// is asked for nothing else.
fn decimal_bits<H: Host>(value: &Value, host: &mut H) -> (r: Option<u64>)
    ensures
        r is Some == (value@ is Integer || value@ is Decimal),
        value@ matches ValueView::Decimal(d) ==> r == Some(d),
        value@ is Integer ==> exists|asked: &mut H, i: isize, bits: u64|
            call_ensures(H::decimal_from_integer, (asked, i), bits) && value@ == ValueView::Integer(
                i as int,
            ) && mut_ref_current(asked) == *old(host) && mut_ref_future(asked) == *final(host) && r
                == Some(bits),
        !(value@ is Integer) ==> *final(host) == *old(host),
{
    proof {
        lemma_value_view(*value);
    }
    match value {
        Value::Decimal(d) => Some(d.bits),
        Value::Integer(i) => Some(host.decimal_from_integer(i.value)),
        _ => None,
    }
}

/// Whether a value is an integer or a decimal number.
pub open spec fn number(v: ValueView) -> bool {
    v is Integer || v is Decimal
}

/// `math.pow`. Two integers are multiplied out here. Of two numbers with a
/// decimal number among them, the host is first asked to convert the one
/// that is an integer, then to raise the first to the second; its last answer
/// is the result. In every other case the host is not asked.
pub fn pow<H: Host>(args: Vec<Value>, host: &mut H) -> (r: Value)
    ensures
        powers(values_view(args), r@),
        values_view(args).len() == 2 && values_view(args)[0] is Decimal && values_view(args)[1]
            is Decimal ==> exists|asked: &mut H, x: u64, y: u64, bits: u64|
            call_ensures(H::decimal_power, (asked, x, y), bits) && values_view(args)[0]
                == ValueView::Decimal(x) && values_view(args)[1] == ValueView::Decimal(y)
                && mut_ref_current(asked) == *old(host) && mut_ref_future(asked) == *final(host)
                && r@ == ValueView::Decimal(bits),
        values_view(args).len() == 2 && values_view(args)[0] is Integer && values_view(args)[1]
            is Decimal ==> exists|first: &mut H, asked: &mut H, i: isize, x: u64, y: u64, bits: u64|
            call_ensures(H::decimal_from_integer, (first, i), x) && call_ensures(
                H::decimal_power,
                (asked, x, y),
                bits,
            ) && values_view(args)[0] == ValueView::Integer(i as int) && values_view(args)[1]
                == ValueView::Decimal(y) && mut_ref_current(first) == *old(host) && mut_ref_current(
                asked,
            ) == mut_ref_future(first) && mut_ref_future(asked) == *final(host) && r@
                == ValueView::Decimal(bits),
        values_view(args).len() == 2 && values_view(args)[0] is Decimal && values_view(args)[1]
            is Integer ==> exists|first: &mut H, asked: &mut H, i: isize, x: u64, y: u64, bits: u64|
            call_ensures(H::decimal_from_integer, (first, i), y) && call_ensures(
                H::decimal_power,
                (asked, x, y),
                bits,
            ) && values_view(args)[0] == ValueView::Decimal(x) && values_view(args)[1]
                == ValueView::Integer(i as int) && mut_ref_current(first) == *old(host)
                && mut_ref_current(asked) == mut_ref_future(first) && mut_ref_future(asked)
                == *final(host) && r@ == ValueView::Decimal(bits),
        !(values_view(args).len() == 2 && number(values_view(args)[0]) && number(
            values_view(args)[1],
        ) && (values_view(args)[0] is Decimal || values_view(args)[1] is Decimal)) ==> *final(host)
            == *old(host),
{
    if args.len() != 2 {
        return Value::null();
    }
    proof {
        lemma_value_view(args[0]);
        lemma_value_view(args[1]);
    }
    match (&args[0], &args[1]) {
        (Value::Integer(target), Value::Integer(factor)) => integer_power(
            target.value,
            factor.value,
        ),
        (Value::Integer(_), Value::Decimal(_))
        | (Value::Decimal(_), Value::Integer(_))
        | (Value::Decimal(_), Value::Decimal(_)) => {
            let target = match decimal_bits(&args[0], host) {
                Some(bits) => bits,
                None => {
                    return Value::null();
                },
            };
            let factor = match decimal_bits(&args[1], host) {
                Some(bits) => bits,
                None => {
                    return Value::null();
                },
            };
            Value::decimal(host.decimal_power(target, factor))
        },
        _ => Value::null(),
    }
}

/// What holds of `sqrt`: `null` to no argument and to an argument that is no
/// number, else a decimal number.
pub open spec fn takes_root(args: Seq<ValueView>, r: ValueView) -> bool {
    if args.len() > 0 && (args[0] is Integer || args[0] is Decimal) {
        r is Decimal
    } else {
        r == ValueView::Null
    }
}

/// `math.sqrt`. The host is asked for `Sqrt` of a decimal argument; an
/// integer argument it is first asked to convert. Its last answer is the
/// result. For any other argument the host is not asked.
pub fn sqrt<H: Host>(args: Vec<Value>, host: &mut H) -> (r: Value)
    ensures
        takes_root(values_view(args), r@),
        values_view(args).len() > 0 && values_view(args)[0] is Decimal ==> exists|
            asked: &mut H,
            d: u64,
            bits: u64,
        |
            call_ensures(H::decimal_apply, (asked, DecimalFunction::Sqrt, d), bits) && values_view(
                args,
            )[0] == ValueView::Decimal(d) && mut_ref_current(asked) == *old(host) && mut_ref_future(
                asked,
            ) == *final(host) && r@ == ValueView::Decimal(bits),
        values_view(args).len() > 0 && values_view(args)[0] is Integer ==> exists|
            first: &mut H,
            asked: &mut H,
            i: isize,
            d: u64,
            bits: u64,
        |
            call_ensures(H::decimal_from_integer, (first, i), d) && call_ensures(
                H::decimal_apply,
                (asked, DecimalFunction::Sqrt, d),
                bits,
            ) && values_view(args)[0] == ValueView::Integer(i as int) && mut_ref_current(first)
                == *old(host) && mut_ref_current(asked) == mut_ref_future(first) && mut_ref_future(
                asked,
            ) == *final(host) && r@ == ValueView::Decimal(bits),
        !(values_view(args).len() > 0 && number(values_view(args)[0])) ==> *final(host) == *old(
            host,
        ),
{
    if args.len() == 0 {
        return Value::null();
    }
    match decimal_bits(&args[0], host) {
        Some(bits) => Value::decimal(host.decimal_apply(DecimalFunction::Sqrt, bits)),
        None => Value::null(),
    }
}

/// The entries of the object `math`.
pub open spec fn math_entries() -> Seq<(Seq<char>, ValueView)> {
    seq![
        ("PI"@, ValueView::Decimal(PI_BITS)),
        ("random"@, native("math.random"@, Builtin::MathRandom, ValueView::Null)),
        ("floor"@, native("math.floor"@, Builtin::MathFloor, ValueView::Null)),
        ("ceil"@, native("math.ceil"@, Builtin::MathCeil, ValueView::Null)),
        ("trunc"@, native("math.trunc"@, Builtin::MathTrunc, ValueView::Null)),
        ("round"@, native("math.round"@, Builtin::MathRound, ValueView::Null)),
        ("pow"@, native("math.pow"@, Builtin::MathPow, ValueView::Null)),
        ("sqrt"@, native("math.sqrt"@, Builtin::MathSqrt, ValueView::Null)),
    ]
}

/// The object `math`: the constant `PI` and the functions.
pub fn get_math() -> (r: Vec<(String, Value)>)
    ensures
        entries_view(r) == math_entries(),
{
    let mut map: Vec<(String, Value)> = Vec::new();
    map.push((text("PI"), Value::decimal(PI_BITS)));
    map.push(
        (text("random"), mk_native_fn(text("math.random"), ClosureType::free(Builtin::MathRandom))),
    );
    map.push(
        (text("floor"), mk_native_fn(text("math.floor"), ClosureType::free(Builtin::MathFloor))),
    );
    map.push((text("ceil"), mk_native_fn(text("math.ceil"), ClosureType::free(Builtin::MathCeil))));
    map.push(
        (text("trunc"), mk_native_fn(text("math.trunc"), ClosureType::free(Builtin::MathTrunc))),
    );
    map.push(
        (text("round"), mk_native_fn(text("math.round"), ClosureType::free(Builtin::MathRound))),
    );
    map.push((text("pow"), mk_native_fn(text("math.pow"), ClosureType::free(Builtin::MathPow))));
    map.push((text("sqrt"), mk_native_fn(text("math.sqrt"), ClosureType::free(Builtin::MathSqrt))));
    assert(entries_view(map) =~= math_entries());
    map
}

} // verus!

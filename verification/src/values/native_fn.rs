use crate::builtin::array::run_get_by_index;
use crate::builtin::array::run_merge;
use crate::builtin::convert::native_string_convert;
use crate::builtin::math::ceil;
use crate::builtin::math::floor;
use crate::builtin::math::pow;
use crate::builtin::math::random;
use crate::builtin::math::round;
use crate::builtin::math::sqrt;
use crate::builtin::math::trunc;
use crate::builtin::number::run_abs;
use crate::builtin::print::native_print_function;
use crate::builtin::function_asked;
use crate::builtin::native_value;
use crate::builtin::operand_asked;
use crate::builtin::print::line_writes;
use crate::builtin::runs;
use crate::builtin::string::joins;
use crate::builtin::string::run_concat;
use crate::builtin::string::run_get_char;
use crate::builtin::string::run_join;
use crate::builtin::string::run_lower;
use crate::builtin::string::run_replace;
use crate::builtin::string::run_split;
use crate::builtin::string::run_substr;
use crate::builtin::string::run_trim;
use crate::builtin::string::run_trim_end;
use crate::builtin::string::run_trim_start;
use crate::builtin::string::run_upper;
use crate::builtin::time::native_get_time;
use crate::builtin::type_of::native_type_of;
use crate::host::DecimalFunction;
use crate::host::Host;
use crate::values::lemma_value_view;
use crate::values::values_view;
use super::clone_native;
use super::clone_value;
use super::native_view;
use super::NativeFnView;
use super::RuntimeValue;
use super::Value;
use super::value_view;
use super::ValueType;
use super::ValueView;
use vstd::prelude::*;

verus! {

/// The functions that the host language provides.
#[derive(Clone, Copy, Debug, PartialEq, Eq, Structural)]
pub enum Builtin {
    Print,
    Time,
    TypeOf,
    StringConvert,
    MathRandom,
    MathFloor,
    MathCeil,
    MathTrunc,
    MathRound,
    MathPow,
    MathSqrt,
    NumberAbs,
    StringGet,
    StringConcat,
    StringSubstr,
    StringUpper,
    StringLower,
    StringTrim,
    StringTrimStart,
    StringTrimEnd,
    StringReplace,
    StringSplit,
    StringJoin,
    ArrayGet,
    ArrayMerge,
}

/// A host callable: one of the built-in functions, together with the value it
/// was made for. A method of a text, of a number or of an array holds that
/// value as its receiver; a free function holds `null`.
#[derive(Debug)]
pub struct ClosureType {
    pub builtin: Builtin,
    pub receiver: Box<Value>,
}

impl ClosureType {
    /// A free function: it has no receiver.
    pub fn free(builtin: Builtin) -> (r: Self)
        ensures
            r.builtin == builtin,
            r.receiver@ == ValueView::Null,
    {
        ClosureType { builtin, receiver: Box::new(Value::null()) }
    }

    /// A method bound to `receiver`.
    pub fn bound(builtin: Builtin, receiver: Value) -> (r: Self)
        ensures
            r.builtin == builtin,
            *r.receiver == receiver,
    {
        ClosureType { builtin, receiver: Box::new(receiver) }
    }
}

impl Clone for ClosureType {
    fn clone(&self) -> (r: Self)
        ensures
            r.builtin == self.builtin,
            r.receiver@ == self.receiver@,
    {
        ClosureType { builtin: self.builtin, receiver: Box::new(clone_value(&self.receiver)) }
    }
}

/// Holds a callable so that it can be run.
#[derive(Debug)]
pub struct WithFnCall<T> {
    pub fc: T,
}

impl WithFnCall<ClosureType> {
    pub fn new(fc: ClosureType) -> (r: Self)
        ensures
            r.fc == fc,
    {
        WithFnCall { fc }
    }
}

impl WithFnCall<ClosureType> {
    /// Runs the callable on `args`. Where the host has a part in the result,
    /// the clauses after the first say what it is asked and that its answer
    /// is the result.
    pub fn run<H: Host>(&self, args: Vec<Value>, host: &mut H) -> (r: Value)
        ensures
            runs(self.fc.builtin, self.fc.receiver@, values_view(args), r@),
            function_asked(self.fc.builtin) is Some && operand_asked(
                self.fc.builtin,
                self.fc.receiver@,
                values_view(args),
            ) is Decimal ==> exists|asked: &mut H, function: DecimalFunction, d: u64, bits: u64|
                call_ensures(H::decimal_apply, (asked, function, d), bits)
                    && function_asked(self.fc.builtin) == Some(function)
                    && operand_asked(self.fc.builtin, self.fc.receiver@, values_view(args))
                    == ValueView::Decimal(d)
                    && mut_ref_current(asked) == *old(host)
                    && mut_ref_future(asked) == *final(host)
                    && r@ == ValueView::Decimal(bits),
            self.fc.builtin == Builtin::MathSqrt && values_view(args).len() > 0 && values_view(
                args,
            )[0] is Integer ==> exists|first: &mut H, asked: &mut H, i: isize, d: u64, bits: u64|
                call_ensures(H::decimal_from_integer, (first, i), d)
                    && call_ensures(H::decimal_apply, (asked, DecimalFunction::Sqrt, d), bits)
                    && values_view(args)[0] == ValueView::Integer(i as int)
                    && mut_ref_current(first) == *old(host)
                    && mut_ref_current(asked) == mut_ref_future(first)
                    && mut_ref_future(asked) == *final(host)
                    && r@ == ValueView::Decimal(bits),
            self.fc.builtin == Builtin::MathPow && values_view(args).len() == 2 && values_view(
                args,
            )[0] is Decimal && values_view(args)[1] is Decimal ==> exists|
                asked: &mut H,
                x: u64,
                y: u64,
                bits: u64,
            |
                call_ensures(H::decimal_power, (asked, x, y), bits)
                    && values_view(args)[0] == ValueView::Decimal(x)
                    && values_view(args)[1] == ValueView::Decimal(y)
                    && mut_ref_current(asked) == *old(host)
                    && mut_ref_future(asked) == *final(host)
                    && r@ == ValueView::Decimal(bits),
            self.fc.builtin == Builtin::MathPow && values_view(args).len() == 2 && values_view(
                args,
            )[0] is Integer && values_view(args)[1] is Decimal ==> exists|
                first: &mut H,
                asked: &mut H,
                i: isize,
                x: u64,
                y: u64,
                bits: u64,
            |
                call_ensures(H::decimal_from_integer, (first, i), x)
                    && call_ensures(H::decimal_power, (asked, x, y), bits)
                    && values_view(args)[0] == ValueView::Integer(i as int)
                    && values_view(args)[1] == ValueView::Decimal(y)
                    && mut_ref_current(first) == *old(host)
                    && mut_ref_current(asked) == mut_ref_future(first)
                    && mut_ref_future(asked) == *final(host)
                    && r@ == ValueView::Decimal(bits),
            self.fc.builtin == Builtin::MathPow && values_view(args).len() == 2 && values_view(
                args,
            )[0] is Decimal && values_view(args)[1] is Integer ==> exists|
                first: &mut H,
                asked: &mut H,
                i: isize,
                x: u64,
                y: u64,
                bits: u64,
            |
                call_ensures(H::decimal_from_integer, (first, i), y)
                    && call_ensures(H::decimal_power, (asked, x, y), bits)
                    && values_view(args)[0] == ValueView::Decimal(x)
                    && values_view(args)[1] == ValueView::Integer(i as int)
                    && mut_ref_current(first) == *old(host)
                    && mut_ref_current(asked) == mut_ref_future(first)
                    && mut_ref_future(asked) == *final(host)
                    && r@ == ValueView::Decimal(bits),
            self.fc.builtin == Builtin::MathRandom ==> exists|asked: &mut H, bits: u64|
                call_ensures(H::random, (asked,), bits)
                    && mut_ref_current(asked) == *old(host)
                    && mut_ref_future(asked) == *final(host)
                    && r@ == ValueView::Decimal(bits),
            self.fc.builtin == Builtin::StringConvert && values_view(args).len() > 0
                && values_view(args)[0] is Decimal ==> exists|asked: &mut H, answer: String|
                call_ensures(H::decimal_text, (asked, values_view(args)[0]->Decimal_0), answer)
                    && mut_ref_current(asked) == *old(host)
                    && mut_ref_future(asked) == *final(host)
                    && r@ == ValueView::String(answer@),
            self.fc.builtin == Builtin::StringJoin && self.fc.receiver@ is String && values_view(
                args,
            ).len() == 1 && values_view(args)[0] is Array ==> joins::<H>(
                self.fc.receiver@->String_0,
                values_view(args)[0]->Array_0,
                r@->String_0,
            ),
            self.fc.builtin == Builtin::Print ==> exists|handed: &mut H, line: String|
                call_ensures(H::print, (handed, line), ())
                    && mut_ref_future(handed) == *final(host)
                    && line_writes::<H>(values_view(args), line@),
            native_value(self.fc.builtin, self.fc.receiver@, values_view(args)) is Some
                && self.fc.builtin != Builtin::Print ==> *final(host) == *old(host),
    {
        let receiver: &Value = &self.fc.receiver;
        proof {
            lemma_value_view(*receiver);
        }
        match self.fc.builtin {
            Builtin::Print => native_print_function(args, host),
            Builtin::Time => native_get_time(args),
            Builtin::TypeOf => native_type_of(args),
            Builtin::StringConvert => native_string_convert(args, host),
            Builtin::MathRandom => random(host),
            Builtin::MathFloor => floor(args, host),
            Builtin::MathCeil => ceil(args, host),
            Builtin::MathTrunc => trunc(args, host),
            Builtin::MathRound => round(args, host),
            Builtin::MathPow => pow(args, host),
            Builtin::MathSqrt => sqrt(args, host),
            Builtin::NumberAbs => run_abs(receiver, host),
            Builtin::ArrayGet => match receiver {
                Value::Array(a) => run_get_by_index(a, &args),
                _ => Value::null(),
            },
            Builtin::ArrayMerge => match receiver {
                Value::Array(a) => run_merge(a, args),
                _ => Value::null(),
            },
            builtin => match receiver {
                Value::String(s) => match builtin {
                    Builtin::StringGet => run_get_char(s, &args),
                    Builtin::StringConcat => run_concat(s, &args),
                    Builtin::StringSubstr => run_substr(s, &args),
                    Builtin::StringUpper => run_upper(s),
                    Builtin::StringLower => run_lower(s),
                    Builtin::StringTrim => run_trim(s),
                    Builtin::StringTrimStart => run_trim_start(s),
                    Builtin::StringTrimEnd => run_trim_end(s),
                    Builtin::StringReplace => run_replace(s, &args),
                    Builtin::StringSplit => run_split(s, &args),
                    _ => run_join(s, &args, host),
                },
                _ => Value::null(),
            },
        }
    }
}

impl Clone for WithFnCall<ClosureType> {
    fn clone(&self) -> (r: Self)
        ensures
            r.fc.builtin == self.fc.builtin,
            r.fc.receiver@ == self.fc.receiver@,
    {
        WithFnCall { fc: self.fc.clone() }
    }
}

/// A native function: a name and the host callable behind it.
#[derive(Debug)]
pub struct NativeFnValue {
    pub name: String,
    pub call: WithFnCall<ClosureType>,
}

impl View for NativeFnValue {
    type V = NativeFnView;

    open spec fn view(&self) -> NativeFnView {
        native_view(*self)
    }
}

impl Clone for NativeFnValue {
    fn clone(&self) -> (r: Self)
        ensures
            r@ == self@,
    {
        clone_native(self)
    }
}

impl NativeFnValue {
    pub fn new(name: String, call: WithFnCall<ClosureType>) -> (r: Self)
        ensures
            r.name == name,
            r.call == call,
            r@ == (NativeFnView {
                name: name@,
                builtin: call.fc.builtin,
                receiver: Box::new(value_view(*call.fc.receiver)),
            }),
    {
        NativeFnValue { name, call }
    }

    /// A copy of the callable.
    pub fn callee(&self) -> (r: WithFnCall<ClosureType>)
        ensures
            r.fc.builtin == self.call.fc.builtin,
            r.fc.receiver@ == self.call.fc.receiver@,
    {
        self.call.clone()
    }
}

impl RuntimeValue for NativeFnValue {
    open spec fn kind_spec(&self) -> ValueType {
        ValueType::NativeFn
    }

    fn kind(&self) -> ValueType {
        ValueType::NativeFn
    }
}

} // verus!

//! The functions that the language finds in its root scope, and the method
//! objects of texts, numbers and arrays.

pub mod array;
pub mod convert;
pub mod math;
pub mod number;
pub mod print;
pub mod string;
pub mod stringify;
pub mod time;
pub mod type_of;

use crate::builtin::array::get_by_index_result;
use crate::builtin::array::merge_result;
use crate::builtin::convert::converted_text;
use crate::builtin::convert::convertible;
use crate::builtin::math::get_math;
use crate::builtin::math::math_entries;
use crate::builtin::math::powers;
use crate::builtin::math::rounds;
use crate::builtin::math::takes_root;
use crate::builtin::number::integer_abs_result;
use crate::builtin::string::all_convertible;
use crate::builtin::string::concat_text;
use crate::builtin::string::get_char_result;
use crate::builtin::string::joined_text;
use crate::builtin::string::replace_result;
use crate::builtin::string::split_result;
use crate::builtin::string::substr_result;
use crate::builtin::type_of::type_of_result;
use crate::environment::Environment;
use crate::environment::EnvironmentId;
use crate::environment::EnvironmentView;
use crate::environment::ScopeState;
use crate::text::lowercase_of;
use crate::text::text;
use crate::text::trim_end_of;
use crate::text::trim_of;
use crate::text::trim_start_of;
use crate::text::uppercase_of;
use crate::host::DecimalFunction;
use crate::values::lemma_value_view;
use crate::values::native_fn::Builtin;
use crate::values::native_fn::ClosureType;
use crate::values::native_fn::NativeFnValue;
use crate::values::native_fn::WithFnCall;
use crate::values::NativeFnView;
use crate::values::Value;
use crate::values::ValueView;
use vstd::prelude::*;

verus! {

/// The model of a native function called `name` that runs `builtin` for
/// `receiver`.
pub open spec fn native(name: Seq<char>, builtin: Builtin, receiver: ValueView) -> ValueView {
    ValueView::NativeFn(NativeFnView { name, builtin, receiver: Box::new(receiver) })
}

/// What a method of a text answers when it is run for the text `s`.
pub open spec fn string_method_runs(
    builtin: Builtin,
    s: Seq<char>,
    args: Seq<ValueView>,
    r: ValueView,
) -> bool {
    match builtin {
        Builtin::StringGet => r == get_char_result(s, args),
        Builtin::StringConcat => r == ValueView::String(concat_text(s, args, args.len() as int)),
        Builtin::StringSubstr => r == substr_result(s, args),
        Builtin::StringUpper => r == ValueView::String(uppercase_of(s)),
        Builtin::StringLower => r == ValueView::String(lowercase_of(s)),
        Builtin::StringTrim => r == ValueView::String(trim_of(s)),
        Builtin::StringTrimStart => r == ValueView::String(trim_start_of(s)),
        Builtin::StringTrimEnd => r == ValueView::String(trim_end_of(s)),
        Builtin::StringReplace => r == replace_result(s, args),
        Builtin::StringSplit => r == split_result(s, args),
        Builtin::StringJoin => if args.len() == 1 && args[0] is Array {
            &&& r is String
            &&& all_convertible(args[0]->Array_0, args[0]->Array_0.len() as int) ==> r
                == ValueView::String(joined_text(s, args[0]->Array_0, args[0]->Array_0.len() as int))
        } else {
            r == ValueView::Null
        },
        _ => true,
    }
}

/// What a native function answers when it is run: `r` is a result that
/// `builtin`, made for `receiver`, may give to `args`.
///
/// A method that was made for a value of another kind than its own answers
/// `null`. Where the host has a part in the answer, the kind of the answer is
/// stated, and the answer itself as far as the host has none.
pub open spec fn runs(builtin: Builtin, receiver: ValueView, args: Seq<ValueView>, r: ValueView) -> bool {
    match builtin {
        Builtin::Print => r == ValueView::Null,
        Builtin::Time => r is Integer || r is Null,
        Builtin::TypeOf => r == type_of_result(args),
        Builtin::StringConvert => if args.len() == 0 {
            r == ValueView::Null
        } else {
            r is String && (convertible(args[0]) ==> r == ValueView::String(
                converted_text(args[0]),
            ))
        },
        Builtin::MathRandom => r is Decimal,
        Builtin::MathFloor | Builtin::MathCeil | Builtin::MathTrunc | Builtin::MathRound => rounds(
            args,
            r,
        ),
        Builtin::MathPow => powers(args, r),
        Builtin::MathSqrt => takes_root(args, r),
        Builtin::NumberAbs => match receiver {
            ValueView::Integer(i) => r == integer_abs_result(i),
            ValueView::Decimal(_) => r is Decimal,
            _ => r == ValueView::Null,
        },
        Builtin::ArrayGet => match receiver {
            ValueView::Array(items) => r == get_by_index_result(items, args),
            _ => r == ValueView::Null,
        },
        Builtin::ArrayMerge => match receiver {
            ValueView::Array(items) => r == merge_result(items, args),
            _ => r == ValueView::Null,
        },
        _ => match receiver {
            ValueView::String(s) => string_method_runs(builtin, s, args, r),
            _ => r == ValueView::Null,
        },
    }
}

/// The function of one decimal number that a native function asks the host
/// for, where it asks for one.
pub open spec fn function_asked(builtin: Builtin) -> Option<DecimalFunction> {
    match builtin {
        Builtin::MathFloor => Some(DecimalFunction::Floor),
        Builtin::MathCeil => Some(DecimalFunction::Ceil),
        Builtin::MathTrunc => Some(DecimalFunction::Trunc),
        Builtin::MathRound => Some(DecimalFunction::Round),
        Builtin::MathSqrt => Some(DecimalFunction::Sqrt),
        Builtin::NumberAbs => Some(DecimalFunction::Abs),
        _ => None,
    }
}

/// The value that such a function is asked of: the receiver of `abs`, the
/// first argument of the others, `null` where there is none.
pub open spec fn operand_asked(builtin: Builtin, receiver: ValueView, args: Seq<ValueView>) -> ValueView {
    if builtin == Builtin::NumberAbs {
        receiver
    } else if args.len() > 0 {
        args[0]
    } else {
        ValueView::Null
    }
}

/// What a native function answers, where the host has no part in the answer.
pub open spec fn native_value(builtin: Builtin, receiver: ValueView, args: Seq<ValueView>) -> Option<
    ValueView,
> {
    match builtin {
        Builtin::Print => Some(ValueView::Null),
        Builtin::Time => None,
        Builtin::TypeOf => Some(type_of_result(args)),
        Builtin::StringConvert => if args.len() == 0 {
            Some(ValueView::Null)
        } else if convertible(args[0]) {
            Some(ValueView::String(converted_text(args[0])))
        } else {
            None
        },
        Builtin::MathRandom => None,
        Builtin::MathFloor | Builtin::MathCeil | Builtin::MathTrunc | Builtin::MathRound => if args.len()
            == 0 {
            Some(ValueView::Null)
        } else {
            match args[0] {
                ValueView::Integer(_) => Some(args[0]),
                ValueView::Decimal(_) => None,
                _ => Some(ValueView::Null),
            }
        },
        Builtin::MathPow => if args.len() != 2 {
            Some(ValueView::Null)
        } else {
            match (args[0], args[1]) {
                (ValueView::Integer(b), ValueView::Integer(e)) => Some(
                    crate::builtin::math::integer_power_result(b, e),
                ),
                (ValueView::Integer(_), ValueView::Decimal(_)) => None,
                (ValueView::Decimal(_), ValueView::Integer(_)) => None,
                (ValueView::Decimal(_), ValueView::Decimal(_)) => None,
                _ => Some(ValueView::Null),
            }
        },
        Builtin::MathSqrt => if args.len() > 0 && (args[0] is Integer || args[0] is Decimal) {
            None
        } else {
            Some(ValueView::Null)
        },
        Builtin::NumberAbs => match receiver {
            ValueView::Integer(i) => Some(integer_abs_result(i)),
            ValueView::Decimal(_) => None,
            _ => Some(ValueView::Null),
        },
        Builtin::ArrayGet => match receiver {
            ValueView::Array(items) => Some(get_by_index_result(items, args)),
            _ => Some(ValueView::Null),
        },
        Builtin::ArrayMerge => match receiver {
            ValueView::Array(items) => Some(merge_result(items, args)),
            _ => Some(ValueView::Null),
        },
        _ => match receiver {
            ValueView::String(s) => match builtin {
                Builtin::StringGet => Some(get_char_result(s, args)),
                Builtin::StringConcat => Some(
                    ValueView::String(concat_text(s, args, args.len() as int)),
                ),
                Builtin::StringSubstr => Some(substr_result(s, args)),
                Builtin::StringUpper => Some(ValueView::String(uppercase_of(s))),
                Builtin::StringLower => Some(ValueView::String(lowercase_of(s))),
                Builtin::StringTrim => Some(ValueView::String(trim_of(s))),
                Builtin::StringTrimStart => Some(ValueView::String(trim_start_of(s))),
                Builtin::StringTrimEnd => Some(ValueView::String(trim_end_of(s))),
                Builtin::StringReplace => Some(replace_result(s, args)),
                Builtin::StringSplit => Some(split_result(s, args)),
                _ => if args.len() == 1 && args[0] is Array {
                    if all_convertible(args[0]->Array_0, args[0]->Array_0.len() as int) {
                        Some(
                            ValueView::String(
                                joined_text(s, args[0]->Array_0, args[0]->Array_0.len() as int),
                            ),
                        )
                    } else {
                        None
                    }
                } else {
                    Some(ValueView::Null)
                },
            },
            _ => Some(ValueView::Null),
        },
    }
}

/// A native function answers what `native_value` says, where it says
/// anything.
pub proof fn lemma_runs_native_value(
    builtin: Builtin,
    receiver: ValueView,
    args: Seq<ValueView>,
    r: ValueView,
)
    requires
        runs(builtin, receiver, args, r),
    ensures
        native_value(builtin, receiver, args) matches Some(v) ==> r == v,
{
}

/// A length as a value: the integer of that size, where the length is within
/// the range of the integers.
pub open spec fn length_value(n: nat) -> ValueView {
    ValueView::Integer(((n as usize) as isize) as int)
}

/// A length as a value.
pub fn mk_length(n: usize) -> (r: Value)
    ensures
        r@ == length_value(n as nat),
        n <= isize::MAX ==> r@ == ValueView::Integer(n as int),
{
    Value::integer(
        #[verifier::truncate]
        (n as isize),
    )
}

/// A native function as a value.
pub fn mk_native_fn(name: String, func: ClosureType) -> (r: Value)
    ensures
        r@ == native(name@, func.builtin, func.receiver@),
{
    let with_call = WithFnCall::new(func);
    let r = Value::NativeFn(NativeFnValue::new(name, with_call));
    proof {
        lemma_value_view(r);
    }
    r
}

/// The bindings of the root scope, in the order of their declaration.
pub open spec fn default_bindings() -> Seq<(Seq<char>, ValueView)> {
    seq![
        ("true"@, ValueView::Boolean(true)),
        ("false"@, ValueView::Boolean(false)),
        ("null"@, ValueView::Null),
        ("print"@, native("print"@, Builtin::Print, ValueView::Null)),
        ("time"@, native("time"@, Builtin::Time, ValueView::Null)),
        ("math"@, ValueView::Object(math_entries())),
        ("type_of"@, native("type_of"@, Builtin::TypeOf, ValueView::Null)),
    ]
}

/// The names of the root scope. All of them are constant.
pub open spec fn default_names() -> Set<Seq<char>> {
    set!["true"@, "false"@, "null"@, "print"@, "time"@, "math"@, "type_of"@]
}

/// The names of the root scope differ from each other.
pub proof fn lemma_default_names_differ()
    ensures
        "true"@ != "false"@,
        "true"@ != "null"@,
        "true"@ != "print"@,
        "true"@ != "time"@,
        "true"@ != "math"@,
        "true"@ != "type_of"@,
        "false"@ != "null"@,
        "false"@ != "print"@,
        "false"@ != "time"@,
        "false"@ != "math"@,
        "false"@ != "type_of"@,
        "null"@ != "print"@,
        "null"@ != "time"@,
        "null"@ != "math"@,
        "null"@ != "type_of"@,
        "print"@ != "time"@,
        "print"@ != "math"@,
        "print"@ != "type_of"@,
        "time"@ != "math"@,
        "time"@ != "type_of"@,
        "math"@ != "type_of"@,
{
    reveal_strlit("true");
    reveal_strlit("false");
    reveal_strlit("null");
    reveal_strlit("print");
    reveal_strlit("time");
    reveal_strlit("math");
    reveal_strlit("type_of");
    assert("true"@.len() == 4 && "false"@.len() == 5 && "null"@.len() == 4 && "print"@.len() == 5
        && "time"@.len() == 4 && "math"@.len() == 4 && "type_of"@.len() == 7);
    assert("true"@[0] == 't' && "null"@[0] == 'n' && "time"@[0] == 't' && "math"@[0] == 'm');
    assert("true"@[1] == 'r' && "time"@[1] == 'i');
    assert("false"@[0] == 'f' && "print"@[0] == 'p');
}

/// Declares one constant of the root scope.
fn declare_default(environment: &mut Environment, name: &str, value: Value)
    ensures
        !old(environment)@.binds(name@) ==> final(environment)@ == old(environment)@.declared(
            name@,
            value@,
            true,
        ),
{
    let _ = environment.declare_variable(text(name), value, true);
}

/// Adds the root scope to the store and gives its identifier. The scope has
/// no parent and binds `true`, `false`, `null`, `print`, `time`, `math` and
/// `type_of`, each as a constant.
pub fn setup_default_environment(scope_state: &mut ScopeState) -> (r: EnvironmentId)
    requires
        old(scope_state).wf(),
        old(scope_state).last_generated_id < u64::MAX,
    ensures
        r == old(scope_state).last_generated_id + 1,
        final(scope_state)@.last_generated_id == r,
        final(scope_state)@.scopes == old(scope_state)@.scopes.insert(
            r,
            EnvironmentView {
                id: r,
                parent: None,
                variables: default_bindings(),
                constants: default_names(),
            },
        ),
        final(scope_state).wf(),
{
    proof {
        lemma_default_names_differ();
    }
    let mut environment = Environment::new(None);
    declare_default(&mut environment, "true", Value::boolean(true));
    assert(environment@.variables =~= seq![("true"@, ValueView::Boolean(true))]);
    assert(!environment@.binds("false"@)) by {
        crate::entries::lemma_absent(environment@.variables, "false"@);
    }
    declare_default(&mut environment, "false", Value::boolean(false));
    assert(!environment@.binds("null"@)) by {
        crate::entries::lemma_absent(environment@.variables, "null"@);
    }
    declare_default(&mut environment, "null", Value::null());
    assert(!environment@.binds("print"@)) by {
        crate::entries::lemma_absent(environment@.variables, "print"@);
    }
    declare_default(
        &mut environment,
        "print",
        mk_native_fn(text("print"), ClosureType::free(Builtin::Print)),
    );
    assert(!environment@.binds("time"@)) by {
        crate::entries::lemma_absent(environment@.variables, "time"@);
    }
    declare_default(
        &mut environment,
        "time",
        mk_native_fn(text("time"), ClosureType::free(Builtin::Time)),
    );
    assert(!environment@.binds("math"@)) by {
        crate::entries::lemma_absent(environment@.variables, "math"@);
    }
    declare_default(&mut environment, "math", Value::object(get_math()));
    assert(!environment@.binds("type_of"@)) by {
        crate::entries::lemma_absent(environment@.variables, "type_of"@);
    }
    declare_default(
        &mut environment,
        "type_of",
        mk_native_fn(text("type_of"), ClosureType::free(Builtin::TypeOf)),
    );
    assert(environment@.variables =~= default_bindings());
    assert(environment@.constants =~= default_names());
    scope_state.append_environment(environment)
}

} // verus!

use crate::builtin::stringify::decimal_free;
use crate::builtin::stringify::host_writes;
use crate::builtin::stringify::stringify;
use crate::builtin::stringify::text_of;
use crate::host::Host;
use crate::text::count_to_text;
use crate::text::integer_text;
use crate::text::joined;
use crate::text::text;
use crate::values::lemma_value_view;
use crate::values::Value;
use crate::values::values_view;
use crate::values::ValueView;
use vstd::prelude::*;

verus! {

/// The value has a text that no host decides: it is an array, an object, or
/// free of decimal numbers.
pub open spec fn convertible(v: ValueView) -> bool {
    v is Array || v is Object || decimal_free(v)
}

/// The text that a value is converted to: an array and an object say how
/// much they hold, every other value is written out.
pub open spec fn converted_text(v: ValueView) -> Seq<char> {
    match v {
        ValueView::Array(items) => "<array ("@ + integer_text(items.len() as int) + " items)>"@,
        ValueView::Object(entries) => "<object ("@ + integer_text(entries.len() as int)
            + " pairs)>"@,
        _ => text_of(v),
    }
}

/// `t` is a text that the value is converted to with the host `H`: for a
/// decimal number a text that the host gives for it, for any other value the
/// text that is fixed here.
pub open spec fn converts<H: Host>(v: ValueView, t: Seq<char>) -> bool {
    match v {
        ValueView::Decimal(d) => host_writes::<H>(d, t),
        _ => t == converted_text(v),
    }
}

/// Converts a value to a text. The host is asked for the text of a decimal
/// number, and its answer is the result; for any other value it is not
/// asked.
pub fn convert_to_string<H: Host>(value: &Value, host: &mut H) -> (r: String)
    ensures
        converts::<H>(value@, r@),
        convertible(value@) ==> r@ == converted_text(value@),
        value@ is Decimal ==> exists|asked: &mut H, answer: String|
            call_ensures(H::decimal_text, (asked, value@->Decimal_0), answer)
                && mut_ref_current(asked) == *old(host) && mut_ref_future(asked) == *final(host)
                && r@ == answer@,
        !(value@ is Decimal) ==> *final(host) == *old(host),
{
    proof {
        lemma_value_view(*value);
    }
    match value {
        Value::Array(array) => {
            let mut out = text("<array (");
            out = joined(out, count_to_text(array.value.len()).as_str());
            joined(out, " items)>")
        },
        Value::Object(object) => {
            let mut out = text("<object (");
            out = joined(out, count_to_text(object.map.len()).as_str());
            joined(out, " pairs)>")
        },
        _ => stringify(value, host),
    }
}

/// The built-in conversion to a text: `null` to no argument, else the text
/// of the first. The host is asked for the text of a decimal number, and
/// for nothing else.
pub fn native_string_convert<H: Host>(args: Vec<Value>, host: &mut H) -> (r: Value)
    ensures
        values_view(args).len() == 0 ==> r@ == ValueView::Null,
        values_view(args).len() > 0 ==> r@ is String,
        values_view(args).len() > 0 && convertible(values_view(args)[0]) ==> r@
            == ValueView::String(converted_text(values_view(args)[0])),
        values_view(args).len() > 0 && values_view(args)[0] is Decimal ==> exists|
            asked: &mut H,
            answer: String,
        |
            call_ensures(H::decimal_text, (asked, values_view(args)[0]->Decimal_0), answer)
                && mut_ref_current(asked) == *old(host) && mut_ref_future(asked) == *final(host)
                && r@ == ValueView::String(answer@),
        !(values_view(args).len() > 0 && values_view(args)[0] is Decimal) ==> *final(host) == *old(
            host,
        ),
{
    if args.len() == 0 {
        return Value::null();
    }
    Value::string(convert_to_string(&args[0], host))
}

} // verus!

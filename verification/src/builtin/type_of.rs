use crate::text::text;
use crate::values::kind_of;
use crate::values::RuntimeValue;
use crate::values::Value;
use crate::values::values_view;
use crate::values::ValueType;
use crate::values::ValueView;
use vstd::prelude::*;

verus! {

/// The name that `type_of` gives to a type tag. Integers and decimals are
/// numbers, functions of the language and of the host are functions, and an
/// instance is an object.
pub open spec fn kind_name(kind: ValueType) -> Seq<char> {
    match kind {
        ValueType::Array => "array"@,
        ValueType::Boolean => "boolean"@,
        ValueType::Decimal | ValueType::Integer => "number"@,
        ValueType::Function | ValueType::NativeFn => "function"@,
        ValueType::Null => "null"@,
        ValueType::Object | ValueType::ClassInstance => "object"@,
        ValueType::String => "string"@,
        ValueType::Class => "class"@,
    }
}

/// What `type_of` answers to a list of arguments: `null` to none, else the
/// name of the type of the first.
pub open spec fn type_of_result(args: Seq<ValueView>) -> ValueView {
    if args.len() == 0 {
        ValueView::Null
    } else {
        ValueView::String(kind_name(kind_of(args[0])))
    }
}

/// The name of a type tag.
pub fn name_of_kind(kind: ValueType) -> (r: String)
    ensures
        r@ == kind_name(kind),
{
    match kind {
        ValueType::Array => text("array"),
        ValueType::Boolean => text("boolean"),
        ValueType::Decimal | ValueType::Integer => text("number"),
        ValueType::Function | ValueType::NativeFn => text("function"),
        ValueType::Null => text("null"),
        ValueType::Object | ValueType::ClassInstance => text("object"),
        ValueType::String => text("string"),
        ValueType::Class => text("class"),
    }
}

/// The built-in `type_of`.
pub fn native_type_of(args: Vec<Value>) -> (r: Value)
    ensures
        r@ == type_of_result(values_view(args)),
{
    if args.len() == 0 {
        return Value::null();
    }
    Value::string(name_of_kind(args[0].kind()))
}

/// `type_of` is total, and every text it answers is one of eight names.
pub proof fn lemma_type_of_closed(args: Seq<ValueView>)
    ensures
        type_of_result(args) is Null <==> args.len() == 0,
        args.len() > 0 ==> type_of_result(args) is String && ({
            let name = type_of_result(args)->String_0;
            ||| name == "null"@
            ||| name == "boolean"@
            ||| name == "number"@
            ||| name == "function"@
            ||| name == "string"@
            ||| name == "array"@
            ||| name == "object"@
            ||| name == "class"@
        }),
{
}

} // verus!

use crate::builtin::convert::convert_to_string;
use crate::builtin::convert::converted_text;
use crate::builtin::convert::convertible;
use crate::builtin::convert::converts;
use crate::builtin::length_value;
use crate::builtin::mk_length;
use crate::builtin::mk_native_fn;
use crate::builtin::native;
use crate::host::Host;
use crate::text::char_text;
use crate::text::joined;
use crate::text::lower_text;
use crate::text::lowercase_of;
use crate::text::replace_of;
use crate::text::replace_text;
use crate::text::split_of;
use crate::text::split_text;
use crate::text::text;
use crate::text::texts_view;
use crate::text::trim_end_of;
use crate::text::trim_end_text;
use crate::text::trim_of;
use crate::text::trim_start_of;
use crate::text::trim_start_text;
use crate::text::trim_text;
use crate::text::upper_text;
use crate::text::uppercase_of;
use crate::values::lemma_value_view;
use crate::values::native_fn::Builtin;
use crate::values::native_fn::ClosureType;
use crate::values::object::ObjectValue;
use crate::values::string::StringValue;
use crate::values::Value;
use crate::values::values_view;
use crate::values::ValueView;
use vstd::prelude::*;

verus! {

/// What `get` answers: the code point at the index that the first argument
/// gives, as a text of its own; `null` where there is no such argument, where
/// it is no integer, or where the index is negative or not below the length.
pub open spec fn get_char_result(s: Seq<char>, args: Seq<ValueView>) -> ValueView {
    if args.len() >= 1 && args[0] is Integer && 0 <= args[0]->Integer_0 < s.len() {
        ValueView::String(seq![s[args[0]->Integer_0]])
    } else {
        ValueView::Null
    }
}

/// `s` followed by the texts among the first `n` arguments, in order.
pub open spec fn concat_text(s: Seq<char>, args: Seq<ValueView>, n: int) -> Seq<char>
    decreases n,
{
    if n <= 0 {
        s
    } else if args[n - 1] is String {
        concat_text(s, args, n - 1) + args[n - 1]->String_0
    } else {
        concat_text(s, args, n - 1)
    }
}

/// What `substr` answers. The first argument says how many code points to
/// skip, the second, if there is one, how many to take; without it, all that
/// follow are taken. A negative count leaves that many out at the end.
pub open spec fn substr_result(s: Seq<char>, args: Seq<ValueView>) -> ValueView {
    if args.len() < 1 || !(args[0] is Integer) || args[0]->Integer_0 < 0 {
        ValueView::Null
    } else if args.len() >= 2 && !(args[1] is Integer) {
        ValueView::Null
    } else {
        let skip = args[0]->Integer_0;
        let rest = s.len() - skip;
        let asked = if args.len() < 2 {
            rest
        } else {
            args[1]->Integer_0
        };
        if asked < 0 && -asked >= rest {
            ValueView::Null
        } else {
            let take = if asked < 0 {
                rest + asked
            } else {
                asked
            };
            let from = if skip > s.len() {
                s.len() as int
            } else {
                skip
            };
            let to = if from + take > s.len() {
                s.len() as int
            } else {
                from + take
            };
            ValueView::String(s.subrange(from, to))
        }
    }
}

/// What `replace` answers: the text with every match of the first argument
/// replaced by the second; `null` unless the arguments are two texts.
pub open spec fn replace_result(s: Seq<char>, args: Seq<ValueView>) -> ValueView {
    if args.len() == 2 && args[0] is String && args[1] is String {
        ValueView::String(replace_of(s, args[0]->String_0, args[1]->String_0))
    } else {
        ValueView::Null
    }
}

/// What `split` answers: the array of the pieces between the matches of the
/// argument; `null` unless the argument is one text.
pub open spec fn split_result(s: Seq<char>, args: Seq<ValueView>) -> ValueView {
    if args.len() == 1 && args[0] is String {
        let pieces = split_of(s, args[0]->String_0);
        ValueView::Array(Seq::new(pieces.len(), |i: int| ValueView::String(pieces[i])))
    } else {
        ValueView::Null
    }
}

/// The texts of the first `n` of `items`, with `sep` between them.
pub open spec fn joined_text(sep: Seq<char>, items: Seq<ValueView>, n: int) -> Seq<char>
    decreases n,
{
    if n <= 0 {
        Seq::empty()
    } else if n == 1 {
        converted_text(items[0])
    } else {
        joined_text(sep, items, n - 1) + sep + converted_text(items[n - 1])
    }
}

/// The first `n` of `texts`, with `sep` between them.
pub open spec fn joined_texts(sep: Seq<char>, texts: Seq<Seq<char>>, n: int) -> Seq<char>
    decreases n,
{
    if n <= 0 {
        Seq::empty()
    } else if n == 1 {
        texts[0]
    } else {
        joined_texts(sep, texts, n - 1) + sep + texts[n - 1]
    }
}

/// `r` is the elements `items` joined by `sep` with the host `H`: the texts
/// that the elements are converted to, each decimal number as the host
/// writes it, with `sep` between them.
pub open spec fn joins<H: Host>(sep: Seq<char>, items: Seq<ValueView>, r: Seq<char>) -> bool {
    exists|texts: Seq<Seq<char>>|
        #![trigger joined_texts(sep, texts, items.len() as int)]
        texts.len() == items.len() && r == joined_texts(sep, texts, items.len() as int) && forall|
            k: int,
        |
            0 <= k < items.len() ==> converts::<H>(items[k], #[trigger] texts[k])
}

/// The first `n` texts joined do not depend on a text that follows them.
pub proof fn lemma_joined_texts_with_more(
    sep: Seq<char>,
    texts: Seq<Seq<char>>,
    more: Seq<char>,
    n: int,
)
    requires
        0 <= n <= texts.len(),
    ensures
        joined_texts(sep, texts.push(more), n) == joined_texts(sep, texts, n),
    decreases n,
{
    if n > 0 {
        assert(texts.push(more)[n - 1] == texts[n - 1]);
        assert(texts.push(more)[0] == texts[0]);
        lemma_joined_texts_with_more(sep, texts, more, n - 1);
    }
}

/// The first `n` of `items` have a text that no host decides.
pub open spec fn all_convertible(items: Seq<ValueView>, n: int) -> bool
    decreases n,
{
    if n <= 0 {
        true
    } else {
        all_convertible(items, n - 1) && convertible(items[n - 1])
    }
}

/// For a text of `n` code points, `get` answers a text of one code point to
/// an index from 0 up to `n`, and `null` to an index below 0 or from `n` on.
pub proof fn lemma_get_char_by_index(s: Seq<char>, args: Seq<ValueView>, i: int)
    requires
        args.len() >= 1,
        args[0] == ValueView::Integer(i),
    ensures
        0 <= i < s.len() ==> get_char_result(s, args) == ValueView::String(seq![s[i]])
            && get_char_result(s, args)->String_0.len() == 1,
        i < 0 || i >= s.len() ==> get_char_result(s, args) == ValueView::Null,
{
}

/// The method `get` of a text.
pub fn get_char(value: StringValue) -> (r: ClosureType)
    ensures
        r.builtin == Builtin::StringGet,
        r.receiver@ == ValueView::String(value@),
{
    ClosureType::bound(Builtin::StringGet, Value::string(value.value))
}

/// Runs `get` on `value`.
pub fn run_get_char(value: &StringValue, args: &Vec<Value>) -> (r: Value)
    ensures
        r@ == get_char_result(value@, values_view(*args)),
{
    if args.len() < 1 {
        return Value::null();
    }
    proof {
        lemma_value_view(args[0]);
    }
    match &args[0] {
        Value::Integer(index) => {
            if index.value < 0 {
                return Value::null();
            }
            let i = index.value as usize;
            if value.value.as_str().unicode_len() <= i {
                return Value::null();
            }
            let c = value.value.as_str().get_char(i);
            Value::string(char_text(c))
        },
        _ => Value::null(),
    }
}

/// The method `concat` of a text.
pub fn concat(value: StringValue) -> (r: ClosureType)
    ensures
        r.builtin == Builtin::StringConcat,
        r.receiver@ == ValueView::String(value@),
{
    ClosureType::bound(Builtin::StringConcat, Value::string(value.value))
}

/// Runs `concat` on `value`: the text followed by every argument that is a
/// text.
pub fn run_concat(value: &StringValue, args: &Vec<Value>) -> (r: Value)
    ensures
        r@ == ValueView::String(
            concat_text(value@, values_view(*args), values_view(*args).len() as int),
        ),
{
    let mut result = value.value.clone();
    let mut i: usize = 0;
    while i < args.len()
        invariant
            i <= args.len(),
            result@ == concat_text(value@, values_view(*args), i as int),
        decreases args.len() - i,
    {
        proof {
            lemma_value_view(args[i as int]);
        }
        match &args[i] {
            Value::String(s) => {
                result = joined(result, s.value.as_str());
            },
            _ => {},
        }
        i = i + 1;
    }
    Value::string(result)
}

/// The method `substr` of a text.
pub fn substr(value: StringValue) -> (r: ClosureType)
    ensures
        r.builtin == Builtin::StringSubstr,
        r.receiver@ == ValueView::String(value@),
{
    ClosureType::bound(Builtin::StringSubstr, Value::string(value.value))
}

/// Runs `substr` on `value`.
pub fn run_substr(value: &StringValue, args: &Vec<Value>) -> (r: Value)
    ensures
        r@ == substr_result(value@, values_view(*args)),
{
    if args.len() < 1 {
        return Value::null();
    }
    proof {
        lemma_value_view(args[0]);
    }
    let skip: isize = match &args[0] {
        Value::Integer(skip) => skip.value,
        _ => {
            return Value::null();
        },
    };
    if skip < 0 {
        return Value::null();
    }
    let count: usize = value.value.as_str().unicode_len();
    let from: usize = if skip as usize > count {
        count
    } else {
        skip as usize
    };
    let take: usize = if args.len() < 2 {
        if skip as usize > count {
            return Value::null();
        }
        count - from
    } else {
        proof {
            lemma_value_view(args[1]);
        }
        let asked: isize = match &args[1] {
            Value::Integer(take) => take.value,
            _ => {
                return Value::null();
            },
        };
        if asked < 0 {
            if skip as usize >= count {
                return Value::null();
            }
            let rest: usize = count - from;
            let back: usize = ((-(asked + 1)) as usize) + 1;
            if back >= rest {
                return Value::null();
            }
            rest - back
        } else {
            asked as usize
        }
    };
    let to: usize = if take >= count - from {
        count
    } else {
        from + take
    };
    let piece = value.value.as_str().substring_char(from, to);
    Value::string(text(piece))
}

/// The method `upper` of a text.
pub fn upper(value: StringValue) -> (r: ClosureType)
    ensures
        r.builtin == Builtin::StringUpper,
        r.receiver@ == ValueView::String(value@),
{
    ClosureType::bound(Builtin::StringUpper, Value::string(value.value))
}

/// Runs `upper` on `value`: the text in upper case, whatever the arguments.
pub fn run_upper(value: &StringValue) -> (r: Value)
    ensures
        r@ == ValueView::String(uppercase_of(value@)),
{
    Value::string(upper_text(value.value.as_str()))
}

/// The method `lower` of a text.
pub fn lower(value: StringValue) -> (r: ClosureType)
    ensures
        r.builtin == Builtin::StringLower,
        r.receiver@ == ValueView::String(value@),
{
    ClosureType::bound(Builtin::StringLower, Value::string(value.value))
}

/// Runs `lower` on `value`: the text in lower case, whatever the arguments.
pub fn run_lower(value: &StringValue) -> (r: Value)
    ensures
        r@ == ValueView::String(lowercase_of(value@)),
{
    Value::string(lower_text(value.value.as_str()))
}

/// The method `trim` of a text.
pub fn trim(value: StringValue) -> (r: ClosureType)
    ensures
        r.builtin == Builtin::StringTrim,
        r.receiver@ == ValueView::String(value@),
{
    ClosureType::bound(Builtin::StringTrim, Value::string(value.value))
}

/// Runs `trim` on `value`: the text without the white space at either end.
pub fn run_trim(value: &StringValue) -> (r: Value)
    ensures
        r@ == ValueView::String(trim_of(value@)),
{
    Value::string(text(trim_text(value.value.as_str())))
}

/// The method `trim_start` of a text.
pub fn trim_start(value: StringValue) -> (r: ClosureType)
    ensures
        r.builtin == Builtin::StringTrimStart,
        r.receiver@ == ValueView::String(value@),
{
    ClosureType::bound(Builtin::StringTrimStart, Value::string(value.value))
}

/// Runs `trim_start` on `value`.
pub fn run_trim_start(value: &StringValue) -> (r: Value)
    ensures
        r@ == ValueView::String(trim_start_of(value@)),
{
    Value::string(text(trim_start_text(value.value.as_str())))
}

/// The method `trim_end` of a text.
pub fn trim_end(value: StringValue) -> (r: ClosureType)
    ensures
        r.builtin == Builtin::StringTrimEnd,
        r.receiver@ == ValueView::String(value@),
{
    ClosureType::bound(Builtin::StringTrimEnd, Value::string(value.value))
}

/// Runs `trim_end` on `value`.
pub fn run_trim_end(value: &StringValue) -> (r: Value)
    ensures
        r@ == ValueView::String(trim_end_of(value@)),
{
    Value::string(text(trim_end_text(value.value.as_str())))
}

/// The method `replace` of a text.
pub fn replace(value: StringValue) -> (r: ClosureType)
    ensures
        r.builtin == Builtin::StringReplace,
        r.receiver@ == ValueView::String(value@),
{
    ClosureType::bound(Builtin::StringReplace, Value::string(value.value))
}

/// Runs `replace` on `value`.
pub fn run_replace(value: &StringValue, args: &Vec<Value>) -> (r: Value)
    ensures
        r@ == replace_result(value@, values_view(*args)),
{
    if args.len() != 2 {
        return Value::null();
    }
    proof {
        lemma_value_view(args[0]);
        lemma_value_view(args[1]);
    }
    match (&args[0], &args[1]) {
        (Value::String(search), Value::String(replacement)) => Value::string(
            replace_text(
                value.value.as_str(),
                search.value.as_str(),
                replacement.value.as_str(),
            ),
        ),
        _ => Value::null(),
    }
}

/// The method `split` of a text.
pub fn split(value: StringValue) -> (r: ClosureType)
    ensures
        r.builtin == Builtin::StringSplit,
        r.receiver@ == ValueView::String(value@),
{
    ClosureType::bound(Builtin::StringSplit, Value::string(value.value))
}

/// Runs `split` on `value`.
pub fn run_split(value: &StringValue, args: &Vec<Value>) -> (r: Value)
    ensures
        r@ == split_result(value@, values_view(*args)),
{
    if args.len() != 1 {
        return Value::null();
    }
    proof {
        lemma_value_view(args[0]);
    }
    match &args[0] {
        Value::String(separator) => {
            let parts = split_text(value.value.as_str(), separator.value.as_str());
            let ghost pieces = split_of(value@, separator@);
            let mut items: Vec<Value> = Vec::new();
            let mut i: usize = 0;
            while i < parts.len()
                invariant
                    i <= parts.len(),
                    items.len() == i,
                    texts_view(parts) == pieces,
                    forall|j: int| 0 <= j < i ==> (#[trigger] items[j])@ == ValueView::String(pieces[j]),
                decreases parts.len() - i,
            {
                assert(texts_view(parts)[i as int] == parts[i as int]@);
                items.push(Value::string(parts[i].clone()));
                i = i + 1;
            }
            let r = Value::array(items);
            assert(r@->Array_0 =~= split_result(value@, values_view(*args))->Array_0);
            r
        },
        _ => Value::null(),
    }
}

/// The method `join` of a text.
pub fn join(value: StringValue) -> (r: ClosureType)
    ensures
        r.builtin == Builtin::StringJoin,
        r.receiver@ == ValueView::String(value@),
{
    ClosureType::bound(Builtin::StringJoin, Value::string(value.value))
}

/// Runs `join` on `value`: the texts of the elements of the array that is
/// the one argument, with `value` between them; `null` unless the argument is
/// one array. The host gives the text of each element that is a decimal
/// number.
pub fn run_join<H: Host>(value: &StringValue, args: &Vec<Value>, host: &mut H) -> (r: Value)
    ensures
        !(values_view(*args).len() == 1 && values_view(*args)[0] is Array) ==> r@
            == ValueView::Null,
        values_view(*args).len() == 1 && values_view(*args)[0] is Array ==> r@ is String,
        values_view(*args).len() == 1 && values_view(*args)[0] is Array ==> joins::<H>(
            value@,
            values_view(*args)[0]->Array_0,
            r@->String_0,
        ),
        !(values_view(*args).len() == 1 && values_view(*args)[0] is Array && !all_convertible(
            values_view(*args)[0]->Array_0,
            values_view(*args)[0]->Array_0.len() as int,
        )) ==> *final(host) == *old(host),
        values_view(*args).len() == 1 && values_view(*args)[0] is Array && all_convertible(
            values_view(*args)[0]->Array_0,
            values_view(*args)[0]->Array_0.len() as int,
        ) ==> r@ == ValueView::String(
            joined_text(
                value@,
                values_view(*args)[0]->Array_0,
                values_view(*args)[0]->Array_0.len() as int,
            ),
        ),
{
    if args.len() != 1 {
        return Value::null();
    }
    proof {
        lemma_value_view(args[0]);
    }
    match &args[0] {
        Value::Array(array) => {
            let mut out = String::new();
            let mut i: usize = 0;
            let ghost items = array@;
            let ghost mut texts = Seq::<Seq<char>>::empty();
            assert(out@ =~= joined_text(value@, items, 0));
            while i < array.value.len()
                invariant
                    i <= array.value.len(),
                    items == array@,
                    all_convertible(items, i as int) ==> out@ == joined_text(value@, items, i as int),
                    all_convertible(items, i as int) ==> *host == *old(host),
                    texts.len() == i,
                    out@ == joined_texts(value@, texts, i as int),
                    forall|k: int| 0 <= k < i ==> converts::<H>(items[k], #[trigger] texts[k]),
                decreases array.value.len() - i,
            {
                if i > 0 {
                    out = joined(out, value.value.as_str());
                }
                let item = convert_to_string(&array.value[i], host);
                proof {
                    lemma_joined_texts_with_more(value@, texts, item@, i as int);
                    texts = texts.push(item@);
                }
                out = joined(out, item.as_str());
                i = i + 1;
                assert(out@ =~= joined_texts(value@, texts, i as int));
                assert(all_convertible(items, i as int) ==> out@ =~= joined_text(
                    value@,
                    items,
                    i as int,
                ));
            }
            proof {
                lemma_all_convertible_prefix(items, items.len() as int, i as int);
            }
            Value::string(out)
        },
        _ => Value::null(),
    }
}

/// What holds of the first `n` holds of the first `i` of them.
pub proof fn lemma_all_convertible_prefix(items: Seq<ValueView>, n: int, i: int)
    requires
        0 <= i <= n,
    ensures
        all_convertible(items, n) ==> all_convertible(items, i),
    decreases n,
{
    if i < n {
        lemma_all_convertible_prefix(items, n - 1, i);
    }
}

/// The entries of the method object of the text `s`.
pub open spec fn string_object_entries(s: Seq<char>) -> Seq<(Seq<char>, ValueView)> {
    let receiver = ValueView::String(s);
    seq![
        ("get"@, native("string.get"@, Builtin::StringGet, receiver)),
        ("concat"@, native("string.concat"@, Builtin::StringConcat, receiver)),
        ("substr"@, native("string.substr"@, Builtin::StringSubstr, receiver)),
        ("upper"@, native("string.upper"@, Builtin::StringUpper, receiver)),
        ("lower"@, native("string.lower"@, Builtin::StringLower, receiver)),
        ("replace"@, native("string.replace"@, Builtin::StringReplace, receiver)),
        ("trim"@, native("string.trim"@, Builtin::StringTrim, receiver)),
        ("trim_start"@, native("string.trim_start"@, Builtin::StringTrimStart, receiver)),
        ("trim_end"@, native("string.trim_end"@, Builtin::StringTrimEnd, receiver)),
        ("split"@, native("string.split"@, Builtin::StringSplit, receiver)),
        ("join"@, native("string.join"@, Builtin::StringJoin, receiver)),
        ("length"@, length_value(s.len())),
    ]
}

/// The method object of a text: its methods, each bound to the text, and its
/// length in code points. The object is made anew at every access.
pub fn get_string_object(string_value: &StringValue) -> (r: ObjectValue)
    ensures
        r@ == string_object_entries(string_value@),
{
    let mut map: Vec<(String, Value)> = Vec::new();
    map.push((text("get"), mk_native_fn(text("string.get"), get_char(string_value.clone()))));
    map.push(
        (text("concat"), mk_native_fn(text("string.concat"), concat(string_value.clone()))),
    );
    map.push(
        (text("substr"), mk_native_fn(text("string.substr"), substr(string_value.clone()))),
    );
    map.push((text("upper"), mk_native_fn(text("string.upper"), upper(string_value.clone()))));
    map.push((text("lower"), mk_native_fn(text("string.lower"), lower(string_value.clone()))));
    map.push(
        (text("replace"), mk_native_fn(text("string.replace"), replace(string_value.clone()))),
    );
    map.push((text("trim"), mk_native_fn(text("string.trim"), trim(string_value.clone()))));
    map.push(
        (
            text("trim_start"),
            mk_native_fn(text("string.trim_start"), trim_start(string_value.clone())),
        ),
    );
    map.push(
        (text("trim_end"), mk_native_fn(text("string.trim_end"), trim_end(string_value.clone()))),
    );
    map.push((text("split"), mk_native_fn(text("string.split"), split(string_value.clone()))));
    map.push((text("join"), mk_native_fn(text("string.join"), join(string_value.clone()))));
    let length = string_value.value.as_str().unicode_len();
    map.push((text("length"), mk_length(length)));
    let r = ObjectValue { map };
    assert(r@ =~= string_object_entries(string_value@));
    r
}

} // verus!

use crate::host::Host;
use crate::text::count_to_text;
use crate::text::integer_text;
use crate::text::integer_to_text;
use crate::text::joined;
use crate::text::quoted_of;
use crate::text::quoted_text;
use crate::text::text;
use crate::values::lemma_value_view;
use crate::values::Value;
use crate::values::ValueView;
use vstd::prelude::*;

verus! {

/// The number of elements of an array that are written out.
pub const ARRAY_MAX_ITEMS: usize = 10;

/// The number of entries of an object that are written out.
pub const OBJECT_MAX_ITEMS: usize = 30;

/// No decimal number takes part in the text of the value. The text of such a
/// value is the same with every host.
pub open spec fn decimal_free(v: ValueView) -> bool
    decreases v, 0int,
{
    match v {
        ValueView::Decimal(_) => false,
        ValueView::Array(items) => items_decimal_free(items, shown(items.len(), 10)),
        ValueView::Object(entries) => entries_decimal_free(entries, shown(entries.len(), 30)),
        _ => true,
    }
}

/// The first `n` of `items` are free of decimal numbers.
pub open spec fn items_decimal_free(items: Seq<ValueView>, n: int) -> bool
    decreases items, n,
{
    if n <= 0 || n > items.len() {
        true
    } else {
        items_decimal_free(items, n - 1) && decimal_free(items[n - 1])
    }
}

/// The values of the first `n` of `entries` are free of decimal numbers.
pub open spec fn entries_decimal_free(entries: Seq<(Seq<char>, ValueView)>, n: int) -> bool
    decreases entries, n,
{
    if n <= 0 || n > entries.len() {
        true
    } else {
        entries_decimal_free(entries, n - 1) && decimal_free(entries[n - 1].1)
    }
}

/// How many of `len` things are written out when at most `max` are.
pub open spec fn shown(len: nat, max: int) -> int {
    if len > max {
        max
    } else {
        len as int
    }
}

/// The names of the first `n` parameters, with a comma and a space between
/// them.
pub open spec fn parameter_names(parameters: Seq<crate::values::ParameterView>, n: int) -> Seq<
    char,
>
    decreases n,
{
    if n <= 0 {
        Seq::empty()
    } else if n == 1 {
        parameters[0].name
    } else {
        parameter_names(parameters, n - 1) + ", "@ + parameters[n - 1].name
    }
}

/// A text with four spaces put after each line break that more text follows.
pub open spec fn indented(t: Seq<char>) -> Seq<char>
    decreases t.len(),
{
    if t.len() == 0 {
        t
    } else if t[0] == '\n' && t.len() > 1 {
        "\n    "@ + indented(t.drop_first())
    } else {
        seq![t[0]] + indented(t.drop_first())
    }
}

/// One line of the text of an object: the key between quotes, the text of the
/// value, a comma, all of it indented.
pub open spec fn entry_line(key: Seq<char>, value: Seq<char>) -> Seq<char> {
    "    "@ + indented(quoted_of(key) + ": "@ + value + ",\n"@)
}

/// The text of an element of an array: a text stands between quotes.
pub open spec fn item_text(v: ValueView) -> Seq<char>
    decreases v, 1int,
{
    if v is String {
        "\""@ + text_of(v) + "\""@
    } else {
        text_of(v)
    }
}

/// The texts of the first `n` elements, with a comma and a space between
/// them.
pub open spec fn items_text(items: Seq<ValueView>, n: int) -> Seq<char>
    decreases items, n,
{
    if n <= 0 || n > items.len() {
        Seq::empty()
    } else if n == 1 {
        item_text(items[0])
    } else {
        items_text(items, n - 1) + ", "@ + item_text(items[n - 1])
    }
}

/// The lines of the first `n` entries.
pub open spec fn entries_text(entries: Seq<(Seq<char>, ValueView)>, n: int) -> Seq<char>
    decreases entries, n,
{
    if n <= 0 || n > entries.len() {
        Seq::empty()
    } else {
        entries_text(entries, n - 1) + entry_line(entries[n - 1].0, text_of(entries[n - 1].1))
    }
}

/// The text of a value that holds no decimal number where it is written out.
///
/// An array shows its first ten elements and then how many more there are;
/// an object shows its first thirty entries, one to a line, and then how many
/// more there are.
pub open spec fn text_of(v: ValueView) -> Seq<char>
    decreases v, 0int,
{
    match v {
        ValueView::Null => "null"@,
        ValueView::Boolean(b) => if b {
            "true"@
        } else {
            "false"@
        },
        ValueView::Integer(i) => integer_text(i),
        ValueView::Decimal(_) => Seq::empty(),
        ValueView::String(s) => s,
        ValueView::Array(items) => "["@ + items_text(items, shown(items.len(), 10)) + (if items.len()
            > 10 {
            ", ...more "@ + integer_text(items.len() - 10) + " items"@
        } else {
            Seq::empty()
        }) + "]"@,
        ValueView::Object(entries) => if entries.len() == 0 {
            "{}"@
        } else {
            "{\n"@ + entries_text(entries, shown(entries.len(), 30)) + (if entries.len() > 30 {
                entry_line("..."@, "more "@ + integer_text(entries.len() - 30) + " fields"@)
            } else {
                Seq::empty()
            }) + "}"@
        },
        ValueView::Function(f) => "<function "@ + f.name + "("@ + parameter_names(
            f.parameters,
            f.parameters.len() as int,
        ) + ")>"@,
        ValueView::NativeFn(n) => "<native-function "@ + n.name + ">"@,
        ValueView::Class(c) => "<class "@ + c.name + ">"@,
    }
}

/// The decimal numbers that are written out with a value, in the order in
/// which they are written.
pub open spec fn decimals_of(v: ValueView) -> Seq<u64>
    decreases v, 0int,
{
    match v {
        ValueView::Decimal(d) => seq![d],
        ValueView::Array(items) => items_decimals(items, shown(items.len(), 10)),
        ValueView::Object(entries) => entries_decimals(entries, shown(entries.len(), 30)),
        _ => Seq::empty(),
    }
}

/// The decimal numbers that are written out with the first `n` elements.
pub open spec fn items_decimals(items: Seq<ValueView>, n: int) -> Seq<u64>
    decreases items, n,
{
    if n <= 0 || n > items.len() {
        Seq::empty()
    } else {
        items_decimals(items, n - 1) + decimals_of(items[n - 1])
    }
}

/// The decimal numbers that are written out with the first `n` entries.
pub open spec fn entries_decimals(entries: Seq<(Seq<char>, ValueView)>, n: int) -> Seq<u64>
    decreases entries, n,
{
    if n <= 0 || n > entries.len() {
        Seq::empty()
    } else {
        entries_decimals(entries, n - 1) + decimals_of(entries[n - 1].1)
    }
}

/// The text of an element of an array, where `texts` are the texts of its
/// decimal numbers.
pub open spec fn item_written(v: ValueView, texts: Seq<Seq<char>>) -> Seq<char>
    decreases v, 1int,
{
    if v is String {
        "\""@ + written(v, texts) + "\""@
    } else {
        written(v, texts)
    }
}

/// The texts of the first `n` elements, with a comma and a space between
/// them. Each element takes from `texts` the part that belongs to its own
/// decimal numbers.
pub open spec fn items_written(items: Seq<ValueView>, n: int, texts: Seq<Seq<char>>) -> Seq<char>
    decreases items, n,
{
    if n <= 0 || n > items.len() {
        Seq::empty()
    } else {
        let piece = item_written(
            items[n - 1],
            texts.subrange(
                items_decimals(items, n - 1).len() as int,
                items_decimals(items, n).len() as int,
            ),
        );
        if n == 1 {
            piece
        } else {
            items_written(items, n - 1, texts) + ", "@ + piece
        }
    }
}

/// The lines of the first `n` entries. Each value takes from `texts` the
/// part that belongs to its own decimal numbers.
pub open spec fn entries_written(
    entries: Seq<(Seq<char>, ValueView)>,
    n: int,
    texts: Seq<Seq<char>>,
) -> Seq<char>
    decreases entries, n,
{
    if n <= 0 || n > entries.len() {
        Seq::empty()
    } else {
        entries_written(entries, n - 1, texts) + entry_line(
            entries[n - 1].0,
            written(
                entries[n - 1].1,
                texts.subrange(
                    entries_decimals(entries, n - 1).len() as int,
                    entries_decimals(entries, n).len() as int,
                ),
            ),
        )
    }
}

/// The text of a value, where `texts` holds the text of each decimal number
/// that is written out with it, in the order of `decimals_of`. Everything
/// but those texts is as in `text_of`: the brackets, the quotes, what stands
/// between the parts, and the count of what is left out.
pub open spec fn written(v: ValueView, texts: Seq<Seq<char>>) -> Seq<char>
    decreases v, 0int,
{
    match v {
        ValueView::Decimal(_) => if texts.len() > 0 {
            texts[0]
        } else {
            Seq::empty()
        },
        ValueView::Array(items) => "["@ + items_written(items, shown(items.len(), 10), texts) + (
        if items.len() > 10 {
            ", ...more "@ + integer_text(items.len() - 10) + " items"@
        } else {
            Seq::empty()
        }) + "]"@,
        ValueView::Object(entries) => if entries.len() == 0 {
            "{}"@
        } else {
            "{\n"@ + entries_written(entries, shown(entries.len(), 30), texts) + (if entries.len()
                > 30 {
                entry_line("..."@, "more "@ + integer_text(entries.len() - 30) + " fields"@)
            } else {
                Seq::empty()
            }) + "}"@
        },
        _ => text_of(v),
    }
}

/// `t` is a text that the host gives for the decimal number `d`: what a call
/// of `decimal_text` with `d` may return.
pub open spec fn host_writes<H: Host>(d: u64, t: Seq<char>) -> bool {
    exists|asked: &mut H, answer: String|
        call_ensures(H::decimal_text, (asked, d), answer) && answer@ == t
}

/// `texts` holds one text for each of the decimal numbers `decimals`, and
/// each is a text that the host gives for that number.
pub open spec fn host_texts<H: Host>(decimals: Seq<u64>, texts: Seq<Seq<char>>) -> bool {
    &&& texts.len() == decimals.len()
    &&& forall|k: int| 0 <= k < decimals.len() ==> host_writes::<H>(decimals[k], #[trigger] texts[k])
}

/// `r` is the text of `v` with the host `H`: every decimal number in it is
/// written as the host writes that number, and the rest is fixed.
pub open spec fn writes<H: Host>(v: ValueView, r: Seq<char>) -> bool {
    exists|texts: Seq<Seq<char>>|
        #![trigger host_texts::<H>(decimals_of(v), texts)]
        host_texts::<H>(decimals_of(v), texts) && r == written(v, texts)
}

/// A value that is free of decimal numbers has none written out, and its
/// text is `text_of` whatever the texts of decimal numbers are.
pub proof fn lemma_written_without_decimals(v: ValueView, texts: Seq<Seq<char>>)
    requires
        decimal_free(v),
    ensures
        decimals_of(v).len() == 0,
        written(v, texts) == text_of(v),
    decreases v, 0int,
{
    match v {
        ValueView::Array(items) => {
            lemma_items_written_without_decimals(items, shown(items.len(), 10), texts);
        },
        ValueView::Object(entries) => {
            lemma_entries_written_without_decimals(entries, shown(entries.len(), 30), texts);
        },
        _ => {},
    }
}

/// The same of the first `n` elements of an array.
pub proof fn lemma_items_written_without_decimals(
    items: Seq<ValueView>,
    n: int,
    texts: Seq<Seq<char>>,
)
    requires
        0 <= n <= items.len(),
        items_decimal_free(items, n),
    ensures
        items_decimals(items, n).len() == 0,
        items_written(items, n, texts) == items_text(items, n),
    decreases items, n,
{
    if n > 0 {
        let v = items[n - 1];
        let own = texts.subrange(0, 0);
        lemma_items_written_without_decimals(items, n - 1, texts);
        lemma_written_without_decimals(v, own);
        assert(items_decimals(items, n) == items_decimals(items, n - 1) + decimals_of(v));
        assert(item_written(v, own) == item_text(v));
    }
}

/// The same of the first `n` entries of an object.
pub proof fn lemma_entries_written_without_decimals(
    entries: Seq<(Seq<char>, ValueView)>,
    n: int,
    texts: Seq<Seq<char>>,
)
    requires
        0 <= n <= entries.len(),
        entries_decimal_free(entries, n),
    ensures
        entries_decimals(entries, n).len() == 0,
        entries_written(entries, n, texts) == entries_text(entries, n),
    decreases entries, n,
{
    if n > 0 {
        let v = entries[n - 1].1;
        let own = texts.subrange(0, 0);
        lemma_entries_written_without_decimals(entries, n - 1, texts);
        lemma_written_without_decimals(v, own);
        assert(entries_decimals(entries, n) == entries_decimals(entries, n - 1) + decimals_of(v));
    }
}

/// Texts for one list of decimal numbers and texts for another are, one
/// after the other, texts for the two lists joined.
pub proof fn lemma_host_texts_joined<H: Host>(
    first: Seq<u64>,
    second: Seq<u64>,
    a: Seq<Seq<char>>,
    b: Seq<Seq<char>>,
)
    requires
        host_texts::<H>(first, a),
        host_texts::<H>(second, b),
    ensures
        host_texts::<H>(first + second, a + b),
{
    assert forall|k: int| 0 <= k < (first + second).len() implies host_writes::<H>(
        (first + second)[k],
        #[trigger] (a + b)[k],
    ) by {
        if k < first.len() {
            assert((a + b)[k] == a[k]);
        } else {
            assert((a + b)[k] == b[k - first.len()]);
        }
    }
}

/// The first `n` elements are written with the texts of their own decimal
/// numbers: texts that follow those change nothing.
pub proof fn lemma_items_written_with_more(
    items: Seq<ValueView>,
    n: int,
    a: Seq<Seq<char>>,
    b: Seq<Seq<char>>,
)
    requires
        0 <= n <= items.len(),
        items_decimals(items, n).len() <= a.len(),
    ensures
        items_written(items, n, a + b) == items_written(items, n, a),
    decreases n,
{
    if n > 0 {
        let from = items_decimals(items, n - 1).len() as int;
        let to = items_decimals(items, n).len() as int;
        assert((a + b).subrange(from, to) =~= a.subrange(from, to));
        lemma_items_written_with_more(items, n - 1, a, b);
    }
}

/// The first `n` entries are written with the texts of their own decimal
/// numbers: texts that follow those change nothing.
pub proof fn lemma_entries_written_with_more(
    entries: Seq<(Seq<char>, ValueView)>,
    n: int,
    a: Seq<Seq<char>>,
    b: Seq<Seq<char>>,
)
    requires
        0 <= n <= entries.len(),
        entries_decimals(entries, n).len() <= a.len(),
    ensures
        entries_written(entries, n, a + b) == entries_written(entries, n, a),
    decreases n,
{
    if n > 0 {
        let from = entries_decimals(entries, n - 1).len() as int;
        let to = entries_decimals(entries, n).len() as int;
        assert((a + b).subrange(from, to) =~= a.subrange(from, to));
        lemma_entries_written_with_more(entries, n - 1, a, b);
    }
}

/// The text of `true` or of `false`.
pub fn boolean_text(b: bool) -> (r: String)
    ensures
        r@ == if b {
            "true"@
        } else {
            "false"@
        },
{
    if b {
        text("true")
    } else {
        text("false")
    }
}

/// Puts four spaces after each line break that more text follows.
pub fn indent(t: &str) -> (r: String)
    ensures
        r@ == indented(t@),
{
    let n = t.unicode_len();
    let mut out = String::new();
    let mut i: usize = n;
    let line_break = '\n';
    assert(t@.subrange(n as int, n as int) =~= Seq::<char>::empty());
    while i > 0
        invariant
            i <= n,
            n == t@.len(),
            line_break == '\n',
            out@ == indented(t@.subrange(i as int, n as int)),
        decreases i,
    {
        i = i - 1;
        let c = t.get_char(i);
        let ghost rest = t@.subrange(i as int + 1, n as int);
        let ghost here = t@.subrange(i as int, n as int);
        assert(here.drop_first() =~= rest);
        assert(here[0] == c);
        let piece = if c == line_break && i + 1 < n {
            text("\n    ")
        } else {
            crate::text::char_text(c)
        };
        out = joined(piece, out.as_str());
    }
    assert(t@.subrange(0, n as int) =~= t@);
    out
}

/// The line of one entry of an object, from the key and the text of the
/// value.
pub fn entry_line_text(key: &str, value: &str) -> (r: String)
    ensures
        r@ == entry_line(key@, value@),
{
    let mut line = quoted_text(key);
    line = joined(line, ": ");
    line = joined(line, value);
    line = joined(line, ",\n");
    let padded = indent(line.as_str());
    joined(text("    "), padded.as_str())
}

/// The text of a value, as `print` writes it. The host gives the text of
/// each decimal number that is written out, and is asked for nothing else:
/// for a value without one, it stays as it is. Everything around those texts
/// is fixed here.
pub fn stringify<H: Host>(value: &Value, host: &mut H) -> (r: String)
    ensures
        writes::<H>(value@, r@),
        decimal_free(value@) ==> r@ == text_of(value@),
        decimal_free(value@) ==> *final(host) == *old(host),
        value@ is Decimal ==> exists|asked: &mut H, answer: String|
            call_ensures(H::decimal_text, (asked, value@->Decimal_0), answer)
                && mut_ref_current(asked) == *old(host) && mut_ref_future(asked) == *final(host)
                && r@ == answer@,
    decreases value,
{
    proof {
        lemma_value_view(*value);
    }
    let ghost none = Seq::<Seq<char>>::empty();
    match value {
        Value::Null(_) => {
            let r = text("null");
            assert(host_texts::<H>(decimals_of(value@), none));
            r
        },
        Value::Boolean(b) => {
            let r = boolean_text(b.value);
            assert(host_texts::<H>(decimals_of(value@), none));
            r
        },
        Value::Decimal(d) => {
            let r = host.decimal_text(d.bits);
            proof {
                let one = seq![r@];
                assert(host_writes::<H>(d.bits, r@));
                assert(one[0] == r@);
                assert(host_texts::<H>(decimals_of(value@), one));
                assert(r@ == written(value@, one));
            }
            r
        },
        Value::Integer(i) => {
            let r = integer_to_text(i.value);
            assert(host_texts::<H>(decimals_of(value@), none));
            r
        },
        Value::Function(f) => {
            let mut out = text("<function ");
            out = joined(out, f.name.as_str());
            out = joined(out, "(");
            let ghost head = out@;
            let mut i: usize = 0;
            while i < f.parameters.len()
                invariant
                    i <= f.parameters.len(),
                    out@ == head + parameter_names(f@.parameters, i as int),
                decreases f.parameters.len() - i,
            {
                if i > 0 {
                    out = joined(out, ", ");
                }
                out = joined(out, f.parameters[i].name.as_str());
                i = i + 1;
                assert(out@ =~= head + parameter_names(f@.parameters, i as int));
            }
            let r = joined(out, ")>");
            assert(r@ =~= text_of(value@));
            assert(host_texts::<H>(decimals_of(value@), none));
            r
        },
        Value::NativeFn(n) => {
            let mut out = text("<native-function ");
            out = joined(out, n.name.as_str());
            let r = joined(out, ">");
            assert(host_texts::<H>(decimals_of(value@), none));
            r
        },
        Value::String(s) => {
            let r = s.value.clone();
            assert(host_texts::<H>(decimals_of(value@), none));
            r
        },
        Value::Array(a) => {
            let mut out = text("[");
            let len = a.value.len();
            let limit = if len > ARRAY_MAX_ITEMS {
                ARRAY_MAX_ITEMS
            } else {
                len
            };
            let mut i: usize = 0;
            let ghost mut texts = none;
            assert(out@ =~= "["@ + items_written(a@, 0, texts));
            while i < limit
                invariant
                    i <= limit <= a.value.len(),
                    limit == shown(a@.len(), 10),
                    decimal_free(value@) ==> items_decimal_free(a@, limit as int),
                    decimal_free(value@) ==> out@ == "["@ + items_text(a@, i as int),
                    decimal_free(value@) ==> *host == *old(host),
                    host_texts::<H>(items_decimals(a@, i as int), texts),
                    out@ == "["@ + items_written(a@, i as int, texts),
                    value@ == ValueView::Array(a@),
                    *value == Value::Array(*a),
                decreases limit - i,
            {
                if i > 0 {
                    out = joined(out, ", ");
                }
                proof {
                    lemma_items_decimal_free(a@, limit as int, i as int);
                    lemma_value_view(a.value[i as int]);
                }
                let item = stringify(&a.value[i], host);
                let ghost before = texts;
                proof {
                    let v = a@[i as int];
                    let own = choose|own: Seq<Seq<char>>|
                        #![trigger host_texts::<H>(decimals_of(v), own)]
                        host_texts::<H>(decimals_of(v), own) && item@ == written(v, own);
                    texts = before + own;
                    lemma_host_texts_joined::<H>(
                        items_decimals(a@, i as int),
                        decimals_of(v),
                        before,
                        own,
                    );
                    lemma_items_written_with_more(a@, i as int, before, own);
                    assert(texts.subrange(before.len() as int, texts.len() as int) =~= own);
                    assert(item_written(v, own) == if v is String {
                        "\""@ + item@ + "\""@
                    } else {
                        item@
                    });
                }
                match &a.value[i] {
                    Value::String(_) => {
                        out = joined(out, "\"");
                        out = joined(out, item.as_str());
                        out = joined(out, "\"");
                    },
                    _ => {
                        out = joined(out, item.as_str());
                    },
                }
                proof {
                    let v = a@[i as int];
                    assert(item_text(v) == if v is String {
                        "\""@ + text_of(v) + "\""@
                    } else {
                        text_of(v)
                    });
                }
                i = i + 1;
                assert(decimal_free(value@) ==> out@ =~= "["@ + items_text(a@, i as int));
                assert(out@ =~= "["@ + items_written(a@, i as int, texts));
            }
            if len > ARRAY_MAX_ITEMS {
                out = joined(out, ", ...more ");
                out = joined(out, count_to_text(len - ARRAY_MAX_ITEMS).as_str());
                out = joined(out, " items");
            }
            let r = joined(out, "]");
            assert(decimal_free(value@) ==> r@ =~= text_of(value@));
            assert(r@ =~= written(value@, texts));
            assert(host_texts::<H>(decimals_of(value@), texts));
            r
        },
        Value::Object(o) => {
            let len = o.map.len();
            if len == 0 {
                let r = text("{}");
                assert(host_texts::<H>(decimals_of(value@), none));
                    assert(writes::<H>(value@, r@));
                return r;
            }
            let mut out = text("{\n");
            let limit = if len > OBJECT_MAX_ITEMS {
                OBJECT_MAX_ITEMS
            } else {
                len
            };
            let mut i: usize = 0;
            let ghost mut texts = none;
            assert(out@ =~= "{\n"@ + entries_written(o@, 0, texts));
            while i < limit
                invariant
                    i <= limit <= o.map.len(),
                    limit == shown(o@.len(), 30),
                    decimal_free(value@) ==> entries_decimal_free(o@, limit as int),
                    decimal_free(value@) ==> out@ == "{\n"@ + entries_text(o@, i as int),
                    decimal_free(value@) ==> *host == *old(host),
                    host_texts::<H>(entries_decimals(o@, i as int), texts),
                    out@ == "{\n"@ + entries_written(o@, i as int, texts),
                    value@ == ValueView::Object(o@),
                    *value == Value::Object(*o),
                decreases limit - i,
            {
                proof {
                    lemma_entries_decimal_free(o@, limit as int, i as int);
                }
                let item = stringify(&o.map[i].1, host);
                let ghost before = texts;
                proof {
                    let v = o@[i as int].1;
                    let own = choose|own: Seq<Seq<char>>|
                        #![trigger host_texts::<H>(decimals_of(v), own)]
                        host_texts::<H>(decimals_of(v), own) && item@ == written(v, own);
                    texts = before + own;
                    lemma_host_texts_joined::<H>(
                        entries_decimals(o@, i as int),
                        decimals_of(v),
                        before,
                        own,
                    );
                    lemma_entries_written_with_more(o@, i as int, before, own);
                    assert(texts.subrange(before.len() as int, texts.len() as int) =~= own);
                }
                let line = entry_line_text(o.map[i].0.as_str(), item.as_str());
                out = joined(out, line.as_str());
                i = i + 1;
                assert(decimal_free(value@) ==> out@ =~= "{\n"@ + entries_text(o@, i as int));
                assert(out@ =~= "{\n"@ + entries_written(o@, i as int, texts));
            }
            if len > OBJECT_MAX_ITEMS {
                let mut more = text("more ");
                more = joined(more, count_to_text(len - OBJECT_MAX_ITEMS).as_str());
                more = joined(more, " fields");
                let line = entry_line_text("...", more.as_str());
                out = joined(out, line.as_str());
            }
            let r = joined(out, "}");
            assert(decimal_free(value@) ==> r@ =~= text_of(value@));
            assert(r@ =~= written(value@, texts));
            assert(host_texts::<H>(decimals_of(value@), texts));
            r
        },
        Value::Class(c) => {
            proof {
                crate::values::lemma_class_view(*c);
            }
            let mut out = text("<class ");
            out = joined(out, c.name.as_str());
            let r = joined(out, ">");
            assert(host_texts::<H>(decimals_of(value@), none));
            r
        },
    }
}

/// What holds of the first `n` elements holds of each of them.
pub proof fn lemma_items_decimal_free(items: Seq<ValueView>, n: int, i: int)
    requires
        0 <= i < n <= items.len(),
    ensures
        items_decimal_free(items, n) ==> decimal_free(items[i]) && items_decimal_free(items, i),
    decreases n,
{
    if i < n - 1 {
        lemma_items_decimal_free(items, n - 1, i);
    }
}

/// What holds of the first `n` entries holds of each of them.
pub proof fn lemma_entries_decimal_free(entries: Seq<(Seq<char>, ValueView)>, n: int, i: int)
    requires
        0 <= i < n <= entries.len(),
    ensures
        entries_decimal_free(entries, n) ==> decimal_free(entries[i].1) && entries_decimal_free(
            entries,
            i,
        ),
    decreases n,
{
    if i < n - 1 {
        lemma_entries_decimal_free(entries, n - 1, i);
    }
}

} // verus!

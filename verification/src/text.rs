//! What the library needs of the standard library's text functions, each
//! with the contract that the library relies on.

use vstd::prelude::*;

verus! {

/// The upper-case form of a text, as `str::to_uppercase` gives it.
pub uninterp spec fn uppercase_of(s: Seq<char>) -> Seq<char>;

/// The lower-case form of a text, as `str::to_lowercase` gives it.
pub uninterp spec fn lowercase_of(s: Seq<char>) -> Seq<char>;

/// Whether a code point is white space: one of the code points that have
/// the property `White_Space`, which is what `char::is_whitespace` tests.
pub open spec fn is_white_space(c: char) -> bool {
    ||| c == '\u{9}'
    ||| c == '\u{a}'
    ||| c == '\u{b}'
    ||| c == '\u{c}'
    ||| c == '\u{d}'
    ||| c == ' '
    ||| c == '\u{85}'
    ||| c == '\u{a0}'
    ||| c == '\u{1680}'
    ||| c == '\u{2000}'
    ||| c == '\u{2001}'
    ||| c == '\u{2002}'
    ||| c == '\u{2003}'
    ||| c == '\u{2004}'
    ||| c == '\u{2005}'
    ||| c == '\u{2006}'
    ||| c == '\u{2007}'
    ||| c == '\u{2008}'
    ||| c == '\u{2009}'
    ||| c == '\u{200a}'
    ||| c == '\u{2028}'
    ||| c == '\u{2029}'
    ||| c == '\u{202f}'
    ||| c == '\u{205f}'
    ||| c == '\u{3000}'
}

/// A text between quotes with its special characters escaped, as the `Debug`
/// form of `str` gives it.
pub uninterp spec fn quoted_of(s: Seq<char>) -> Seq<char>;

/// The number of white-space code points that `s` begins with.
pub open spec fn leading_white_space(s: Seq<char>) -> nat
    decreases s.len(),
{
    if s.len() > 0 && is_white_space(s[0]) {
        1 + leading_white_space(s.drop_first())
    } else {
        0
    }
}

/// The number of white-space code points that `s` ends with.
pub open spec fn trailing_white_space(s: Seq<char>) -> nat
    decreases s.len(),
{
    if s.len() > 0 && is_white_space(s.last()) {
        1 + trailing_white_space(s.drop_last())
    } else {
        0
    }
}

/// `s` without the white space it begins with.
pub open spec fn trim_start_of(s: Seq<char>) -> Seq<char> {
    s.subrange(leading_white_space(s) as int, s.len() as int)
}

/// `s` without the white space it ends with.
pub open spec fn trim_end_of(s: Seq<char>) -> Seq<char> {
    s.subrange(0, s.len() - trailing_white_space(s))
}

/// `s` without the white space at either end.
pub open spec fn trim_of(s: Seq<char>) -> Seq<char> {
    trim_end_of(trim_start_of(s))
}

/// `s` begins with `p`.
pub open spec fn starts_with(s: Seq<char>, p: Seq<char>) -> bool {
    p.len() <= s.len() && s.subrange(0, p.len() as int) == p
}

/// `s` with every match of `from` replaced by `to`. Matches are taken from the
/// left and do not overlap; the empty text matches before every code point
/// and at the end.
pub open spec fn replace_of(s: Seq<char>, from: Seq<char>, to: Seq<char>) -> Seq<char>
    decreases s.len(),
{
    if from.len() == 0 {
        if s.len() == 0 {
            to
        } else {
            to + seq![s[0]] + replace_of(s.drop_first(), from, to)
        }
    } else if s.len() == 0 {
        s
    } else if starts_with(s, from) {
        to + replace_of(s.subrange(from.len() as int, s.len() as int), from, to)
    } else {
        seq![s[0]] + replace_of(s.drop_first(), from, to)
    }
}

/// The pieces of `s` between the matches of the non-empty text `sep`, where
/// `piece` is what has been read of the current piece.
pub open spec fn pieces_of(s: Seq<char>, sep: Seq<char>, piece: Seq<char>) -> Seq<Seq<char>>
    decreases s.len(),
{
    if s.len() == 0 || sep.len() == 0 {
        seq![piece + s]
    } else if starts_with(s, sep) {
        seq![piece] + pieces_of(s.subrange(sep.len() as int, s.len() as int), sep, Seq::empty())
    } else {
        pieces_of(s.drop_first(), sep, piece.push(s[0]))
    }
}

/// The pieces that `sep` splits `s` into. The empty separator splits between
/// all code points, with an empty piece at either end.
pub open spec fn split_of(s: Seq<char>, sep: Seq<char>) -> Seq<Seq<char>> {
    if sep.len() == 0 {
        seq![Seq::<char>::empty()] + Seq::new(s.len(), |i: int| seq![s[i]]) + seq![
            Seq::<char>::empty(),
        ]
    } else {
        pieces_of(s, sep, Seq::empty())
    }
}

/// The digit `d` as a code point.
pub open spec fn digit_of(d: int) -> char {
    if d == 0 {
        '0'
    } else if d == 1 {
        '1'
    } else if d == 2 {
        '2'
    } else if d == 3 {
        '3'
    } else if d == 4 {
        '4'
    } else if d == 5 {
        '5'
    } else if d == 6 {
        '6'
    } else if d == 7 {
        '7'
    } else if d == 8 {
        '8'
    } else {
        '9'
    }
}

/// A natural number in decimal digits, without leading zeros.
pub open spec fn natural_text(n: nat) -> Seq<char>
    decreases n,
{
    if n < 10 {
        seq![digit_of(n as int)]
    } else {
        natural_text(n / 10).push(digit_of((n % 10) as int))
    }
}

/// An integer in decimal digits, with a minus sign before a negative one.
pub open spec fn integer_text(v: int) -> Seq<char> {
    if v < 0 {
        seq!['-'] + natural_text((-v) as nat)
    } else {
        natural_text(v as nat)
    }
}

/// The views of the texts of a list.
pub open spec fn texts_view(texts: Vec<String>) -> Seq<Seq<char>> {
    Seq::new(texts.len() as nat, |i: int| texts[i]@)
}

/// Calls `char::to_string`. Taken on trust: the text holds the code point
/// and nothing else.
#[verifier::external_body]
pub(crate) fn char_text(c: char) -> (r: String)
    ensures
        r@ == seq![c],
{
    c.to_string()
}

/// Calls `str::to_uppercase`. Taken on trust: the result depends on the text
/// alone. It goes by the name `uppercase_of`; nothing more is claimed of it.
#[verifier::external_body]
pub(crate) fn upper_text(s: &str) -> (r: String)
    ensures
        r@ == uppercase_of(s@),
{
    s.to_uppercase()
}

/// Calls `str::to_lowercase`. Taken on trust: the result depends on the text
/// alone. It goes by the name `lowercase_of`; nothing more is claimed of it.
#[verifier::external_body]
pub(crate) fn lower_text(s: &str) -> (r: String)
    ensures
        r@ == lowercase_of(s@),
{
    s.to_lowercase()
}

/// Calls `str::trim`. Taken on trust: the slice is the text without the
/// white space at either end, and white space is what `char::is_whitespace`
/// holds of: the code points that `is_white_space` lists.
#[verifier::external_body]
pub(crate) fn trim_text<'a>(s: &'a str) -> (r: &'a str)
    ensures
        r@ == trim_of(s@),
{
    s.trim()
}

/// Calls `str::trim_start`. Taken on trust: the slice is the text without
/// the white space at its start, the code points that `is_white_space`
/// lists.
#[verifier::external_body]
pub(crate) fn trim_start_text<'a>(s: &'a str) -> (r: &'a str)
    ensures
        r@ == trim_start_of(s@),
{
    s.trim_start()
}

/// Calls `str::trim_end`. Taken on trust: the slice is the text without the
/// white space at its end, the code points that `is_white_space` lists.
#[verifier::external_body]
pub(crate) fn trim_end_text<'a>(s: &'a str) -> (r: &'a str)
    ensures
        r@ == trim_end_of(s@),
{
    s.trim_end()
}

/// Calls `str::replace` with a text as the pattern. Taken on trust: every
/// match is replaced, the matches being taken from the left without overlap,
/// and the empty pattern matching before every code point and at the end.
#[verifier::external_body]
pub(crate) fn replace_text(s: &str, from: &str, to: &str) -> (r: String)
    ensures
        r@ == replace_of(s@, from@, to@),
{
    s.replace(from, to)
}

/// Calls `str::split` with a text as the pattern and copies the pieces.
/// Taken on trust: the pieces are what lies between the matches, in order;
/// the empty pattern splits between all code points and at either end.
#[verifier::external_body]
pub(crate) fn split_text(s: &str, sep: &str) -> (r: Vec<String>)
    ensures
        texts_view(r) == split_of(s@, sep@),
{
    s.split(sep).map(|x| x.to_string()).collect()
}

/// Formats a text with the `Debug` form of `str`. Taken on trust: the result
/// depends on the text alone. It goes by the name `quoted_of`; nothing more
/// is claimed of it.
#[verifier::external_body]
pub(crate) fn quoted_text(s: &str) -> (r: String)
    ensures
        r@ == quoted_of(s@),
{
    format!("{:?}", s)
}

/// The digit `d` as a code point.
pub fn digit(d: u64) -> (r: char)
    requires
        d < 10,
    ensures
        r == digit_of(d as int),
{
    if d == 0 {
        '0'
    } else if d == 1 {
        '1'
    } else if d == 2 {
        '2'
    } else if d == 3 {
        '3'
    } else if d == 4 {
        '4'
    } else if d == 5 {
        '5'
    } else if d == 6 {
        '6'
    } else if d == 7 {
        '7'
    } else if d == 8 {
        '8'
    } else {
        '9'
    }
}

/// A number in decimal digits.
pub fn identifier_to_text(n: u64) -> (r: String)
    ensures
        r@ == integer_text(n as int),
{
    let mut rest: u64 = n;
    let mut out = String::new();
    assert(natural_text(n as nat) =~= natural_text(rest as nat) + out@);
    loop
        invariant
            natural_text(n as nat) == natural_text(rest as nat) + out@,
        decreases rest,
    {
        let last = char_text(digit(rest % 10));
        let ghost before = out@;
        out = joined(last, out.as_str());
        if rest < 10 {
            assert(natural_text(n as nat) =~= out@);
            return out;
        }
        assert(natural_text(rest as nat) == natural_text((rest / 10) as nat).push(
            digit_of((rest % 10) as int),
        ));
        assert(natural_text(n as nat) =~= natural_text((rest / 10) as nat) + out@);
        rest = rest / 10;
    }
}

/// A count in decimal digits.
pub fn count_to_text(n: usize) -> (r: String)
    ensures
        r@ == integer_text(n as int),
{
    identifier_to_text(n as u64)
}

/// An integer in decimal digits, with a minus sign before a negative one.
pub fn integer_to_text(v: isize) -> (r: String)
    ensures
        r@ == integer_text(v as int),
{
    if v < 0 {
        let magnitude: u64 = ((-(v + 1)) as u64) + 1;
        let r = joined(text("-"), identifier_to_text(magnitude).as_str());
        proof {
            reveal_strlit("-");
            assert("-"@ =~= seq!['-']);
        }
        r
    } else {
        identifier_to_text(v as u64)
    }
}

/// A text with the code points of a literal.
pub fn text(s: &str) -> (r: String)
    ensures
        r@ == s@,
{
    String::from_str(s)
}

/// The concatenation of two texts.
pub fn joined(a: String, b: &str) -> (r: String)
    ensures
        r@ == a@ + b@,
{
    let mut a = a;
    a.append(b);
    a
}

} // verus!

use crate::builtin::stringify::decimal_free;
use crate::builtin::stringify::decimals_of;
use crate::builtin::stringify::host_texts;
use crate::builtin::stringify::items_decimals;
use crate::builtin::stringify::lemma_host_texts_joined;
use crate::builtin::stringify::stringify;
use crate::builtin::stringify::text_of;
use crate::builtin::stringify::written;
use crate::host::Host;
use crate::text::joined;
use crate::values::Value;
use crate::values::values_view;
use crate::values::ValueView;
use vstd::prelude::*;

verus! {

/// The texts of the first `n` arguments, with one space between them.
pub open spec fn line_of(args: Seq<ValueView>, n: int) -> Seq<char>
    decreases n,
{
    if n <= 0 {
        Seq::empty()
    } else if n == 1 {
        text_of(args[0])
    } else {
        line_of(args, n - 1) + " "@ + text_of(args[n - 1])
    }
}

/// The first `n` arguments are free of decimal numbers.
pub open spec fn all_decimal_free(args: Seq<ValueView>, n: int) -> bool
    decreases n,
{
    if n <= 0 {
        true
    } else {
        all_decimal_free(args, n - 1) && decimal_free(args[n - 1])
    }
}

/// The texts of the first `n` arguments, with one space between them, where
/// `texts` holds the text of each decimal number that is written out. Each
/// argument takes from `texts` the part that belongs to its own decimal
/// numbers.
pub open spec fn line_written(args: Seq<ValueView>, n: int, texts: Seq<Seq<char>>) -> Seq<char>
    decreases n,
{
    if n <= 0 || n > args.len() {
        Seq::empty()
    } else {
        let piece = written(
            args[n - 1],
            texts.subrange(
                items_decimals(args, n - 1).len() as int,
                items_decimals(args, n).len() as int,
            ),
        );
        if n == 1 {
            piece
        } else {
            line_written(args, n - 1, texts) + " "@ + piece
        }
    }
}

/// `r` is the line of the arguments with the host `H`: every decimal number
/// in it is written as the host writes that number, and the rest is fixed.
pub open spec fn line_writes<H: Host>(args: Seq<ValueView>, r: Seq<char>) -> bool {
    exists|texts: Seq<Seq<char>>|
        #![trigger host_texts::<H>(items_decimals(args, args.len() as int), texts)]
        host_texts::<H>(items_decimals(args, args.len() as int), texts) && r == line_written(
            args,
            args.len() as int,
            texts,
        )
}

/// The first `n` arguments are written with the texts of their own decimal
/// numbers: texts that follow those change nothing.
pub proof fn lemma_line_written_with_more(
    args: Seq<ValueView>,
    n: int,
    a: Seq<Seq<char>>,
    b: Seq<Seq<char>>,
)
    requires
        0 <= n <= args.len(),
        items_decimals(args, n).len() <= a.len(),
    ensures
        line_written(args, n, a + b) == line_written(args, n, a),
    decreases n,
{
    if n > 0 {
        let from = items_decimals(args, n - 1).len() as int;
        let to = items_decimals(args, n).len() as int;
        assert((a + b).subrange(from, to) =~= a.subrange(from, to));
        lemma_line_written_with_more(args, n - 1, a, b);
    }
}

/// The line that `print` writes for its arguments. The host gives the text
/// of each decimal number that is written out, and is asked for nothing
/// else; without any, it stays as it is.
pub fn print_line<H: Host>(args: &Vec<Value>, host: &mut H) -> (r: String)
    ensures
        line_writes::<H>(values_view(*args), r@),
        asks_nothing(values_view(*args)) ==> r@ == whole_line(values_view(*args)),
        asks_nothing(values_view(*args)) ==> *final(host) == *old(host),
{
    let mut out = String::new();
    let mut i: usize = 0;
    let ghost items = values_view(*args);
    let ghost mut texts = Seq::<Seq<char>>::empty();
    assert(out@ =~= line_of(items, 0));
    while i < args.len()
        invariant
            i <= args.len(),
            items == values_view(*args),
            all_decimal_free(items, i as int) ==> out@ == line_of(items, i as int),
            all_decimal_free(items, i as int) ==> *host == *old(host),
            host_texts::<H>(items_decimals(items, i as int), texts),
            out@ == line_written(items, i as int, texts),
        decreases args.len() - i,
    {
        if i > 0 {
            out = joined(out, " ");
        }
        let item = stringify(&args[i], host);
        let ghost before = texts;
        proof {
            let v = items[i as int];
            let own = choose|own: Seq<Seq<char>>|
                #![trigger host_texts::<H>(decimals_of(v), own)]
                host_texts::<H>(decimals_of(v), own) && item@ == written(v, own);
            texts = before + own;
            lemma_host_texts_joined::<H>(items_decimals(items, i as int), decimals_of(v), before, own);
            lemma_line_written_with_more(items, i as int, before, own);
            assert(texts.subrange(before.len() as int, texts.len() as int) =~= own);
        }
        out = joined(out, item.as_str());
        i = i + 1;
        assert(all_decimal_free(items, i as int) ==> out@ =~= line_of(items, i as int));
        assert(out@ =~= line_written(items, i as int, texts));
    }
    out
}

/// The built-in `print`: answers `null`, and hands the host one line, the
/// line of the arguments. Before that the host is asked for the texts of
/// the decimal numbers in the line, and for nothing else.
pub fn native_print_function<H: Host>(args: Vec<Value>, host: &mut H) -> (r: Value)
    ensures
        r@ == ValueView::Null,
        exists|handed: &mut H, text: String|
            call_ensures(H::print, (handed, text), ()) && mut_ref_future(handed) == *final(host)
                && line_writes::<H>(values_view(args), text@) && (asks_nothing(values_view(args))
                ==> mut_ref_current(handed) == *old(host) && text@ == whole_line(
                values_view(args),
            )),
{
    let line = print_line(&args, host);
    host.print(line);
    Value::null()
}

/// No argument holds a decimal number where it is written out: the host is
/// asked nothing for the line.
pub open spec fn asks_nothing(args: Seq<ValueView>) -> bool {
    all_decimal_free(args, args.len() as int)
}

/// The line of all the arguments.
pub open spec fn whole_line(args: Seq<ValueView>) -> Seq<char> {
    line_of(args, args.len() as int)
}

} // verus!

//! Small operations on text, stated over the characters a string holds.
use vstd::prelude::*;

verus! {

/// Whether `a` comes before `b` when text is ordered character by character,
/// a shorter text before the longer ones it begins.
pub open spec fn lex_less(a: Seq<char>, b: Seq<char>) -> bool
    decreases a.len(),
{
    if b.len() == 0 {
        false
    } else if a.len() == 0 {
        true
    } else if a[0] != b[0] {
        a[0] < b[0]
    } else {
        lex_less(a.drop_first(), b.drop_first())
    }
}

/// No text comes before itself.
pub proof fn lex_less_is_irreflexive(a: Seq<char>)
    ensures
        !lex_less(a, a),
    decreases a.len(),
{
    if a.len() > 0 {
        lex_less_is_irreflexive(a.drop_first());
    }
}

/// The order of texts is transitive.
pub proof fn lex_less_is_transitive(a: Seq<char>, b: Seq<char>, c: Seq<char>)
    requires
        lex_less(a, b),
        lex_less(b, c),
    ensures
        lex_less(a, c),
    decreases a.len(),
{
    if a.len() > 0 && b.len() > 0 && c.len() > 0 && a[0] == b[0] && b[0] == c[0] {
        lex_less_is_transitive(a.drop_first(), b.drop_first(), c.drop_first());
    }
}

/// Of two different texts one comes before the other.
pub proof fn lex_less_is_total(a: Seq<char>, b: Seq<char>)
    ensures
        a == b || lex_less(a, b) || lex_less(b, a),
    decreases a.len(),
{
    if a.len() == 0 || b.len() == 0 {
        if a.len() == b.len() {
            assert(a =~= b);
        }
    } else if a[0] == b[0] {
        lex_less_is_total(a.drop_first(), b.drop_first());
        if a.drop_first() == b.drop_first() {
            assert(a =~= seq![a[0]] + a.drop_first());
            assert(b =~= seq![b[0]] + b.drop_first());
        }
    }
}

/// The characters Unicode gives the property `White_Space`.
pub open spec fn is_white_space(c: char) -> bool {
    ||| '\u{9}' <= c <= '\u{d}'
    ||| c == '\u{20}'
    ||| c == '\u{85}'
    ||| c == '\u{a0}'
    ||| c == '\u{1680}'
    ||| '\u{2000}' <= c <= '\u{200a}'
    ||| c == '\u{2028}'
    ||| c == '\u{2029}'
    ||| c == '\u{202f}'
    ||| c == '\u{205f}'
    ||| c == '\u{3000}'
}

/// Whether a text holds nothing but white space.
pub open spec fn is_blank(text: Seq<char>) -> bool {
    forall|i: int| 0 <= i < text.len() ==> is_white_space(#[trigger] text[i])
}

/// Compares two texts with `==` of `str`: true exactly when they hold the same
/// characters in the same order.
#[verifier::external_body]
pub(crate) fn same(a: &str, b: &str) -> (equal: bool)
    ensures
        equal == (a@ == b@),
{
    a == b
}

/// Compares two texts with `<` of `str`, which orders them by their code
/// points from the front.
#[verifier::external_body]
pub(crate) fn precedes(a: &str, b: &str) -> (less: bool)
    ensures
        less == lex_less(a@, b@),
{
    a < b
}

/// Calls `str::strip_prefix`: the rest of the text where it begins with the
/// prefix, and nothing where it does not.
#[verifier::external_body]
pub(crate) fn strip_prefix<'a>(text: &'a str, prefix: &str) -> (rest: Option<&'a str>)
    ensures
        match rest {
            Some(rest) => text@ == prefix@ + rest@,
            None => !prefix@.is_prefix_of(text@),
        },
{
    text.strip_prefix(prefix)
}

/// How `Debug` of `str` writes a text: in double quotes, with what needs it escaped.
pub uninterp spec fn quoted(text: Seq<char>) -> Seq<char>;

/// Writes a text with `Debug` of `str`. The escapes are std's own and are named by
/// [`quoted`] rather than spelled out.
#[verifier::external_body]
pub(crate) fn quote(text: &str) -> (written: String)
    ensures
        written@ == quoted(text@),
{
    format!("{:?}", text)
}

/// Whether `inner` stands in `text` from `start` on with only white space around it.
pub open spec fn blank_around(text: Seq<char>, start: int, inner: Seq<char>) -> bool {
    &&& 0 <= start <= text.len() - inner.len()
    &&& inner == text.subrange(start, start + inner.len())
    &&& is_blank(text.subrange(0, start))
    &&& is_blank(text.subrange(start + inner.len(), text.len() as int))
}

/// Calls `str::trim`: the text without the white space at its two ends.
#[verifier::external_body]
pub(crate) fn trim(text: &str) -> (inner: &str)
    ensures
        exists|start: int| #[trigger] blank_around(text@, start, inner@),
        inner@.len() > 0 ==> !is_white_space(inner@[0]) && !is_white_space(inner@.last()),
{
    text.trim()
}

/// Whether a text holds nothing but white space.
pub(crate) fn blank(text: &str) -> (r: bool)
    ensures
        r == is_blank(text@),
{
    let inner = trim(text);
    let r = inner.is_empty();
    proof {
        let start = choose|start: int| #[trigger] blank_around(text@, start, inner@);
        if r {
            assert forall|i: int| 0 <= i < text@.len() implies is_white_space(
                #[trigger] text@[i],
            ) by {
                if i < start {
                    assert(text@[i] == text@.subrange(0, start)[i]);
                } else {
                    assert(text@[i] == text@.subrange(start, text@.len() as int)[i - start]);
                }
            }
        } else {
            assert(inner@[0] == text@[start]);
        }
    }
    r
}

/// The decimal digit that stands for a number below ten.
pub open spec fn digit(n: nat) -> char {
    if n == 0 {
        '0'
    } else if n == 1 {
        '1'
    } else if n == 2 {
        '2'
    } else if n == 3 {
        '3'
    } else if n == 4 {
        '4'
    } else if n == 5 {
        '5'
    } else if n == 6 {
        '6'
    } else if n == 7 {
        '7'
    } else if n == 8 {
        '8'
    } else {
        '9'
    }
}

/// A number written in decimal, without leading zeros.
pub open spec fn decimal(n: nat) -> Seq<char>
    decreases n,
{
    if n < 10 {
        seq![digit(n)]
    } else {
        decimal(n / 10).push(digit(n % 10))
    }
}

fn digit_text(n: u64) -> (text: &'static str)
    requires
        n < 10,
    ensures
        text@ == seq![digit(n as nat)],
{
    proof {
        reveal_strlit("0");
        reveal_strlit("1");
        reveal_strlit("2");
        reveal_strlit("3");
        reveal_strlit("4");
        reveal_strlit("5");
        reveal_strlit("6");
        reveal_strlit("7");
        reveal_strlit("8");
        reveal_strlit("9");
    }
    if n == 0 {
        "0"
    } else if n == 1 {
        "1"
    } else if n == 2 {
        "2"
    } else if n == 3 {
        "3"
    } else if n == 4 {
        "4"
    } else if n == 5 {
        "5"
    } else if n == 6 {
        "6"
    } else if n == 7 {
        "7"
    } else if n == 8 {
        "8"
    } else {
        "9"
    }
}

/// An integer written in decimal, with a sign below zero.
pub open spec fn signed_decimal(n: int) -> Seq<char> {
    if n < 0 {
        "-"@ + decimal((-n) as nat)
    } else {
        decimal(n as nat)
    }
}

/// Appends a number in decimal.
pub(crate) fn append_decimal(out: &mut String, n: u64)
    ensures
        final(out)@ == old(out)@ + decimal(n as nat),
    decreases n,
{
    if n >= 10 {
        append_decimal(out, n / 10);
    }
    out.append(digit_text(n % 10));
}

/// Appends an integer in decimal, with a sign below zero.
pub(crate) fn append_signed_decimal(out: &mut String, n: i64)
    ensures
        final(out)@ == old(out)@ + signed_decimal(n as int),
{
    if n < 0 {
        out.append("-");
        append_decimal(out, (-(n as i128)) as u64);
    } else {
        append_decimal(out, n as u64);
    }
}

} // verus!

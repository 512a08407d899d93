//! Character-level helpers on strings, stated over their views.

use vstd::prelude::*;
use vstd::std_specs::iter::IteratorSpec;

verus! {

/// The characters of `s`, in order.
pub fn chars_of(s: &str) -> (out: Vec<char>)
    ensures
        out@ == s@,
{
    let mut out: Vec<char> = Vec::new();
    let mut it = s.chars();
    loop
        invariant
            it.obeys_prophetic_iter_laws(),
            it.decrease() is Some,
            out@ + it.remaining() == s@,
        ensures
            out@ == s@,
        decreases it.decrease()->0,
    {
        match it.next() {
            Some(c) => {
                proof {
                    let before = out@;
                    assert(before.push(c) + it.remaining() =~= s@);
                }
                out.push(c);
            },
            None => {
                break;
            },
        }
    }
    out
}

/// Whether `c` has the Unicode property White_Space.
pub open spec fn is_whitespace(c: char) -> bool {
    ||| '\u{9}' <= c <= '\u{D}'
    ||| c == ' '
    ||| c == '\u{85}'
    ||| c == '\u{A0}'
    ||| c == '\u{1680}'
    ||| '\u{2000}' <= c <= '\u{200A}'
    ||| c == '\u{2028}'
    ||| c == '\u{2029}'
    ||| c == '\u{202F}'
    ||| c == '\u{205F}'
    ||| c == '\u{3000}'
}

/// The least index at or after `from` that holds no whitespace, or the
/// length of `s` where there is none.
pub open spec fn skip_whitespace(s: Seq<char>, from: int) -> int
    decreases s.len() - from,
{
    if 0 <= from < s.len() && is_whitespace(s[from]) {
        skip_whitespace(s, from + 1)
    } else {
        from
    }
}

/// The least end `e` in `lo..=hi` such that `s[e..hi]` is all whitespace.
pub open spec fn drop_whitespace(s: Seq<char>, lo: int, hi: int) -> int
    decreases hi - lo,
{
    if lo < hi <= s.len() && is_whitespace(s[hi - 1]) {
        drop_whitespace(s, lo, hi - 1)
    } else {
        hi
    }
}

/// `s` without its leading and trailing whitespace.
pub open spec fn trimmed(s: Seq<char>) -> Seq<char> {
    let start = skip_whitespace(s, 0);
    s.subrange(start, drop_whitespace(s, start, s.len() as int))
}

/// Executable test for [`is_whitespace`].
pub fn char_is_whitespace(c: char) -> (b: bool)
    ensures
        b == is_whitespace(c),
{
    ('\u{9}' <= c && c <= '\u{D}') || c == ' ' || c == '\u{85}' || c == '\u{A0}' || c
        == '\u{1680}' || ('\u{2000}' <= c && c <= '\u{200A}') || c == '\u{2028}' || c
        == '\u{2029}' || c == '\u{202F}' || c == '\u{205F}' || c == '\u{3000}'
}

/// The bounds of the trimmed part stay inside the text and in order.
pub proof fn lemma_trim_bounds(s: Seq<char>, lo: int, hi: int)
    requires
        0 <= lo <= hi <= s.len(),
    ensures
        lo <= skip_whitespace(s, lo) <= s.len(),
        lo <= drop_whitespace(s, lo, hi) <= hi,
    decreases s.len() - lo, hi - lo,
{
    if lo < s.len() && is_whitespace(s[lo]) {
        lemma_trim_bounds(s, lo + 1, s.len() as int);
    }
    if lo < hi && is_whitespace(s[hi - 1]) {
        lemma_trim_bounds(s, lo, hi - 1);
    }
}

/// Everything from `lo` up to the first character that is no whitespace
/// is whitespace, and so is everything after the last such character.
pub proof fn lemma_trim_skips_whitespace_only(s: Seq<char>, lo: int, hi: int)
    requires
        0 <= lo <= hi <= s.len(),
    ensures
        forall|i: int| lo <= i < skip_whitespace(s, lo) ==> is_whitespace(#[trigger] s[i]),
        skip_whitespace(s, lo) < s.len() ==> !is_whitespace(s[skip_whitespace(s, lo)]),
        forall|i: int| drop_whitespace(s, lo, hi) <= i < hi ==> is_whitespace(#[trigger] s[i]),
        lo < drop_whitespace(s, lo, hi) ==> !is_whitespace(s[drop_whitespace(s, lo, hi) - 1]),
    decreases s.len() - lo, hi - lo,
{
    if lo < s.len() && is_whitespace(s[lo]) {
        lemma_trim_skips_whitespace_only(s, lo + 1, s.len() as int);
    }
    if lo < hi && is_whitespace(s[hi - 1]) {
        lemma_trim_skips_whitespace_only(s, lo, hi - 1);
    }
}

/// What trimming gives: a part of the text that neither begins nor ends
/// with whitespace, with nothing but whitespace before and after it.
pub proof fn law_trimmed_is_tight(s: Seq<char>)
    ensures
        exists|start: int, end: int|
            0 <= start <= end <= s.len() && #[trigger] s.subrange(start, end) == trimmed(s) && (
            forall|i: int| 0 <= i < start ==> is_whitespace(#[trigger] s[i])) && (forall|i: int|
                end <= i < s.len() ==> is_whitespace(#[trigger] s[i])),
        trimmed(s).len() > 0 ==> !is_whitespace(trimmed(s).first()) && !is_whitespace(
            trimmed(s).last(),
        ),
{
    let start = skip_whitespace(s, 0);
    lemma_trim_bounds(s, 0, s.len() as int);
    lemma_trim_skips_whitespace_only(s, 0, s.len() as int);
    let end = drop_whitespace(s, start, s.len() as int);
    lemma_trim_bounds(s, start, s.len() as int);
    lemma_trim_skips_whitespace_only(s, start, s.len() as int);
    assert(s.subrange(start, end) == trimmed(s));
}

/// `s` without its leading and trailing whitespace.
pub fn trim(s: &str) -> (out: &str)
    ensures
        out@ == trimmed(s@),
{
    let chars = chars_of(s);
    let n: usize = chars.len();
    let mut start: usize = 0;
    while start < n && char_is_whitespace(chars[start])
        invariant
            chars@ == s@,
            n == chars@.len(),
            start <= n,
            skip_whitespace(s@, 0) == skip_whitespace(s@, start as int),
        decreases n - start,
    {
        start = start + 1;
    }
    let mut end: usize = n;
    while start < end && char_is_whitespace(chars[end - 1])
        invariant
            chars@ == s@,
            n == chars@.len(),
            start <= end <= n,
            drop_whitespace(s@, start as int, n as int) == drop_whitespace(
                s@,
                start as int,
                end as int,
            ),
        decreases end - start,
    {
        end = end - 1;
    }
    s.substring_char(start, end)
}

/// Whether the first `len` characters of `prefix` open `s`.
pub fn opens_with(s: &Vec<char>, prefix: &Vec<char>, len: usize) -> (b: bool)
    requires
        len <= prefix@.len(),
    ensures
        b == prefix@.take(len as int).is_prefix_of(s@),
{
    if len > s.len() {
        return false;
    }
    let mut i: usize = 0;
    while i < len
        invariant
            i <= len <= s@.len(),
            len <= prefix@.len(),
            forall|j: int| 0 <= j < i ==> s@[j] == prefix@[j],
        decreases len - i,
    {
        if s[i] != prefix[i] {
            proof {
                let cut = s@.subrange(0, len as int);
                assert(cut[i as int] != prefix@.take(len as int)[i as int]);
            }
            return false;
        }
        i = i + 1;
    }
    proof {
        assert(prefix@.take(len as int) =~= s@.subrange(0, len as int));
    }
    true
}

/// Whether two character vectors hold the same text.
pub fn same_chars(a: &Vec<char>, b: &Vec<char>) -> (eq: bool)
    ensures
        eq == (a@ == b@),
{
    if a.len() != b.len() {
        return false;
    }
    let mut i: usize = 0;
    while i < a.len()
        invariant
            i <= a@.len(),
            a@.len() == b@.len(),
            forall|j: int| 0 <= j < i ==> a@[j] == b@[j],
        decreases a@.len() - i,
    {
        if a[i] != b[i] {
            return false;
        }
        i = i + 1;
    }
    proof {
        assert(a@ =~= b@);
    }
    true
}

/// Whether two texts are the same.
pub fn same_text_chars(a: &str, b: &str) -> (eq: bool)
    ensures
        eq == (a@ == b@),
{
    let left = chars_of(a);
    let right = chars_of(b);
    same_chars(&left, &right)
}

/// Whether `s` begins with `prefix`.
pub fn starts_with(s: &str, prefix: &str) -> (b: bool)
    ensures
        b == prefix@.is_prefix_of(s@),
{
    let text = chars_of(s);
    let head = chars_of(prefix);
    proof {
        assert(head@.take(head@.len() as int) =~= head@);
    }
    opens_with(&text, &head, head.len())
}

/// The text of `a` followed by that of `b`.
pub fn join2(a: &str, b: &str) -> (out: String)
    ensures
        out@ == a@ + b@,
{
    let mut out = String::from_str(a);
    out.append(b);
    out
}

/// The texts of `a`, `b` and `c`, one after the other.
pub fn join3(a: &str, b: &str, c: &str) -> (out: String)
    ensures
        out@ == a@ + b@ + c@,
{
    let mut out = String::from_str(a);
    out.append(b);
    out.append(c);
    out
}

/// Whether two optional texts are both absent or hold the same text.
pub fn same_optional(a: &Option<String>, b: &Option<String>) -> (eq: bool)
    ensures
        eq == (a.deep_view() == b.deep_view()),
{
    match (a, b) {
        (Some(x), Some(y)) => *x == *y,
        (None, None) => true,
        _ => false,
    }
}

/// A copy of an optional text.
pub fn clone_optional(a: &Option<String>) -> (out: Option<String>)
    ensures
        out.deep_view() == a.deep_view(),
{
    match a {
        Some(x) => Some(x.clone()),
        None => None,
    }
}

/// A copy of a list of texts.
pub fn clone_texts(list: &Vec<String>) -> (copy: Vec<String>)
    ensures
        copy.deep_view() == list.deep_view(),
{
    let mut copy: Vec<String> = Vec::new();
    let mut i: usize = 0;
    while i < list.len()
        invariant
            i <= list@.len(),
            copy@.len() == i,
            forall|j: int| 0 <= j < i ==> copy@[j]@ == list@[j]@,
        decreases list@.len() - i,
    {
        copy.push(list[i].clone());
        i = i + 1;
    }
    proof {
        assert(copy.deep_view() =~= list.deep_view());
    }
    copy
}

/// The character of a decimal digit.
pub open spec fn digit_char(d: nat) -> char {
    if d == 0 {
        '0'
    } else if d == 1 {
        '1'
    } else if d == 2 {
        '2'
    } else if d == 3 {
        '3'
    } else if d == 4 {
        '4'
    } else if d == 5 {
        '5'
    } else if d == 6 {
        '6'
    } else if d == 7 {
        '7'
    } else if d == 8 {
        '8'
    } else {
        '9'
    }
}

/// A number written in decimal, without leading zeros.
pub open spec fn decimal_spec(n: nat) -> Seq<char>
    decreases n,
{
    if n < 10 {
        seq![digit_char(n)]
    } else {
        decimal_spec(n / 10).push(digit_char(n % 10))
    }
}

/// The text of one decimal digit.
pub fn digit_text(d: u64) -> (out: &'static str)
    requires
        d < 10,
    ensures
        out@ == seq![digit_char(d as nat)],
{
    proof {
        reveal_strlit("0");
        reveal_strlit("1");
        reveal_strlit("2");
        reveal_strlit("3");
        reveal_strlit("4");
        reveal_strlit("5");
        reveal_strlit("6");
        reveal_strlit("7");
        reveal_strlit("8");
        reveal_strlit("9");
    }
    let out = if d == 0 {
        "0"
    } else if d == 1 {
        "1"
    } else if d == 2 {
        "2"
    } else if d == 3 {
        "3"
    } else if d == 4 {
        "4"
    } else if d == 5 {
        "5"
    } else if d == 6 {
        "6"
    } else if d == 7 {
        "7"
    } else if d == 8 {
        "8"
    } else {
        "9"
    };
    proof {
        assert(out@ =~= seq![digit_char(d as nat)]);
    }
    out
}

/// Writes a number in decimal.
pub fn decimal(n: u64) -> (out: String)
    ensures
        out@ == decimal_spec(n as nat),
    decreases n,
{
    if n < 10 {
        String::from_str(digit_text(n))
    } else {
        let mut out = decimal(n / 10);
        out.append(digit_text(n % 10));
        proof {
            assert(out@ =~= decimal_spec((n / 10) as nat).push(digit_char((n % 10) as nat)));
        }
        out
    }
}

} // verus!

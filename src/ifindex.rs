use vstd::prelude::*;
use vstd::std_specs::iter::IteratorSpec;
use vstd::string::{axiom_spec_iter, next_postcondition};
use crate::error::{DnsError, DnsErrorView};

verus! {

/// Characters with the Unicode `White_Space` property.
pub open spec fn is_space(c: char) -> bool {
    ('\u{9}' <= c && c <= '\u{d}') || c == ' ' || c == '\u{85}' || c == '\u{a0}'
        || c == '\u{1680}' || ('\u{2000}' <= c && c <= '\u{200a}') || c == '\u{2028}'
        || c == '\u{2029}' || c == '\u{202f}' || c == '\u{205f}' || c == '\u{3000}'
}

/// The first position at or after `i` that holds no whitespace (or the length).
pub open spec fn skip_space(s: Seq<char>, i: int) -> int
    decreases s.len() - i,
{
    if 0 <= i < s.len() && is_space(s[i]) {
        skip_space(s, i + 1)
    } else {
        i
    }
}

/// The end of `s[lo..j]` once trailing whitespace is dropped.
pub open spec fn drop_space(s: Seq<char>, lo: int, j: int) -> int
    decreases j - lo,
{
    if lo < j <= s.len() && is_space(s[j - 1]) {
        drop_space(s, lo, j - 1)
    } else {
        j
    }
}

/// `s` without leading and trailing whitespace.
pub open spec fn trimmed(s: Seq<char>) -> Seq<char> {
    let a = skip_space(s, 0);
    s.subrange(a, drop_space(s, a, s.len() as int))
}

pub open spec fn is_digit(c: char) -> bool {
    '0' <= c && c <= '9'
}

pub open spec fn all_digits(d: Seq<char>) -> bool {
    forall|i: int| 0 <= i < d.len() ==> is_digit(#[trigger] d[i])
}

/// The value of a string of decimal digits.
pub open spec fn digits_value(d: Seq<char>) -> int
    decreases d.len(),
{
    if d.len() == 0 {
        0
    } else {
        digits_value(d.drop_last()) * 10 + (d.last() as int - '0' as int)
    }
}

/// A decimal `i32` as std reads one: an optional sign, then one or more ASCII
/// digits, and a value in range.
pub open spec fn decimal_i32(s: Seq<char>) -> Option<i32> {
    let neg = s.len() > 0 && s[0] == '-';
    let d = if s.len() > 0 && (s[0] == '-' || s[0] == '+') { s.drop_first() } else { s };
    let v = if neg { -digits_value(d) } else { digits_value(d) };
    if d.len() > 0 && all_digits(d) && i32::MIN <= v <= i32::MAX {
        Some(v as i32)
    } else {
        None
    }
}

/// The detail given when an interface index is not an integer.
pub open spec fn invalid_index_detail() -> Seq<char> {
    "Invalid ifindex value"@
}

/// What reading the index file `content` of interface `name` gives.
pub open spec fn index_result(name: Seq<char>, content: Seq<char>) -> Result<i32, DnsErrorView> {
    match decimal_i32(trimmed(content)) {
        Some(i) => Ok(i),
        None => Err(DnsErrorView::InterfaceIndex(name, invalid_index_detail())),
    }
}

proof fn lemma_digits_nonneg(d: Seq<char>)
    requires
        all_digits(d),
    ensures
        digits_value(d) >= 0,
    decreases d.len(),
{
    if d.len() > 0 {
        let p = d.drop_last();
        assert(all_digits(p)) by {
            assert forall|i: int| 0 <= i < p.len() implies is_digit(#[trigger] p[i]) by {
                assert(p[i] == d[i]);
            }
        }
        lemma_digits_nonneg(p);
        assert(is_digit(d[d.len() - 1]));
    }
}

proof fn lemma_digits_grow(d: Seq<char>, k: int)
    requires
        0 <= k <= d.len(),
        all_digits(d),
    ensures
        digits_value(d) >= digits_value(d.take(k)),
        digits_value(d.take(k)) >= 0,
    decreases d.len(),
{
    if d.len() == k {
        assert(d.take(k) =~= d);
        lemma_digits_nonneg(d);
    } else {
        let p = d.drop_last();
        assert(all_digits(p)) by {
            assert forall|i: int| 0 <= i < p.len() implies is_digit(#[trigger] p[i]) by {
                assert(p[i] == d[i]);
            }
        }
        lemma_digits_grow(p, k);
        assert(p.take(k) =~= d.take(k));
        assert(is_digit(d[d.len() - 1]));
    }
}

fn chars_of(s: &str) -> (r: Vec<char>)
    ensures
        r@ == s@,
{
    broadcast use axiom_spec_iter, next_postcondition;
    let mut it = s.chars();
    let mut r: Vec<char> = Vec::new();
    loop
        invariant
            r@ + it.remaining() == s@,
            it.decrease() is Some,
        ensures
            r@ == s@,
        decreases it.decrease()->0,
    {
        match it.next() {
            Some(c) => {
                r.push(c);
            },
            None => {
                assert(r@ + it.remaining() =~= r@);
                break;
            },
        }
    }
    r
}

/// Reads a decimal `i32` from `d[lo..hi]`.
fn read_decimal(d: &Vec<char>, lo: usize, hi: usize) -> (r: Option<i32>)
    requires
        lo <= hi <= d@.len(),
    ensures
        r == decimal_i32(d@.subrange(lo as int, hi as int)),
{
    let ghost s = d@.subrange(lo as int, hi as int);
    let mut neg = false;
    let mut start = lo;
    if lo < hi && (d[lo] == '-' || d[lo] == '+') {
        neg = d[lo] == '-';
        start = lo + 1;
    }
    assert(neg == (s.len() > 0 && s[0] == '-'));
    let ghost digits = d@.subrange(start as int, hi as int);
    assert(digits =~= if s.len() > 0 && (s[0] == '-' || s[0] == '+') { s.drop_first() } else { s });
    if start == hi {
        return None;
    }
    let limit: i64 = if neg { 2147483648 } else { 2147483647 };
    let mut acc: i64 = 0;
    let mut i = start;
    while i < hi
        invariant
            start <= i <= hi <= d@.len(),
            digits == d@.subrange(start as int, hi as int),
            s == d@.subrange(lo as int, hi as int),
            neg == (s.len() > 0 && s[0] == '-'),
            digits == (if s.len() > 0 && (s[0] == '-' || s[0] == '+') { s.drop_first() } else { s }),
            digits.len() > 0,
            0 <= acc <= limit,
            limit == (if neg { 2147483648i64 } else { 2147483647i64 }),
            all_digits(digits.take(i - start)),
            acc == digits_value(digits.take(i - start)),
        decreases hi - i,
    {
        let c = d[i];
        if !('0' <= c && c <= '9') {
            assert(digits[i - start] == c);
            return None;
        }
        let ghost pre = digits.take(i - start);
        let ghost next = digits.take(i - start + 1);
        assert(next.drop_last() =~= pre);
        assert(next.last() == c);
        acc = acc * 10 + (c as i64 - '0' as i64);
        i = i + 1;
        assert(all_digits(next)) by {
            assert forall|j: int| 0 <= j < next.len() implies is_digit(#[trigger] next[j]) by {
                if j < pre.len() {
                    assert(next[j] == pre[j]);
                }
            }
        }
        if acc > limit {
            proof {
                if all_digits(digits) {
                    lemma_digits_grow(digits, i - start);
                }
            }
            return None;
        }
    }
    assert(digits.take(hi - start) =~= digits);
    if neg {
        Some((-acc) as i32)
    } else {
        Some(acc as i32)
    }
}

/// The index of interface `name`, read from the text of its index file: the
/// text without surrounding whitespace, as a decimal `i32`.
pub fn parse_ifindex(name: &str, content: &str) -> (r: Result<i32, DnsError>)
    ensures
        match (r, index_result(name@, content@)) {
            (Ok(i), Ok(j)) => i == j,
            (Err(e), Err(f)) => e@ == f,
            _ => false,
        },
{
    let d = chars_of(content);
    let n = d.len();
    let mut a: usize = 0;
    while a < n && is_space_char(d[a])
        invariant
            a <= n == d@.len(),
            skip_space(d@, a as int) == skip_space(d@, 0),
        decreases n - a,
    {
        a = a + 1;
    }
    let mut b: usize = n;
    while b > a && is_space_char(d[b - 1])
        invariant
            a <= b <= n == d@.len(),
            a == skip_space(d@, 0),
            drop_space(d@, a as int, b as int) == drop_space(d@, a as int, n as int),
        decreases b - a,
    {
        b = b - 1;
    }
    match read_decimal(&d, a, b) {
        Some(i) => Ok(i),
        None => Err(DnsError::InterfaceIndex(name.to_owned(), "Invalid ifindex value".to_owned())),
    }
}

fn is_space_char(c: char) -> (r: bool)
    ensures
        r == is_space(c),
{
    ('\u{9}' <= c && c <= '\u{d}') || c == ' ' || c == '\u{85}' || c == '\u{a0}'
        || c == '\u{1680}' || ('\u{2000}' <= c && c <= '\u{200a}') || c == '\u{2028}'
        || c == '\u{2029}' || c == '\u{202f}' || c == '\u{205f}' || c == '\u{3000}'
}

} // verus!

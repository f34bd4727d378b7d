//! What the pointer query prints: two integers separated by a comma.
use vstd::prelude::*;
use crate::text::{chars_of, is_space, is_space_char};

verus! {

/// `f` without its leading and trailing whitespace.
pub open spec fn trimmed(f: Seq<char>) -> Seq<char>
    decreases f.len(),
{
    if f.len() > 0 && is_space(f[0]) {
        trimmed(f.drop_first())
    } else if f.len() > 0 && is_space(f.last()) {
        trimmed(f.drop_last())
    } else {
        f
    }
}

/// An ASCII decimal digit.
pub open spec fn is_digit(c: char) -> bool {
    '0' <= c && c <= '9'
}

/// A non-empty run of decimal digits.
pub open spec fn all_digits(d: Seq<char>) -> bool {
    d.len() > 0 && forall|i: int| 0 <= i < d.len() ==> is_digit(#[trigger] d[i])
}

/// The value of a run of decimal digits.
pub open spec fn digits_value(d: Seq<char>) -> int
    decreases d.len(),
{
    if d.len() == 0 {
        0
    } else {
        digits_value(d.drop_last()) * 10 + (d.last() as int - 48)
    }
}

/// The integer that a field spells: digits, with an optional leading `-`.
pub open spec fn integer_of(t: Seq<char>) -> Option<int> {
    if t.len() > 0 && t[0] == '-' {
        if all_digits(t.drop_first()) {
            Some(-digits_value(t.drop_first()))
        } else {
            None
        }
    } else if all_digits(t) {
        Some(digits_value(t))
    } else {
        None
    }
}

/// A coordinate that the parser accepts: its magnitude fits in an `i64`.
pub open spec fn fits(v: int) -> bool {
    -(i64::MAX as int) <= v <= i64::MAX
}

/// The coordinate that a field holds, surrounding whitespace allowed.
pub open spec fn field_value(f: Seq<char>) -> Option<i64> {
    match integer_of(trimmed(f)) {
        Some(v) => if fits(v) {
            Some(v as i64)
        } else {
            None
        },
        None => None,
    }
}

/// The position of the first comma at or after `i`, or the length.
pub open spec fn comma_at(s: Seq<char>, i: int) -> int
    decreases s.len() - i,
{
    if i >= s.len() {
        s.len() as int
    } else if s[i] == ',' {
        i
    } else {
        comma_at(s, i + 1)
    }
}

/// The pointer position that the query printed, if it printed one.
pub open spec fn pointer_of(s: Seq<char>) -> Option<(i64, i64)> {
    let k = comma_at(s, 0);
    if k >= s.len() {
        None
    } else {
        match (field_value(s.take(k)), field_value(s.skip(k + 1))) {
            (Some(x), Some(y)) => Some((x, y)),
            _ => None,
        }
    }
}

proof fn lemma_digits_value_grows(d: Seq<char>, i: int)
    requires
        0 <= i <= d.len(),
        forall|j: int| 0 <= j < d.len() ==> is_digit(#[trigger] d[j]),
    ensures
        0 <= digits_value(d.take(i)) <= digits_value(d),
    decreases d.len(),
{
    if d.len() > 0 {
        let p = d.drop_last();
        assert forall|j: int| 0 <= j < p.len() implies is_digit(#[trigger] p[j]) by {
            assert(p[j] == d[j]);
        }
        if i < d.len() {
            lemma_digits_value_grows(p, i);
            assert(p.take(i) =~= d.take(i));
        } else {
            lemma_digits_value_grows(p, p.len() as int);
            assert(p.take(p.len() as int) =~= p);
            assert(d.take(i) =~= d);
        }
        assert(is_digit(d[d.len() - 1]));
    }
}

/// The value of the digits of `v` in `[lo, hi)`, where they are all digits
/// and their value fits in an `i64`.
fn digits_in(v: &Vec<char>, lo: usize, hi: usize) -> (r: Option<i64>)
    requires
        lo <= hi <= v.len(),
    ensures
        ({
            let d = v@.subrange(lo as int, hi as int);
            match r {
                Some(n) => all_digits(d) && n == digits_value(d) && 0 <= n,
                None => !all_digits(d) || digits_value(d) > i64::MAX,
            }
        }),
{
    let ghost d = v@.subrange(lo as int, hi as int);
    if lo == hi {
        return None;
    }
    let mut acc: i64 = 0;
    let mut i: usize = lo;
    while i < hi
        invariant
            lo <= i <= hi <= v.len(),
            d == v@.subrange(lo as int, hi as int),
            forall|j: int| lo <= j < i ==> is_digit(#[trigger] v@[j]),
            acc == digits_value(v@.subrange(lo as int, i as int)),
            0 <= acc,
        decreases hi - i,
    {
        let c = v[i];
        if !('0' <= c && c <= '9') {
            assert(d[i - lo] == c);
            return None;
        }
        let dg: i64 = (c as u32 - 48) as i64;
        let ghost next = v@.subrange(lo as int, i + 1);
        assert(next.drop_last() =~= v@.subrange(lo as int, i as int));
        assert(next.last() == c);
        if acc > (i64::MAX - dg) / 10 {
            proof {
                assert(acc * 10 + dg > i64::MAX) by (nonlinear_arith)
                    requires
                        acc > (i64::MAX - dg) / 10,
                        0 <= dg <= 9,
                ;
                if all_digits(d) {
                    lemma_digits_value_grows(d, i + 1 - lo);
                    assert(d.take(i + 1 - lo) =~= next);
                }
            }
            return None;
        }
        proof {
            assert(acc * 10 + dg <= i64::MAX) by (nonlinear_arith)
                requires
                    acc <= (i64::MAX - dg) / 10,
                    0 <= dg <= 9,
            ;
        }
        acc = acc * 10 + dg;
        i = i + 1;
    }
    assert(v@.subrange(lo as int, hi as int) =~= d);
    Some(acc)
}

} // verus!

verus! {

/// The bounds of `v[lo..hi]` without its surrounding whitespace.
fn trim_range(v: &Vec<char>, lo: usize, hi: usize) -> (r: (usize, usize))
    requires
        lo <= hi <= v.len(),
    ensures
        lo <= r.0 <= r.1 <= hi,
        v@.subrange(r.0 as int, r.1 as int) == trimmed(v@.subrange(lo as int, hi as int)),
{
    let mut a = lo;
    while a < hi && is_space_char(v[a])
        invariant
            lo <= a <= hi <= v.len(),
            trimmed(v@.subrange(lo as int, hi as int)) == trimmed(v@.subrange(a as int, hi as int)),
        decreases hi - a,
    {
        let ghost f = v@.subrange(a as int, hi as int);
        assert(f.drop_first() =~= v@.subrange(a + 1, hi as int));
        assert(f[0] == v@[a as int]);
        a = a + 1;
    }
    let mut b = hi;
    while b > a && is_space_char(v[b - 1])
        invariant
            lo <= a <= b <= hi <= v.len(),
            a < b ==> !is_space(v@[a as int]),
            trimmed(v@.subrange(lo as int, hi as int)) == trimmed(v@.subrange(a as int, b as int)),
        decreases b - a,
    {
        let ghost f = v@.subrange(a as int, b as int);
        assert(f.drop_last() =~= v@.subrange(a as int, b - 1));
        assert(f[0] == v@[a as int]);
        assert(f.last() == v@[b - 1]);
        b = b - 1;
    }
    let ghost f = v@.subrange(a as int, b as int);
    if a < b {
        assert(f[0] == v@[a as int]);
        assert(f.last() == v@[b - 1]);
    }
    (a, b)
}

/// The coordinate in `v[lo..hi]`, surrounding whitespace allowed.
fn field_in(v: &Vec<char>, lo: usize, hi: usize) -> (r: Option<i64>)
    requires
        lo <= hi <= v.len(),
    ensures
        r == field_value(v@.subrange(lo as int, hi as int)),
{
    let (a, b) = trim_range(v, lo, hi);
    let ghost t = v@.subrange(a as int, b as int);
    if a < b && v[a] == '-' {
        assert(t[0] == v@[a as int]);
        assert(t.drop_first() =~= v@.subrange(a + 1, b as int));
        match digits_in(v, a + 1, b) {
            Some(n) => Some(-n),
            None => None,
        }
    } else {
        if a < b {
            assert(t[0] == v@[a as int]);
        }
        digits_in(v, a, b)
    }
}

/// Reads the pointer position from what the pointer query printed: two
/// integers separated by one comma, each possibly surrounded by whitespace,
/// each of a magnitude that fits in an `i64`. `None` for anything else.
pub fn parse_pointer(output: &str) -> (r: Option<(i64, i64)>)
    ensures
        r == pointer_of(output@),
{
    let v = chars_of(output);
    let n = v.len();
    let mut k: usize = 0;
    while k < n && v[k] != ','
        invariant
            n == v.len(),
            k <= n,
            comma_at(v@, 0) == comma_at(v@, k as int),
        decreases n - k,
    {
        k = k + 1;
    }
    if k >= n {
        return None;
    }
    assert(v@.take(k as int) =~= v@.subrange(0, k as int));
    assert(v@.skip(k + 1) =~= v@.subrange(k + 1, n as int));
    let x = field_in(&v, 0, k);
    let y = field_in(&v, k + 1, n);
    match (x, y) {
        (Some(x), Some(y)) => Some((x, y)),
        _ => None,
    }
}

/// Turns what the pointer query printed into the outcome of the capture.
pub fn capture_event(output: &str) -> (r: crate::sequence::Event)
    ensures
        r == match pointer_of(output@) {
            Some((x, y)) => crate::sequence::Event::Pointer(x, y),
            None => crate::sequence::Event::CaptureFailed,
        },
{
    match parse_pointer(output) {
        Some((x, y)) => crate::sequence::Event::Pointer(x, y),
        None => crate::sequence::Event::CaptureFailed,
    }
}

} // verus!

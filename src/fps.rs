use vstd::prelude::*;
use vstd::string::*;

use crate::text::occurs_at;

verus! {

pub open spec fn is_digit(c: char) -> bool {
    '0' <= c && c <= '9'
}

pub open spec fn digit_value(c: char) -> nat {
    (c as u32 - '0' as u32) as nat
}

pub open spec fn all_digits(t: Seq<char>) -> bool {
    forall|i: int| 0 <= i < t.len() ==> is_digit(#[trigger] t[i])
}

/// The number that a run of decimal digits spells.
pub open spec fn digits_value(t: Seq<char>) -> nat
    decreases t.len(),
{
    if t.len() == 0 {
        0
    } else {
        digits_value(t.drop_last()) * 10 + digit_value(t.last())
    }
}

/// Thousandths given by the digits after a decimal point; later digits are
/// dropped.
pub open spec fn frac_milli(b: Seq<char>) -> nat {
    if b.len() >= 3 {
        digits_value(b.take(3))
    } else if b.len() == 2 {
        digits_value(b) * 10
    } else if b.len() == 1 {
        digits_value(b) * 100
    } else {
        0
    }
}

pub open spec fn is_decimal_split(t: Seq<char>, k: int) -> bool {
    &&& 0 <= k < t.len()
    &&& t.len() > 1
    &&& t[k] == '.'
    &&& all_digits(t.take(k))
    &&& all_digits(t.skip(k + 1))
}

/// The value, in thousandths, of a plain decimal number: digits with at most
/// one decimal point and at least one digit (`30`, `29.97`, `.5`, `60.`).
pub open spec fn decimal_milli(t: Seq<char>) -> Option<nat> {
    if t.len() > 0 && all_digits(t) {
        Some(digits_value(t) * 1000)
    } else if exists|k: int| is_decimal_split(t, k) {
        let k = choose|k: int| is_decimal_split(t, k);
        Some(digits_value(t.take(k)) * 1000 + frac_milli(t.skip(k + 1)))
    } else {
        None
    }
}

pub open spec fn sat(v: nat) -> u64 {
    if v >= u64::MAX {
        u64::MAX
    } else {
        v as u64
    }
}

pub open spec fn sat_opt(v: Option<nat>) -> Option<u64> {
    match v {
        Some(x) => Some(sat(x)),
        None => None,
    }
}

pub open spec fn fps_marker() -> Seq<char> {
    seq!['F', 'P', 'S', ':']
}

/// The first position at or after `from` where the marker `FPS:` starts.
pub open spec fn first_marker(s: Seq<char>, from: int) -> Option<int>
    decreases s.len() - from,
{
    if from < 0 || from + 4 > s.len() {
        None
    } else if occurs_at(s, fps_marker(), from) {
        Some(from)
    } else {
        first_marker(s, from + 1)
    }
}

pub open spec fn is_numeric(c: char) -> bool {
    is_digit(c) || c == '.'
}

/// The end of the run of digits and points that starts at `j`.
pub open spec fn run_end(s: Seq<char>, j: int) -> int
    decreases s.len() - j,
{
    if 0 <= j < s.len() && is_numeric(s[j]) {
        run_end(s, j + 1)
    } else {
        j
    }
}

/// The frame rate, in thousandths, that a text such as `FPS:29.97` carries:
/// the whole rest after a leading `FPS:` if that is a number, else the run of
/// digits and points after the first `FPS:`.
pub open spec fn fps_text_milli(s: Seq<char>) -> Option<nat> {
    if occurs_at(s, fps_marker(), 0) && decimal_milli(s.skip(4)) is Some {
        decimal_milli(s.skip(4))
    } else {
        match first_marker(s, 0) {
            Some(i) => decimal_milli(s.subrange(i + 4, run_end(s, i + 4))),
            None => None,
        }
    }
}

fn is_digit_char(c: char) -> (r: bool)
    ensures
        r == is_digit(c),
{
    '0' <= c && c <= '9'
}

/// `digits_value` of `s[from..to]`, saturated at `u64::MAX`.
fn digits_sat(s: &str, from: usize, to: usize) -> (r: u64)
    requires
        from <= to <= s@.len(),
        all_digits(s@.subrange(from as int, to as int)),
    ensures
        r == sat(digits_value(s@.subrange(from as int, to as int))),
{
    let mut acc: u64 = 0;
    let mut i: usize = from;
    assert(s@.subrange(from as int, from as int) =~= Seq::<char>::empty());
    while i < to
        invariant
            from <= i <= to <= s@.len(),
            all_digits(s@.subrange(from as int, to as int)),
            acc == sat(digits_value(s@.subrange(from as int, i as int))),
        decreases to - i,
    {
        let c = s.get_char(i);
        let ghost pre = s@.subrange(from as int, i as int);
        let ghost next = s@.subrange(from as int, i + 1);
        assert(next.drop_last() =~= pre);
        assert(next.last() == c);
        assert(s@.subrange(from as int, to as int)[i - from] == c);
        let d: u64 = (c as u32 - '0' as u32) as u64;
        assert(d == digit_value(c) && d <= 9);
        let ghost v = digits_value(pre);
        if acc > (u64::MAX - d) / 10 {
            assert(v * 10 + d >= u64::MAX) by (nonlinear_arith)
                requires
                    acc > (u64::MAX - d) / 10,
                    acc == sat(v),
                    d <= 9,
            ;
            acc = u64::MAX;
        } else {
            assert(v < u64::MAX);
            assert(acc * 10 + d <= u64::MAX) by (nonlinear_arith)
                requires
                    acc <= (u64::MAX - d) / 10,
                    d <= 9,
            ;
            acc = acc * 10 + d;
        }
        i = i + 1;
    }
    acc
}

/// `sat(v * 1000 + frac)` from `sat(v)`.
fn scale_milli(vs: u64, frac: u64, v: Ghost<nat>) -> (r: u64)
    requires
        vs == sat(v@),
        frac < 1000,
    ensures
        r == sat((v@ * 1000 + frac) as nat),
{
    if vs > (u64::MAX - frac) / 1000 {
        assert(v@ * 1000 + frac >= u64::MAX) by (nonlinear_arith)
            requires
                vs > (u64::MAX - frac) / 1000,
                vs == sat(v@),
                frac < 1000,
        ;
        u64::MAX
    } else {
        assert(vs * 1000 + frac <= u64::MAX) by (nonlinear_arith)
            requires
                vs <= (u64::MAX - frac) / 1000,
                frac < 1000,
        ;
        vs * 1000 + frac
    }
}

/// Parses `s[from..to]` as a plain decimal number, in thousandths, saturated.
fn decimal_milli_at(s: &str, from: usize, to: usize) -> (r: Option<u64>)
    requires
        from <= to <= s@.len(),
    ensures
        r == sat_opt(decimal_milli(s@.subrange(from as int, to as int))),
{
    let ghost t = s@.subrange(from as int, to as int);
    let mut k: usize = from;
    while k < to && is_digit_char(s.get_char(k))
        invariant
            from <= k <= to <= s@.len(),
            t == s@.subrange(from as int, to as int),
            forall|j: int| 0 <= j < k - from ==> is_digit(#[trigger] t[j]),
        decreases to - k,
    {
        k = k + 1;
    }
    let ghost kk = k - from;
    if k == to {
        if to == from {
            assert(!(exists|q: int| is_decimal_split(t, q)));
            return None;
        }
        let v = digits_sat(s, from, to);
        return Some(scale_milli(v, 0, Ghost(digits_value(t))));
    }
    // s[k] is the first character that is not a digit
    assert(!all_digits(t)) by {
        assert(!is_digit(t[kk]));
    }
    if s.get_char(k) != '.' || to - from == 1 {
        assert forall|q: int| !is_decimal_split(t, q) by {
            if is_decimal_split(t, q) {
                if q < kk {
                    assert(is_digit(t[q]));
                } else if q > kk {
                    assert(t.take(q)[kk] == t[kk]);
                }
            }
        }
        return None;
    }
    let mut m: usize = k + 1;
    while m < to && is_digit_char(s.get_char(m))
        invariant
            from <= k < m <= to <= s@.len(),
            kk == k - from,
            t == s@.subrange(from as int, to as int),
            forall|j: int| kk < j < m - from ==> is_digit(#[trigger] t[j]),
        decreases to - m,
    {
        assert(t[m - from] == s@[m as int]);
        m = m + 1;
    }
    if m < to {
        assert forall|q: int| !is_decimal_split(t, q) by {
            if is_decimal_split(t, q) {
                if q < kk {
                    assert(is_digit(t[q]));
                } else if q > kk {
                    assert(t.take(q)[kk] == t[kk]);
                } else {
                    assert(t.skip(q + 1)[m - from - q - 1] == t[m - from]);
                }
            }
        }
        return None;
    }
    assert(is_decimal_split(t, kk)) by {
        assert forall|j: int| 0 <= j < t.skip(kk + 1).len() implies is_digit(
            #[trigger] t.skip(kk + 1)[j],
        ) by {
            assert(t.skip(kk + 1)[j] == t[kk + 1 + j]);
        }
    }
    assert forall|q: int| is_decimal_split(t, q) implies q == kk by {
        if q < kk {
            assert(is_digit(t[q]));
        } else if q > kk {
            assert(t.take(q)[kk] == t[kk]);
        }
    }
    assert(t.take(kk) =~= s@.subrange(from as int, k as int));
    let whole = digits_sat(s, from, k);
    let ghost b = t.skip(kk + 1);
    assert(b =~= s@.subrange(k + 1, to as int));
    let flen: usize = to - (k + 1);
    let frac: u64 = if flen >= 3 {
        let ghost b3 = b.take(3);
        assert(b3 =~= s@.subrange(k + 1, k + 4));
        proof {
            lemma_digits_bound(b3);
        }
        digits_sat(s, k + 1, k + 4)
    } else if flen == 2 {
        proof {
            lemma_digits_bound(b);
        }
        digits_sat(s, k + 1, to) * 10
    } else if flen == 1 {
        proof {
            lemma_digits_bound(b);
        }
        digits_sat(s, k + 1, to) * 100
    } else {
        0
    };
    assert(frac == frac_milli(b));
    assert(!(t.len() > 0 && all_digits(t)));
    Some(scale_milli(whole, frac, Ghost(digits_value(t.take(kk)))))
}

proof fn lemma_digits_bound(t: Seq<char>)
    requires
        all_digits(t),
    ensures
        t.len() == 1 ==> digits_value(t) < 10,
        t.len() == 2 ==> digits_value(t) < 100,
        t.len() == 3 ==> digits_value(t) < 1000,
    decreases t.len(),
{
    if t.len() > 0 {
        assert(is_digit(t[t.len() - 1]));
        assert forall|i: int| 0 <= i < t.drop_last().len() implies is_digit(
            #[trigger] t.drop_last()[i],
        ) by {
            assert(t.drop_last()[i] == t[i]);
        }
        lemma_digits_bound(t.drop_last());
        let v = digits_value(t.drop_last());
        let d = digit_value(t.last());
        assert(d <= 9);
        assert(t.drop_last().len() == 0 ==> v == 0);
        assert(t.len() == 2 ==> v * 10 + d < 100) by (nonlinear_arith)
            requires
                t.len() == 2 ==> v < 10,
                d <= 9,
        ;
        assert(t.len() == 3 ==> v * 10 + d < 1000) by (nonlinear_arith)
            requires
                t.len() == 3 ==> v < 100,
                d <= 9,
        ;
    }
}

/// The frame rate, in thousandths of a frame per second, carried by a text
/// such as `FPS:30.0` or `1080p FPS:29.97 main`; `None` when there is none.
pub fn parse_fps_from_string(s: &str) -> (r: Option<u64>)
    ensures
        r == sat_opt(fps_text_milli(s@)),
{
    let n = s.unicode_len();
    let marker = "FPS:";
    proof {
        reveal_strlit("FPS:");
    }
    assert(marker@ =~= fps_marker());
    if crate::text::matches_at(s, marker, 0) {
        assert(s@.skip(4) =~= s@.subrange(4, n as int));
        let whole = decimal_milli_at(s, 4, n);
        if whole.is_some() {
            return whole;
        }
    }
    if n < 4 {
        return None;
    }
    let mut i: usize = 0;
    while i <= n - 4 && !crate::text::matches_at(s, marker, i)
        invariant
            n == s@.len(),
            n >= 4,
            i <= n - 3,
            marker@ == fps_marker(),
            first_marker(s@, 0) == first_marker(s@, i as int),
        decreases n - i,
    {
        i = i + 1;
    }
    if i > n - 4 {
        return None;
    }
    let start: usize = i + 4;
    let mut j: usize = start;
    while j < n && (is_digit_char(s.get_char(j)) || s.get_char(j) == '.')
        invariant
            n == s@.len(),
            start <= j <= n,
            run_end(s@, start as int) == run_end(s@, j as int),
        decreases n - j,
    {
        j = j + 1;
    }
    decimal_milli_at(s, start, j)
}

} // verus!

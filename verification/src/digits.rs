//! Decimal digit runs: their numeric value, the canonical rendering of a number, and the
//! scanners that read and write them.
use crate::chars::{all_digits, exec_is_digit, is_digit, push_char};
use vstd::prelude::*;

verus! {

/// The value of a digit character.
pub open spec fn digit_val(c: char) -> nat {
    (c as int - '0' as int) as nat
}

/// The digit character for `d` (`d < 10`).
pub open spec fn digit_char(d: nat) -> char {
    (d + '0' as nat) as char
}

/// The value of a run of digits, most significant first (`0` for the empty run).
pub open spec fn digits_value(s: Seq<char>) -> nat
    decreases s.len(),
{
    if s.len() == 0 {
        0
    } else {
        digits_value(s.drop_last()) * 10 + digit_val(s.last())
    }
}

/// The canonical decimal rendering of `n`: no sign, no leading zero.
pub open spec fn nat_digits(n: nat) -> Seq<char>
    decreases n,
{
    if n < 10 {
        seq![digit_char(n)]
    } else {
        nat_digits(n / 10).push(digit_char(n % 10))
    }
}

/// A canonical numeric component `0|[1-9][0-9]*`.
pub open spec fn is_canonical_num(s: Seq<char>) -> bool {
    &&& s.len() > 0
    &&& all_digits(s)
    &&& (s.len() == 1 || s[0] != '0')
}

/// The end of the digit run that starts at `i`: the first index at or after `i` that holds no
/// digit, or the length.
pub open spec fn run_end(s: Seq<char>, i: int) -> int
    decreases s.len() - i,
{
    if i < 0 || i >= s.len() || !is_digit(s[i]) {
        i
    } else {
        run_end(s, i + 1)
    }
}

pub proof fn lemma_run_end(s: Seq<char>, i: int)
    requires
        0 <= i <= s.len(),
    ensures
        i <= run_end(s, i) <= s.len(),
        forall|k: int| i <= k < run_end(s, i) ==> #[trigger] is_digit(s[k]),
        run_end(s, i) == s.len() || !is_digit(s[run_end(s, i)]),
    decreases s.len() - i,
{
    if i < s.len() && is_digit(s[i]) {
        lemma_run_end(s, i + 1);
    }
}

/// A run ends exactly where the digits stop.
pub proof fn lemma_run_end_unique(s: Seq<char>, i: int, j: int)
    requires
        0 <= i <= j <= s.len(),
        forall|k: int| i <= k < j ==> #[trigger] is_digit(s[k]),
        j == s.len() || !is_digit(s[j]),
    ensures
        run_end(s, i) == j,
    decreases j - i,
{
    if i < j {
        lemma_run_end_unique(s, i + 1, j);
    }
}

pub proof fn lemma_digit_char(d: nat)
    requires
        d < 10,
    ensures
        is_digit(digit_char(d)),
        digit_val(digit_char(d)) == d,
        (digit_char(d) == '0') <==> d == 0,
{
}

/// The rendering is canonical and reads back as the number.
pub proof fn lemma_nat_digits(n: nat)
    ensures
        is_canonical_num(nat_digits(n)),
        digits_value(nat_digits(n)) == n,
        nat_digits(n)[0] == '0' ==> n == 0,
    decreases n,
{
    if n < 10 {
        lemma_digit_char(n);
        let s = nat_digits(n);
        assert(s.drop_last() =~= Seq::<char>::empty());
        assert(digits_value(s.drop_last()) == 0);
    } else {
        lemma_nat_digits(n / 10);
        lemma_digit_char(n % 10);
        let s = nat_digits(n);
        assert(s.drop_last() =~= nat_digits(n / 10));
        assert(s.last() == digit_char(n % 10));
        assert(n == (n / 10) * 10 + n % 10);
        assert(digits_value(s) == digits_value(s.drop_last()) * 10 + digit_val(s.last()));
    }
}

/// A digit run whose first digit is not `0` is worth at least one.
proof fn lemma_value_positive(s: Seq<char>)
    requires
        s.len() > 0,
        all_digits(s),
        s[0] != '0',
    ensures
        digits_value(s) >= 1,
    decreases s.len(),
{
    if s.len() > 1 {
        let p = s.drop_last();
        assert(p[0] == s[0]);
        lemma_value_positive(p);
    } else {
        assert(is_digit(s[0]));
    }
}

/// A canonical run is the rendering of its value.
pub proof fn lemma_canonical_round_trip(s: Seq<char>)
    requires
        is_canonical_num(s),
    ensures
        nat_digits(digits_value(s)) == s,
    decreases s.len(),
{
    let v = digits_value(s);
    if s.len() == 1 {
        assert(is_digit(s[0]));
        assert(s.drop_last() =~= Seq::<char>::empty());
        assert(v == digit_val(s[0]));
        assert(digit_char(v) == s[0]);
        assert(nat_digits(v) =~= s);
    } else {
        let p = s.drop_last();
        assert(p[0] == s[0]);
        assert(is_digit(s.last()));
        if p.len() > 1 {
            assert(p[0] != '0');
        }
        lemma_value_positive(p);
        lemma_canonical_round_trip(p);
        let d = digit_val(s.last());
        assert(v == digits_value(p) * 10 + d);
        assert(v >= 10);
        assert(v / 10 == digits_value(p));
        assert(v % 10 == d);
        assert(digit_char(d) == s.last());
        assert(nat_digits(v) =~= s);
    }
}

/// Appending digits never lowers the value.
pub proof fn lemma_value_monotone(s: Seq<char>, k: int, j: int)
    requires
        0 <= k <= j <= s.len(),
        all_digits(s),
    ensures
        digits_value(s.subrange(0, k)) <= digits_value(s.subrange(0, j)),
    decreases j - k,
{
    if k < j {
        lemma_value_monotone(s, k, j - 1);
        assert(s.subrange(0, j).drop_last() =~= s.subrange(0, j - 1));
    }
}

/// The value of the run `cs[lo..hi]` when it is canonical and fits a `u32`.
pub open spec fn u32_component(s: Seq<char>, lo: int, hi: int) -> Option<u32> {
    let t = s.subrange(lo, hi);
    if is_canonical_num(t) && digits_value(t) <= u32::MAX {
        Some(digits_value(t) as u32)
    } else {
        None
    }
}

/// Reads `cs[lo..hi]` as a canonical `u32` component.
pub fn parse_u32_component(cs: &[char], lo: usize, hi: usize) -> (r: Option<u32>)
    requires
        lo <= hi <= cs@.len(),
    ensures
        r == u32_component(cs@, lo as int, hi as int),
{
    let ghost t = cs@.subrange(lo as int, hi as int);
    if lo == hi {
        return None;
    }
    if cs[lo] == '0' && hi - lo > 1 {
        return None;
    }
    let mut acc: u64 = 0;
    let mut k: usize = lo;
    while k < hi
        invariant
            lo <= k <= hi <= cs@.len(),
            t == cs@.subrange(lo as int, hi as int),
            forall|m: int| lo <= m < k ==> #[trigger] is_digit(cs@[m]),
            acc == digits_value(cs@.subrange(lo as int, k as int)),
            acc <= u32::MAX,
        decreases hi - k,
    {
        let c = cs[k];
        if !exec_is_digit(c) {
            assert(!is_digit(t[k - lo]));
            return None;
        }
        let ghost prev = cs@.subrange(lo as int, k as int);
        assert(cs@.subrange(lo as int, k + 1).drop_last() =~= prev);
        let d = (c as u32 - '0' as u32) as u64;
        acc = acc * 10 + d;
        if acc > u32::MAX as u64 {
            proof {
                assert(all_digits(cs@.subrange(lo as int, k + 1)));
                if all_digits(t) {
                    assert(t.subrange(0, k + 1 - lo) =~= cs@.subrange(lo as int, k + 1));
                    lemma_value_monotone(t, k + 1 - lo, t.len() as int);
                    assert(t.subrange(0, t.len() as int) =~= t);
                }
            }
            return None;
        }
        k = k + 1;
    }
    assert(all_digits(t));
    Some(acc as u32)
}

/// Appends the canonical decimal rendering of `n`.
pub fn push_decimal(out: &mut String, n: u32)
    ensures
        final(out)@ == old(out)@ + nat_digits(n as nat),
    decreases n,
{
    if n >= 10 {
        push_decimal(out, n / 10);
    }
    let d = n % 10;
    proof {
        lemma_digit_char(d as nat);
    }
    let c: char = if d == 0 { '0' } else if d == 1 { '1' } else if d == 2 { '2' } else if d == 3 {
        '3'
    } else if d == 4 { '4' } else if d == 5 { '5' } else if d == 6 { '6' } else if d == 7 {
        '7'
    } else if d == 8 { '8' } else { '9' };
    assert(c == digit_char(d as nat));
    push_char(out, c);
    proof {
        if n < 10 {
            assert(old(out)@ + nat_digits(n as nat) =~= old(out)@.push(c));
        } else {
            assert(nat_digits(n as nat) == nat_digits((n / 10) as nat).push(digit_char(d as nat)));
            assert(old(out)@ + nat_digits(n as nat) =~= (old(out)@ + nat_digits(
                (n / 10) as nat,
            )).push(c));
        }
    }
}

} // verus!

verus! {

/// `10` to the power `k`.
pub open spec fn pow10(k: nat) -> nat
    decreases k,
{
    if k == 0 {
        1
    } else {
        10 * pow10((k - 1) as nat)
    }
}

/// `s` is exactly `width` digits whose value lies in `lo..=hi`.
pub open spec fn num_in(s: Seq<char>, width: int, lo: int, hi: int) -> bool {
    &&& s.len() == width
    &&& all_digits(s)
    &&& lo <= digits_value(s) <= hi
}

/// Whether `cs` is exactly `width` digits with a value in `lo..=hi` (`width` at most four).
pub fn exec_num_in(cs: &[char], width: usize, lo: u64, hi: u64) -> (r: bool)
    requires
        width <= 4,
    ensures
        r == num_in(cs@, width as int, lo as int, hi as int),
{
    if cs.len() != width {
        return false;
    }
    let mut acc: u64 = 0;
    let mut k: usize = 0;
    while k < cs.len()
        invariant
            cs@.len() == width <= 4,
            k <= width,
            forall|m: int| 0 <= m < k ==> #[trigger] is_digit(cs@[m]),
            acc == digits_value(cs@.subrange(0, k as int)),
            acc + 1 <= pow10(k as nat),
            pow10(k as nat) <= 10000,
        decreases width - k,
    {
        let c = cs[k];
        if !exec_is_digit(c) {
            return false;
        }
        assert(cs@.subrange(0, k + 1).drop_last() =~= cs@.subrange(0, k as int));
        let d = (c as u32 - '0' as u32) as u64;
        proof {
            assert(pow10((k + 1) as nat) == 10 * pow10(k as nat));
            assert(acc * 10 + d + 1 <= 10 * (acc + 1)) by (nonlinear_arith)
                requires
                    d <= 9,
            ;
            assert(10 * (acc + 1) <= 10 * pow10(k as nat)) by (nonlinear_arith)
                requires
                    acc + 1 <= pow10(k as nat),
            ;
            if k + 1 <= 4 {
                assert(pow10(0) == 1);
                assert(pow10(1) == 10);
                assert(pow10(2) == 100);
                assert(pow10(3) == 1000);
                assert(pow10(4) == 10000);
                lemma_pow10_monotone((k + 1) as nat, 4);
            }
        }
        acc = acc * 10 + d;
        k = k + 1;
    }
    assert(cs@.subrange(0, k as int) =~= cs@);
    lo <= acc && acc <= hi
}

pub proof fn lemma_pow10_monotone(a: nat, b: nat)
    requires
        a <= b,
    ensures
        pow10(a) <= pow10(b),
    decreases b,
{
    if a < b {
        lemma_pow10_monotone(a, (b - 1) as nat);
    }
}

} // verus!

verus! {

/// A two-character run is worth ten times its first digit plus its second.
pub proof fn lemma_two_digits(s: Seq<char>)
    requires
        s.len() == 2,
    ensures
        digits_value(s) == digit_val(s[0]) * 10 + digit_val(s[1]),
{
    assert(s.drop_last().drop_last() =~= Seq::<char>::empty());
    assert(s.drop_last()[0] == s[0]);
    assert(digits_value(s.drop_last()) == digits_value(s.drop_last().drop_last()) * 10 + digit_val(
        s[0],
    ));
}

} // verus!

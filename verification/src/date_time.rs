//! [`SdmxDateTime`]: an `xs:dateTime` lexeme, validated against the shared date-time grammar
//! and stored verbatim, so the offsetless form and the distinct `Z` and `+00:00` spellings all
//! survive. Equality is lexeme identity.
use crate::chars::{same_text, chars_of, exec_is_digit, find_char, is_digit, lemma_find_char, scan_to_char, slice_chars, all_digits};
use crate::digits::{digit_val, digits_value};
use crate::error::Error;
use crate::time_period::{
    classify_chars, classify_time_period, exec_split_timezone, split_timezone, tz_shape,
    SdmxTimePeriodKind,
};
use chrono::{FixedOffset, NaiveDate, NaiveDateTime, NaiveTime};
use vstd::prelude::*;

verus! {

#[verifier::external_type_specification]
#[verifier::external_body]
pub struct ExNaiveDate(chrono::NaiveDate);

#[verifier::external_type_specification]
#[verifier::external_body]
pub struct ExNaiveTime(chrono::NaiveTime);

#[verifier::external_type_specification]
#[verifier::external_body]
pub struct ExNaiveDateTime(chrono::NaiveDateTime);

#[verifier::external_type_specification]
#[verifier::external_body]
pub struct ExFixedOffset(chrono::FixedOffset);

/// What `FixedOffset::east_opt` gives for `secs` seconds east of UTC.
pub uninterp spec fn east_offset(secs: i32) -> Option<FixedOffset>;

/// What `NaiveDate::from_ymd_opt` gives for a year, month and day.
pub uninterp spec fn date_from_ymd(year: i32, month: u32, day: u32) -> Option<NaiveDate>;

/// What `NaiveDate::succ_opt` gives for a date: the next calendar day, if representable.
pub uninterp spec fn date_succ(date: NaiveDate) -> Option<NaiveDate>;

/// What `NaiveTime::from_hms_nano_opt` gives for an hour, minute, second and nanosecond.
pub uninterp spec fn time_from_hms_nano(hour: u32, minute: u32, second: u32, nano: u32) -> Option<
    NaiveTime,
>;

/// What `NaiveDateTime::new` gives for a date and a time of day.
pub uninterp spec fn date_time_of(date: NaiveDate, time: NaiveTime) -> NaiveDateTime;

/// `chrono::FixedOffset::east_opt`: the offset `secs` seconds east of UTC, present exactly when
/// `secs` lies strictly between `-86_400` and `86_400` (as its source checks).
#[verifier::external_body]
fn fixed_offset_east(secs: i32) -> (r: Option<FixedOffset>)
    ensures
        r == east_offset(secs),
        r is Some <==> -86_400 < secs < 86_400,
{
    FixedOffset::east_opt(secs)
}

/// `chrono::NaiveDate::from_ymd_opt`: the calendar date, absent for a month outside `1..=12`,
/// a day outside `1..=31`, or a year outside chrono's range; present for any day up to the
/// 28th of a valid month of a year in that range. Which of the 29th to 31st exist (the
/// calendar rule) is left to the name.
#[verifier::external_body]
fn naive_date_from_ymd(year: i32, month: u32, day: u32) -> (r: Option<NaiveDate>)
    ensures
        r == date_from_ymd(year, month, day),
        r is Some ==> (-262_143 <= year <= 262_142 && 1 <= month <= 12 && 1 <= day <= 31),
        (-262_143 <= year <= 262_142 && 1 <= month <= 12 && 1 <= day <= 28) ==> r is Some,
{
    NaiveDate::from_ymd_opt(year, month, day)
}

/// `chrono::NaiveDate::succ_opt`: the following calendar day, absent past chrono's last date.
#[verifier::external_body]
fn naive_date_succ(date: &NaiveDate) -> (r: Option<NaiveDate>)
    ensures
        r == date_succ(*date),
{
    date.succ_opt()
}

/// `chrono::NaiveTime::from_hms_nano_opt`: the time of day, present exactly when the hour is
/// below 24, the minute and second below 60, and the nanosecond below `1_000_000_000` (or,
/// as a leap second, below `2_000_000_000` with second 59), as its source checks.
#[verifier::external_body]
fn naive_time_from_hms_nano(hour: u32, minute: u32, second: u32, nano: u32) -> (r: Option<
    NaiveTime,
>)
    ensures
        r == time_from_hms_nano(hour, minute, second, nano),
        r is Some <==> (hour < 24 && minute < 60 && second < 60 && (nano < 1_000_000_000 || (
        second == 59 && nano < 2_000_000_000))),
{
    NaiveTime::from_hms_nano_opt(hour, minute, second, nano)
}

/// `chrono::NaiveDateTime::new`: the date-time joining a date and a time of day.
#[verifier::external_body]
fn naive_date_time(date: NaiveDate, time: NaiveTime) -> (r: NaiveDateTime)
    ensures
        r == date_time_of(date, time),
{
    NaiveDateTime::new(date, time)
}

/// The text before and after the first `c` in `s`, or `None` when `s` holds no `c`.
pub open spec fn split_at_char(s: Seq<char>, c: char) -> Option<(Seq<char>, Seq<char>)> {
    let i = find_char(s, c, 0);
    if i < s.len() {
        Some((s.subrange(0, i), s.subrange(i + 1, s.len() as int)))
    } else {
        None
    }
}

/// Whether a date is a BC date (a leading `-`).
pub open spec fn date_is_bc(d: Seq<char>) -> bool {
    d.len() > 0 && d[0] == '-'
}

/// The date without its sign.
pub open spec fn date_body(d: Seq<char>) -> Seq<char> {
    if date_is_bc(d) {
        d.drop_first()
    } else {
        d
    }
}

/// The year, month and day digits of a date `[-]Y..Y-MM-DD`.
pub open spec fn date_fields(d: Seq<char>) -> Option<(Seq<char>, Seq<char>, Seq<char>)> {
    match split_at_char(date_body(d), '-') {
        Some((year, rest)) => match split_at_char(rest, '-') {
            Some((month, day)) => Some((year, month, day)),
            None => None,
        },
        None => None,
    }
}

/// The hour, minute, second and fraction digits of a time `hh:mm:ss[.f..f]` (the fraction
/// empty when there is none).
pub open spec fn time_fields(t: Seq<char>) -> Option<(Seq<char>, Seq<char>, Seq<char>, Seq<char>)> {
    let (hms, frac) = match split_at_char(t, '.') {
        Some((a, b)) => (a, b),
        None => (t, Seq::empty()),
    };
    match split_at_char(hms, ':') {
        Some((hour, rest)) => match split_at_char(rest, ':') {
            Some((minute, second)) => Some((hour, minute, second, frac)),
            None => None,
        },
        None => None,
    }
}

/// A run of digits read as a number no greater than `bound`: `None` when it is empty, holds
/// a non-digit, or exceeds `bound`.
pub open spec fn bounded_value(s: Seq<char>, bound: int) -> Option<int> {
    if s.len() > 0 && all_digits(s) && digits_value(s) <= bound {
        Some(digits_value(s) as int)
    } else {
        None
    }
}

/// The first nine fractional digits, right-padded with zeros.
pub open spec fn pad9(f: Seq<char>) -> Seq<char> {
    if f.len() >= 9 {
        f.subrange(0, 9)
    } else {
        f + Seq::new((9 - f.len()) as nat, |i: int| '0')
    }
}

/// The nanoseconds a fraction denotes (truncated past nine digits), or `None` when it holds
/// a non-digit.
pub open spec fn frac_nanos(f: Seq<char>) -> Option<int> {
    if all_digits(f) {
        Some(digits_value(pad9(f)) as int)
    } else {
        None
    }
}

/// The seconds east of UTC a timezone denotes: `0` for `Z`, else the signed `hh:mm`.
pub open spec fn tz_seconds(tz: Seq<char>) -> int {
    if tz.len() == 6 {
        let magnitude = digits_value(tz.subrange(1, 3)) * 3600 + digits_value(tz.subrange(4, 6))
            * 60;
        if tz[0] == '-' {
            -magnitude
        } else {
            magnitude as int
        }
    } else {
        0
    }
}

/// The stated offset of a date-time lexeme, as chrono gives it; `None` when no timezone is
/// stated.
pub open spec fn derived_offset(s: Seq<char>) -> Option<FixedOffset> {
    match split_timezone(s).1 {
        Some(tz) => east_offset(tz_seconds(tz) as i32),
        None => None,
    }
}

/// The written date-time from its parts as chrono builds it: the year (signed) makes the
/// date with the month and day; hour `24` moves to `00` on the next day.
pub open spec fn date_time_from_parts(
    year: int,
    month: int,
    day: int,
    hour: int,
    minute: int,
    second: int,
    nanos: int,
) -> Option<NaiveDateTime> {
    match date_from_ymd(year as i32, month as u32, day as u32) {
        Some(date) => {
            let next = if hour == 24 {
                date_succ(date)
            } else {
                Some(date)
            };
            let h = if hour == 24 {
                0
            } else {
                hour
            };
            match next {
                Some(dd) => match time_from_hms_nano(h as u32, minute as u32, second as u32, nanos as u32) {
                    Some(tt) => Some(date_time_of(dd, tt)),
                    None => None,
                },
                None => None,
            }
        },
        None => None,
    }
}

/// The written date-time of a date-time lexeme: the date and time split at the first `T`,
/// each number read as chrono's parser reads it (the year as an `i32`, the others as `u32`),
/// the fraction truncated to nanoseconds. `None` when a part is missing or out of range.
pub open spec fn derived_date_time(s: Seq<char>) -> Option<NaiveDateTime> {
    match split_at_char(split_timezone(s).0, 'T') {
        Some((d, t)) => match (date_fields(d), time_fields(t)) {
            (Some((ys, ms, ds)), Some((hs, mis, ss, fs))) => match (
                bounded_value(ys, i32::MAX as int),
                bounded_value(ms, u32::MAX as int),
                bounded_value(ds, u32::MAX as int),
                bounded_value(hs, u32::MAX as int),
                bounded_value(mis, u32::MAX as int),
                bounded_value(ss, u32::MAX as int),
                frac_nanos(fs),
            ) {
                (Some(y), Some(mo), Some(da), Some(h), Some(mi), Some(se), Some(n)) => {
                    date_time_from_parts(
                        if date_is_bc(d) {
                            -y
                        } else {
                            y
                        },
                        mo,
                        da,
                        h,
                        mi,
                        se,
                        n,
                    )
                },
                _ => None,
            },
            _ => None,
        },
        None => None,
    }
}

/// Reads `cs[lo..hi]` as a number no greater than `bound`.
fn read_bounded(cs: &[char], lo: usize, hi: usize, bound: u64) -> (r: Option<u64>)
    requires
        lo <= hi <= cs@.len(),
        bound <= u32::MAX,
    ensures
        match bounded_value(cs@.subrange(lo as int, hi as int), bound as int) {
            Some(v) => r == Some(v as u64),
            None => r is None,
        },
{
    let ghost t = cs@.subrange(lo as int, hi as int);
    if lo == hi {
        return None;
    }
    let mut acc: u64 = 0;
    let mut k: usize = lo;
    while k < hi
        invariant
            lo <= k <= hi <= cs@.len(),
            t == cs@.subrange(lo as int, hi as int),
            bound <= u32::MAX,
            forall|m: int| lo <= m < k ==> #[trigger] is_digit(cs@[m]),
            acc == digits_value(cs@.subrange(lo as int, k as int)),
            acc <= bound,
        decreases hi - k,
    {
        let c = cs[k];
        if !exec_is_digit(c) {
            assert(!is_digit(t[k - lo]));
            return None;
        }
        assert(cs@.subrange(lo as int, k + 1).drop_last() =~= cs@.subrange(lo as int, k as int));
        let d = (c as u32 - '0' as u32) as u64;
        acc = acc * 10 + d;
        if acc > bound {
            proof {
                assert(all_digits(cs@.subrange(lo as int, k + 1)));
                if all_digits(t) {
                    assert(t.subrange(0, k + 1 - lo) =~= cs@.subrange(lo as int, k + 1));
                    crate::digits::lemma_value_monotone(t, k + 1 - lo, t.len() as int);
                    assert(t.subrange(0, t.len() as int) =~= t);
                }
            }
            return None;
        }
        k = k + 1;
    }
    assert(all_digits(t));
    Some(acc)
}


/// Whether `s` is an `xs:dateTime` lexeme: the shared classifier puts it in the date-time kind.
pub open spec fn is_xs_date_time(s: Seq<char>) -> bool {
    classify_time_period(s) == Some(SdmxTimePeriodKind::DateTime)
}

/// Splits `cs` at its first `c`.
fn split_at_char_exec(cs: &[char], c: char) -> (r: Option<(Vec<char>, Vec<char>)>)
    ensures
        match r {
            Some((a, b)) => split_at_char(cs@, c) == Some((a@, b@)),
            None => split_at_char(cs@, c) is None,
        },
{
    let i = scan_to_char(cs, c, 0);
    proof {
        lemma_find_char(cs@, c, 0);
    }
    if i < cs.len() {
        Some((slice_chars(cs, 0, i), slice_chars(cs, i + 1, cs.len())))
    } else {
        None
    }
}

/// The year, month and day digits of a date.
fn date_fields_exec(d: &[char]) -> (r: Option<(Vec<char>, Vec<char>, Vec<char>)>)
    ensures
        match r {
            Some((y, m, dd)) => date_fields(d@) == Some((y@, m@, dd@)),
            None => date_fields(d@) is None,
        },
{
    let body = if d.len() > 0 && d[0] == '-' {
        slice_chars(d, 1, d.len())
    } else {
        slice_chars(d, 0, d.len())
    };
    assert(body@ =~= date_body(d@));
    match split_at_char_exec(body.as_slice(), '-') {
        Some((year, rest)) => match split_at_char_exec(rest.as_slice(), '-') {
            Some((month, day)) => Some((year, month, day)),
            None => None,
        },
        None => None,
    }
}

/// The hour, minute, second and fraction digits of a time.
fn time_fields_exec(t: &[char]) -> (r: Option<(Vec<char>, Vec<char>, Vec<char>, Vec<char>)>)
    ensures
        match r {
            Some((h, m, sec, f)) => time_fields(t@) == Some((h@, m@, sec@, f@)),
            None => time_fields(t@) is None,
        },
{
    let (hms, frac) = match split_at_char_exec(t, '.') {
        Some((a, b)) => (a, b),
        None => {
            let whole = slice_chars(t, 0, t.len());
            assert(whole@ =~= t@);
            let empty: Vec<char> = Vec::new();
            assert(empty@ =~= Seq::<char>::empty());
            (whole, empty)
        },
    };
    match split_at_char_exec(hms.as_slice(), ':') {
        Some((hour, rest)) => match split_at_char_exec(rest.as_slice(), ':') {
            Some((minute, second)) => Some((hour, minute, second, frac)),
            None => None,
        },
        None => None,
    }
}

/// The nanoseconds a fraction denotes, or `None` when it holds a non-digit.
fn frac_nanos_exec(f: &[char]) -> (r: Option<u32>)
    ensures
        match frac_nanos(f@) {
            Some(n) => r == Some(n as u32) && n < 1_000_000_000,
            None => r is None,
        },
{
    let mut j: usize = 0;
    while j < f.len()
        invariant
            j <= f@.len(),
            forall|m: int| 0 <= m < j ==> #[trigger] is_digit(f@[m]),
        decreases f@.len() - j,
    {
        if !exec_is_digit(f[j]) {
            return None;
        }
        j = j + 1;
    }
    assert(all_digits(f@));
    let ghost p = pad9(f@);
    assert(p.len() == 9);
    assert(forall|m: int| 0 <= m < 9 ==> #[trigger] p[m] == (if m < f@.len() {
        f@[m]
    } else {
        '0'
    }));
    let mut acc: u32 = 0;
    let mut k: usize = 0;
    while k < 9
        invariant
            k <= 9,
            p == pad9(f@),
            p.len() == 9,
            all_digits(f@),
            forall|m: int| 0 <= m < 9 ==> #[trigger] p[m] == (if m < f@.len() {
                f@[m]
            } else {
                '0'
            }),
            acc == digits_value(p.subrange(0, k as int)),
            acc < crate::digits::pow10(k as nat),
        decreases 9 - k,
    {
        let d: u32 = if k < f.len() {
            assert(is_digit(f@[k as int]));
            f[k] as u32 - '0' as u32
        } else {
            0
        };
        assert(d == crate::digits::digit_val(p[k as int]));
        assert(p.subrange(0, k + 1).drop_last() =~= p.subrange(0, k as int));
        proof {
            assert(crate::digits::pow10((k + 1) as nat) == 10 * crate::digits::pow10(k as nat));
            crate::digits::lemma_pow10_monotone(k as nat, 8);
            assert(crate::digits::pow10(8) == 100_000_000) by {
                reveal_with_fuel(crate::digits::pow10, 9);
            }
            assert(acc * 10 + d < 10 * crate::digits::pow10(k as nat)) by (nonlinear_arith)
                requires
                    acc < crate::digits::pow10(k as nat),
                    d <= 9,
            ;
        }
        acc = acc * 10 + d;
        k = k + 1;
    }
    assert(p.subrange(0, 9) =~= p);
    assert(crate::digits::pow10(9) == 1_000_000_000) by {
        reveal_with_fuel(crate::digits::pow10, 10);
    }
    Some(acc)
}

/// The seconds east of UTC a stated timezone denotes.
fn tz_seconds_exec(tz: &[char]) -> (r: i32)
    requires
        tz@ == seq!['Z'] || crate::time_period::tz_shape(tz@),
    ensures
        r == tz_seconds(tz@),
{
    if tz.len() != 6 {
        return 0;
    }
    proof {
        crate::digits::lemma_two_digits(tz@.subrange(1, 3));
        crate::digits::lemma_two_digits(tz@.subrange(4, 6));
    }
    let h = (tz[1] as u32 - '0' as u32) * 10 + (tz[2] as u32 - '0' as u32);
    let m = (tz[4] as u32 - '0' as u32) * 10 + (tz[5] as u32 - '0' as u32);
    assert(h == digits_value(tz@.subrange(1, 3)));
    assert(m == digits_value(tz@.subrange(4, 6)));
    let magnitude = (h * 3600 + m * 60) as i32;
    if tz[0] == '-' {
        -magnitude
    } else {
        magnitude
    }
}

/// The stated offset of a date-time lexeme (given as characters), as chrono gives it.
fn derive_offset(cs: &[char]) -> (r: Option<FixedOffset>)
    requires
        is_xs_date_time(cs@),
    ensures
        r == derived_offset(cs@),
        r is None <==> split_timezone(cs@).1 is None,
{
    proof {
        lemma_stated_offset_in_range(cs@);
    }
    let (_core, tz) = exec_split_timezone(cs);
    match tz {
        Some(t) => fixed_offset_east(tz_seconds_exec(t.as_slice())),
        None => None,
    }
}

/// The written date-time of a date-time lexeme (given as characters), as chrono builds it.
fn derive_date_time(cs: &[char]) -> (r: Option<NaiveDateTime>)
    ensures
        r == derived_date_time(cs@),
{
    let (core, _tz) = exec_split_timezone(cs);
    let (d, t) = match split_at_char_exec(core.as_slice(), 'T') {
        Some(parts) => parts,
        None => {
            return None;
        },
    };
    let (ys, ms, ds) = match date_fields_exec(d.as_slice()) {
        Some(f) => f,
        None => {
            return None;
        },
    };
    let (hs, mis, ss, fs) = match time_fields_exec(t.as_slice()) {
        Some(f) => f,
        None => {
            return None;
        },
    };
    let y = read_bounded(ys.as_slice(), 0, ys.len(), 2147483647);
    let mo = read_bounded(ms.as_slice(), 0, ms.len(), 4294967295);
    let da = read_bounded(ds.as_slice(), 0, ds.len(), 4294967295);
    let h = read_bounded(hs.as_slice(), 0, hs.len(), 4294967295);
    let mi = read_bounded(mis.as_slice(), 0, mis.len(), 4294967295);
    let se = read_bounded(ss.as_slice(), 0, ss.len(), 4294967295);
    let n = frac_nanos_exec(fs.as_slice());
    assert(ys@.subrange(0, ys@.len() as int) =~= ys@);
    assert(ms@.subrange(0, ms@.len() as int) =~= ms@);
    assert(ds@.subrange(0, ds@.len() as int) =~= ds@);
    assert(hs@.subrange(0, hs@.len() as int) =~= hs@);
    assert(mis@.subrange(0, mis@.len() as int) =~= mis@);
    assert(ss@.subrange(0, ss@.len() as int) =~= ss@);
    match (y, mo, da, h, mi, se, n) {
        (Some(y), Some(mo), Some(da), Some(h), Some(mi), Some(se), Some(n)) => {
            let year: i32 = if d.len() > 0 && d[0] == '-' {
                -(y as i32)
            } else {
                y as i32
            };
            let date = match naive_date_from_ymd(year, mo as u32, da as u32) {
                Some(date) => date,
                None => {
                    return None;
                },
            };
            let (day, hour) = if h == 24 {
                (naive_date_succ(&date), 0u32)
            } else {
                (Some(date), h as u32)
            };
            match day {
                Some(dd) => match naive_time_from_hms_nano(hour, mi as u32, se as u32, n) {
                    Some(tt) => Some(naive_date_time(dd, tt)),
                    None => None,
                },
                None => None,
            }
        },
        _ => None,
    }
}

/// An `xs:dateTime` value, stored as its stated lexeme, with the written date-time and the
/// stated offset derived from it at construction.
#[derive(Debug, PartialEq, Eq, Hash)]
pub struct SdmxDateTime {
    raw: String,
    date_time: Option<NaiveDateTime>,
    offset: Option<FixedOffset>,
}

impl View for SdmxDateTime {
    type V = Seq<char>;

    closed spec fn view(&self) -> Seq<char> {
        self.raw@
    }
}

impl Clone for SdmxDateTime {
    fn clone(&self) -> (r: Self)
        ensures
            r@ == self@,
    {
        proof {
            use_type_invariant(self);
        }
        SdmxDateTime { raw: self.raw.clone(), date_time: self.date_time, offset: self.offset }
    }
}

impl SdmxDateTime {
    #[verifier::type_invariant]
    closed spec fn well_formed(self) -> bool {
        &&& is_xs_date_time(self.raw@)
        &&& self.date_time == derived_date_time(self.raw@)
        &&& self.offset == derived_offset(self.raw@)
        &&& (self.offset is None <==> split_timezone(self.raw@).1 is None)
    }

    /// Validates `raw` against the `xs:dateTime` grammar (a full date, `T`, `hh:mm:ss` with
    /// optional fractional seconds, optional timezone) and stores it verbatim; fails with
    /// `InvalidDateTime(raw)` exactly when it is not one.
    pub fn new(raw: String) -> (r: Result<Self, Error>)
        ensures
            match r {
                Ok(v) => is_xs_date_time(raw@) && v@ == raw@,
                Err(e) => !is_xs_date_time(raw@) && e == Error::InvalidDateTime(raw),
            },
    {
        let cs = chars_of(raw.as_str());
        if classify_chars(cs.as_slice()) == Some(SdmxTimePeriodKind::DateTime) {
            let date_time = derive_date_time(cs.as_slice());
            let offset = derive_offset(cs.as_slice());
            Ok(SdmxDateTime { raw, date_time, offset })
        } else {
            Err(Error::InvalidDateTime(raw))
        }
    }

    /// The stated lexeme, exactly as supplied.
    pub fn as_str(&self) -> (r: &str)
        ensures
            r@ == self@,
            is_xs_date_time(r@),
    {
        proof {
            use_type_invariant(self);
        }
        self.raw.as_str()
    }

    /// The written date-time, independent of the offset: hour `24` reads as `00` on the next
    /// day and the fraction is truncated to nanoseconds; `None` for a lexeme chrono cannot
    /// represent (a calendar-invalid day, an out-of-range year).
    pub fn date_time(&self) -> (r: Option<NaiveDateTime>)
        ensures
            r == derived_date_time(self@),
    {
        proof {
            use_type_invariant(self);
        }
        self.date_time
    }

    /// The stated offset, or `None` for an offsetless lexeme.
    pub fn offset(&self) -> (r: Option<FixedOffset>)
        ensures
            r == derived_offset(self@),
            r is None <==> split_timezone(self@).1 is None,
    {
        proof {
            use_type_invariant(self);
        }
        self.offset
    }

    /// The lexeme as a new string.
    pub fn to_string(&self) -> (r: String)
        ensures
            r@ == self@,
    {
        self.raw.clone()
    }
}

/// A stated timezone of a valid lexeme lies within a day, so chrono always gives its offset.
proof fn lemma_stated_offset_in_range(s: Seq<char>)
    requires
        is_xs_date_time(s),
    ensures
        split_timezone(s).1 matches Some(tz) ==> -86_400 < tz_seconds(tz) < 86_400,
{
    if let Some(tz) = split_timezone(s).1 {
        if tz.len() == 6 {
            crate::digits::lemma_two_digits(tz.subrange(1, 3));
            crate::digits::lemma_two_digits(tz.subrange(4, 6));
        }
    }
}

impl vstd::std_specs::cmp::PartialEqSpecImpl<str> for SdmxDateTime {
    open spec fn obeys_eq_spec() -> bool {
        true
    }

    open spec fn eq_spec(&self, other: &str) -> bool {
        self@ == other@
    }
}

/// Compares the stored lexeme with a string, character by character.
impl PartialEq<str> for SdmxDateTime {
    fn eq(&self, other: &str) -> (r: bool) {
        same_text(self.as_str(), other)
    }
}

impl vstd::std_specs::cmp::PartialEqSpecImpl<&str> for SdmxDateTime {
    open spec fn obeys_eq_spec() -> bool {
        true
    }

    open spec fn eq_spec(&self, other: &&str) -> bool {
        self@ == other@
    }
}

/// Compares the stored lexeme with a string, character by character.
impl PartialEq<&str> for SdmxDateTime {
    fn eq(&self, other: &&str) -> (r: bool) {
        same_text(self.as_str(), *other)
    }
}

/// Nine `'0'` digits (or any run of them) read as zero.
proof fn lemma_zeros_value(s: Seq<char>)
    requires
        forall|i: int| 0 <= i < s.len() ==> s[i] == '0',
    ensures
        digits_value(s) == 0,
    decreases s.len(),
{
    if s.len() > 0 {
        lemma_zeros_value(s.drop_last());
    }
}

/// The time of day handed to chrono is the lexeme's own clock. For a date-time written
/// `<date>Thh:mm:ss` (with no fraction, and a `Z`, a `±hh:mm` or no timezone), whenever a
/// date-time is derived it joins some date with the time chrono builds from the written hour
/// (`24` read as `00` of the next day), minute and second, and zero nanoseconds.
pub proof fn lemma_date_time_keeps_clock(
    date: Seq<char>,
    h1: char,
    h2: char,
    m1: char,
    m2: char,
    s1: char,
    s2: char,
    tz: Seq<char>,
)
    requires
        !date.contains('T'),
        is_digit(h1),
        is_digit(h2),
        is_digit(m1),
        is_digit(m2),
        is_digit(s1),
        is_digit(s2),
        tz.len() == 0 || tz == seq!['Z'] || tz_shape(tz),
    ensures
        ({
            let lexeme = date + seq!['T', h1, h2, ':', m1, m2, ':', s1, s2] + tz;
            let hour = digit_val(h1) * 10 + digit_val(h2);
            let minute = digit_val(m1) * 10 + digit_val(m2);
            let second = digit_val(s1) * 10 + digit_val(s2);
            derived_date_time(lexeme) matches Some(dt) ==> exists|day: NaiveDate, clock: NaiveTime|
                #[trigger] date_time_of(day, clock) == dt && time_from_hms_nano(
                    (if hour == 24 {
                        0
                    } else {
                        hour
                    }) as u32,
                    minute as u32,
                    second as u32,
                    0,
                ) == Some(clock)
        }),
{
    let clock = seq!['T', h1, h2, ':', m1, m2, ':', s1, s2];
    let core = date + clock;
    let lexeme = core + tz;
    // The timezone splits off exactly.
    if tz.len() == 0 {
        assert(lexeme =~= core);
        assert(lexeme.last() == s2);
        assert(lexeme.subrange(lexeme.len() - 6, lexeme.len() as int)[0] == ':');
        assert(split_timezone(lexeme).0 == core);
    } else if tz == seq!['Z'] {
        assert(lexeme.last() == 'Z');
        assert(lexeme.drop_last() =~= core);
        assert(split_timezone(lexeme).0 == core);
    } else {
        assert(lexeme.last() == tz[5]);
        assert(lexeme.subrange(lexeme.len() - 6, lexeme.len() as int) =~= tz);
        assert(lexeme.subrange(0, lexeme.len() - 6) =~= core);
        assert(split_timezone(lexeme).0 == core);
    }
    // The date and the clock part at the first `T`.
    lemma_find_char(core, 'T', 0);
    let f = find_char(core, 'T', 0);
    assert(core[date.len() as int] == 'T');
    if f < date.len() {
        assert(date[f] == core[f]);
        assert(date.contains('T'));
    }
    assert(f == date.len());
    assert(core.subrange(0, f) =~= date);
    let t = core.subrange(f + 1, core.len() as int);
    assert(t =~= seq![h1, h2, ':', m1, m2, ':', s1, s2]);
    assert(split_at_char(core, 'T') == Some((date, t)));
    // No fraction; the fields at the two colons.
    lemma_find_char(t, '.', 0);
    assert(find_char(t, '.', 0) == t.len()) by {
        let g = find_char(t, '.', 0);
        if g < t.len() {
            assert(t[g] == '.');
        }
    }
    assert(split_at_char(t, '.') is None);
    lemma_find_char(t, ':', 0);
    assert(t[0] != ':' && t[1] != ':' && t[2] == ':');
    assert(find_char(t, ':', 0) == 2);
    let hs = t.subrange(0, 2);
    let rest = t.subrange(3, 8);
    assert(hs =~= seq![h1, h2]);
    assert(rest =~= seq![m1, m2, ':', s1, s2]);
    lemma_find_char(rest, ':', 0);
    assert(rest[0] != ':' && rest[1] != ':' && rest[2] == ':');
    assert(find_char(rest, ':', 0) == 2);
    let ms = rest.subrange(0, 2);
    let ss = rest.subrange(3, 5);
    assert(ms =~= seq![m1, m2]);
    assert(ss =~= seq![s1, s2]);
    assert(time_fields(t) == Some((hs, ms, ss, Seq::<char>::empty())));
    // Each field reads as its two digits.
    crate::digits::lemma_two_digits(hs);
    crate::digits::lemma_two_digits(ms);
    crate::digits::lemma_two_digits(ss);
    assert(all_digits(hs)) by {
        assert forall|i: int| 0 <= i < hs.len() implies #[trigger] is_digit(hs[i]) by {}
    }
    assert(all_digits(ms)) by {
        assert forall|i: int| 0 <= i < ms.len() implies #[trigger] is_digit(ms[i]) by {}
    }
    assert(all_digits(ss)) by {
        assert forall|i: int| 0 <= i < ss.len() implies #[trigger] is_digit(ss[i]) by {}
    }
    let hour = digit_val(h1) * 10 + digit_val(h2);
    let minute = digit_val(m1) * 10 + digit_val(m2);
    let second = digit_val(s1) * 10 + digit_val(s2);
    assert(bounded_value(hs, u32::MAX as int) == Some(hour as int));
    assert(bounded_value(ms, u32::MAX as int) == Some(minute as int));
    assert(bounded_value(ss, u32::MAX as int) == Some(second as int));
    let nine = pad9(Seq::<char>::empty());
    assert(forall|i: int| 0 <= i < nine.len() ==> nine[i] == '0');
    lemma_zeros_value(nine);
    assert(all_digits(Seq::<char>::empty()));
    assert(frac_nanos(Seq::<char>::empty()) == Some(0int));
    if let Some(dt) = derived_date_time(lexeme) {
        match (date_fields(date), time_fields(t)) {
            (Some((ys, mos, ds)), Some(_)) => {
                match (
                    bounded_value(ys, i32::MAX as int),
                    bounded_value(mos, u32::MAX as int),
                    bounded_value(ds, u32::MAX as int),
                ) {
                    (Some(y), Some(mo), Some(da)) => {
                        let yy = if date_is_bc(date) {
                            -y
                        } else {
                            y
                        };
                        assert(date_time_from_parts(yy, mo, da, hour as int, minute as int, second as int, 0)
                            == Some(dt));
                        let day0 = date_from_ymd(yy as i32, mo as u32, da as u32)->0;
                        let day = if hour == 24 {
                            date_succ(day0)->0
                        } else {
                            day0
                        };
                        let h = if hour == 24 {
                            0
                        } else {
                            hour
                        };
                        let clock_t = time_from_hms_nano(h as u32, minute as u32, second as u32, 0)->0;
                        assert(date_time_of(day, clock_t) == dt);
                    },
                    _ => {},
                }
            },
            _ => {},
        }
    }
}

impl AsRef<str> for SdmxDateTime {
    fn as_ref(&self) -> (r: &str)
        ensures
            r@ == self@,
    {
        self.raw.as_str()
    }
}

impl core::str::FromStr for SdmxDateTime {
    type Err = Error;

    fn from_str(s: &str) -> (r: Result<Self, Error>)
        ensures
            match r {
                Ok(v) => is_xs_date_time(s@) && v@ == s@,
                Err(e) => !is_xs_date_time(s@) && (e matches Error::InvalidDateTime(t) && t@ == s@),
            },
    {
        Self::new(s.to_owned())
    }
}

} // verus!

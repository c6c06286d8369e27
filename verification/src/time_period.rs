//! SDMX time vocabularies: `StandardTimePeriodType` (Gregorian periods, `xs:dateTime`,
//! reporting periods), `TimeRangeType` (`start/duration`), and their union
//! `ObservationalTimePeriodType`.
use crate::chars::{same_text, 
    all_digits, chars_of, exec_is_alpha, exec_is_digit, find_char, is_alpha, is_digit,
    lemma_find_char, scan_to_char, slice_chars,
};
use crate::digits::{digits_value, exec_num_in, num_in};
use crate::error::Error;
use crate::lexical::{duration_body_ok, is_duration_body};
use vstd::prelude::*;

verus! {

/// Which member of `StandardTimePeriodType` a value belongs to.
#[derive(Clone, Copy, Debug, PartialEq, Eq, Structural, Hash)]
pub enum SdmxTimePeriodKind {
    /// `xs:gYear` (`YYYY`).
    GregorianYear,
    /// `xs:gYearMonth` (`YYYY-MM`).
    GregorianYearMonth,
    /// `xs:date` (`YYYY-MM-DD`).
    GregorianDay,
    /// `xs:dateTime` (`YYYY-MM-DDThh:mm:ss`).
    DateTime,
    /// `YYYY-A1`.
    ReportingYear,
    /// `YYYY-S1`..`YYYY-S2`.
    ReportingSemester,
    /// `YYYY-T1`..`YYYY-T3`.
    ReportingTrimester,
    /// `YYYY-Q1`..`YYYY-Q4`.
    ReportingQuarter,
    /// `YYYY-M01`..`YYYY-M12`.
    ReportingMonth,
    /// `YYYY-W01`..`YYYY-W53`.
    ReportingWeek,
    /// `YYYY-D001`..`YYYY-D366`.
    ReportingDay,
}

/// A calendar granularity: a time-period kind with the calendar-system axis collapsed.
#[derive(Clone, Copy, Debug, PartialEq, Eq, Structural, Hash)]
pub enum Granularity {
    Year,
    Semester,
    Trimester,
    Quarter,
    Month,
    Week,
    Day,
    Instant,
}

/// The granularity of each kind.
pub open spec fn kind_granularity(k: SdmxTimePeriodKind) -> Granularity {
    match k {
        SdmxTimePeriodKind::GregorianYear | SdmxTimePeriodKind::ReportingYear => Granularity::Year,
        SdmxTimePeriodKind::ReportingSemester => Granularity::Semester,
        SdmxTimePeriodKind::ReportingTrimester => Granularity::Trimester,
        SdmxTimePeriodKind::ReportingQuarter => Granularity::Quarter,
        SdmxTimePeriodKind::GregorianYearMonth
        | SdmxTimePeriodKind::ReportingMonth => Granularity::Month,
        SdmxTimePeriodKind::ReportingWeek => Granularity::Week,
        SdmxTimePeriodKind::GregorianDay | SdmxTimePeriodKind::ReportingDay => Granularity::Day,
        SdmxTimePeriodKind::DateTime => Granularity::Instant,
    }
}

impl SdmxTimePeriodKind {
    /// Projects the kind onto its calendar granularity (a Gregorian and a reporting year are
    /// both a year).
    pub fn granularity(self) -> (r: Granularity)
        ensures
            r == kind_granularity(self),
    {
        match self {
            SdmxTimePeriodKind::GregorianYear | SdmxTimePeriodKind::ReportingYear => {
                Granularity::Year
            },
            SdmxTimePeriodKind::ReportingSemester => Granularity::Semester,
            SdmxTimePeriodKind::ReportingTrimester => Granularity::Trimester,
            SdmxTimePeriodKind::ReportingQuarter => Granularity::Quarter,
            SdmxTimePeriodKind::GregorianYearMonth | SdmxTimePeriodKind::ReportingMonth => {
                Granularity::Month
            },
            SdmxTimePeriodKind::ReportingWeek => Granularity::Week,
            SdmxTimePeriodKind::GregorianDay | SdmxTimePeriodKind::ReportingDay => {
                Granularity::Day
            },
            SdmxTimePeriodKind::DateTime => Granularity::Instant,
        }
    }
}

/// `±hh:mm` in shape (digits and separators, not yet range-checked).
pub open spec fn tz_shape(t: Seq<char>) -> bool {
    &&& t.len() == 6
    &&& (t[0] == '+' || t[0] == '-')
    &&& is_digit(t[1])
    &&& is_digit(t[2])
    &&& t[3] == ':'
    &&& is_digit(t[4])
    &&& is_digit(t[5])
}

/// A trailing `Z`, or a trailing `±hh:mm` shape, split off the end.
pub open spec fn split_timezone(s: Seq<char>) -> (Seq<char>, Option<Seq<char>>) {
    if s.len() > 0 && s.last() == 'Z' {
        (s.drop_last(), Some(seq!['Z']))
    } else if s.len() >= 6 && tz_shape(s.subrange(s.len() - 6, s.len() as int)) {
        (s.subrange(0, s.len() - 6), Some(s.subrange(s.len() - 6, s.len() as int)))
    } else {
        (s, None)
    }
}

/// `Z`, or `±hh:mm` within `-14:00`..`+14:00`.
pub open spec fn valid_timezone(tz: Seq<char>) -> bool {
    tz == seq!['Z'] || {
        &&& tz.len() == 6
        &&& (tz[0] == '+' || tz[0] == '-')
        &&& tz[3] == ':'
        &&& num_in(tz.subrange(1, 3), 2, 0, 14)
        &&& num_in(tz.subrange(4, 6), 2, 0, 59)
        &&& (digits_value(tz.subrange(1, 3)) == 14 ==> digits_value(tz.subrange(4, 6)) == 0)
    }
}

/// An `xs:gYear` year: four or more digits, not all zero, and no leading zero past four.
pub open spec fn is_year(s: Seq<char>) -> bool {
    &&& s.len() >= 4
    &&& all_digits(s)
    &&& exists|i: int| 0 <= i < s.len() && s[i] != '0'
    &&& (s.len() == 4 || s[0] != '0')
}

/// A Gregorian year, year-month or date (optional leading `-` for a BC year).
pub open spec fn classify_gregorian(core: Seq<char>) -> Option<SdmxTimePeriodKind> {
    let body = if core.len() > 0 && core[0] == '-' {
        core.drop_first()
    } else {
        core
    };
    let i1 = find_char(body, '-', 0);
    if !is_year(body.subrange(0, i1)) {
        None
    } else if i1 >= body.len() {
        Some(SdmxTimePeriodKind::GregorianYear)
    } else {
        let r1 = body.subrange(i1 + 1, body.len() as int);
        let i2 = find_char(r1, '-', 0);
        let month = r1.subrange(0, i2);
        if i2 >= r1.len() {
            if num_in(month, 2, 1, 12) {
                Some(SdmxTimePeriodKind::GregorianYearMonth)
            } else {
                None
            }
        } else {
            let day = r1.subrange(i2 + 1, r1.len() as int);
            if !day.contains('-') && num_in(month, 2, 1, 12) && num_in(day, 2, 1, 31) {
                Some(SdmxTimePeriodKind::GregorianDay)
            } else {
                None
            }
        }
    }
}

/// An `xs:dateTime` time body: `hh:mm:ss` with an optional fractional-seconds suffix; hour
/// `24` only as the end-of-day `24:00:00` (with an all-zero fraction, if any).
pub open spec fn is_time(time: Seq<char>) -> bool {
    let i = find_char(time, '.', 0);
    let hms = time.subrange(0, i);
    let frac = time.subrange(i + 1, time.len() as int);
    let frac_ok = i >= time.len() || (frac.len() > 0 && all_digits(frac));
    let j1 = find_char(hms, ':', 0);
    let r1 = hms.subrange(j1 + 1, hms.len() as int);
    let j2 = find_char(r1, ':', 0);
    let h = hms.subrange(0, j1);
    let m = r1.subrange(0, j2);
    let sec = r1.subrange(j2 + 1, r1.len() as int);
    if !frac_ok || j1 >= hms.len() || j2 >= r1.len() || sec.contains(':') {
        false
    } else if h == seq!['2', '4'] {
        &&& m == seq!['0', '0']
        &&& sec == seq!['0', '0']
        &&& (i >= time.len() || forall|k: int| 0 <= k < frac.len() ==> frac[k] == '0')
    } else {
        num_in(h, 2, 0, 23) && num_in(m, 2, 0, 59) && num_in(sec, 2, 0, 59)
    }
}

/// A reporting period `YYYY-<letter><number>` (timezone already removed).
pub open spec fn classify_reporting(core: Seq<char>) -> Option<SdmxTimePeriodKind> {
    let designator = core[5];
    let number = core.subrange(6, core.len() as int);
    if !all_digits(number) {
        None
    } else if designator == 'A' && number == seq!['1'] {
        Some(SdmxTimePeriodKind::ReportingYear)
    } else if designator == 'S' && num_in(number, 1, 1, 2) {
        Some(SdmxTimePeriodKind::ReportingSemester)
    } else if designator == 'T' && num_in(number, 1, 1, 3) {
        Some(SdmxTimePeriodKind::ReportingTrimester)
    } else if designator == 'Q' && num_in(number, 1, 1, 4) {
        Some(SdmxTimePeriodKind::ReportingQuarter)
    } else if designator == 'M' && num_in(number, 2, 1, 12) {
        Some(SdmxTimePeriodKind::ReportingMonth)
    } else if designator == 'W' && num_in(number, 2, 1, 53) {
        Some(SdmxTimePeriodKind::ReportingWeek)
    } else if designator == 'D' && num_in(number, 3, 1, 366) {
        Some(SdmxTimePeriodKind::ReportingDay)
    } else {
        None
    }
}

/// The reporting shape: exactly four digits, `-`, then a letter.
pub open spec fn is_reporting_shape(core: Seq<char>) -> bool {
    &&& core.len() >= 6
    &&& all_digits(core.subrange(0, 4))
    &&& core[4] == '-'
    &&& is_alpha(core[5])
}

/// Classifies a `StandardTimePeriodType` value, or `None` when it is outside the union.
pub open spec fn classify_time_period(s: Seq<char>) -> Option<SdmxTimePeriodKind> {
    let (core, tz) = split_timezone(s);
    if tz matches Some(t) && !valid_timezone(t) {
        None
    } else if is_reporting_shape(core) {
        classify_reporting(core)
    } else {
        let t = find_char(core, 'T', 0);
        if t < core.len() {
            if classify_gregorian(core.subrange(0, t)) == Some(SdmxTimePeriodKind::GregorianDay)
                && is_time(core.subrange(t + 1, core.len() as int)) {
                Some(SdmxTimePeriodKind::DateTime)
            } else {
                None
            }
        } else {
            classify_gregorian(core)
        }
    }
}

/// `TimeRangeType`: `start/duration` with a full date or date-time start (optional timezone)
/// and a non-empty ordered duration.
pub open spec fn is_time_range(s: Seq<char>) -> bool {
    let i = find_char(s, '/', 0);
    &&& i < s.len()
    &&& (classify_time_period(s.subrange(0, i)) == Some(SdmxTimePeriodKind::GregorianDay)
        || classify_time_period(s.subrange(0, i)) == Some(SdmxTimePeriodKind::DateTime))
    &&& is_duration_body(s.subrange(i + 1, s.len() as int))
}

// ---------------------------------------------------------------------------
// Scanners
// ---------------------------------------------------------------------------

fn exec_tz_shape(t: &[char]) -> (r: bool)
    ensures
        r == tz_shape(t@),
{
    t.len() == 6 && (t[0] == '+' || t[0] == '-') && exec_is_digit(t[1]) && exec_is_digit(t[2])
        && t[3] == ':' && exec_is_digit(t[4]) && exec_is_digit(t[5])
}

/// Splits a trailing timezone off `s`.
/// Whether `tz` is `Z` or a `±hh:mm` offset within `-14:00`..`+14:00`.
pub fn is_valid_timezone(tz: &str) -> (r: bool)
    ensures
        r == valid_timezone(tz@),
{
    let cs = chars_of(tz);
    exec_valid_timezone(cs.as_slice())
}

pub(crate) fn exec_split_timezone(s: &[char]) -> (r: (Vec<char>, Option<Vec<char>>))
    ensures
        r.0@ == split_timezone(s@).0,
        match r.1 {
            Some(t) => split_timezone(s@).1 == Some(t@),
            None => split_timezone(s@).1 is None,
        },
{
    let n = s.len();
    if n > 0 && s[n - 1] == 'Z' {
        let head = slice_chars(s, 0, n - 1);
        let z: Vec<char> = vec!['Z'];
        assert(head@ =~= s@.drop_last());
        assert(z@ =~= seq!['Z']);
        return (head, Some(z));
    }
    if n >= 6 {
        let tail = slice_chars(s, n - 6, n);
        if exec_tz_shape(tail.as_slice()) {
            let head = slice_chars(s, 0, n - 6);
            return (head, Some(tail));
        }
    }
    let all = slice_chars(s, 0, n);
    assert(all@ =~= s@);
    (all, None)
}

fn exec_valid_timezone(tz: &[char]) -> (r: bool)
    ensures
        r == valid_timezone(tz@),
{
    if tz.len() == 1 && tz[0] == 'Z' {
        assert(tz@ =~= seq!['Z']);
        return true;
    }
    assert(tz@ != seq!['Z']);
    if tz.len() != 6 || !(tz[0] == '+' || tz[0] == '-') || tz[3] != ':' {
        return false;
    }
    let hh = slice_chars(tz, 1, 3);
    let mm = slice_chars(tz, 4, 6);
    if !exec_num_in(hh.as_slice(), 2, 0, 14) || !exec_num_in(mm.as_slice(), 2, 0, 59) {
        return false;
    }
    let h14 = hh[0] == '1' && hh[1] == '4';
    let m00 = mm[0] == '0' && mm[1] == '0';
    proof {
        crate::digits::lemma_two_digits(hh@);
        crate::digits::lemma_two_digits(mm@);
        assert(is_digit(hh@[0]) && is_digit(hh@[1]));
        assert(is_digit(mm@[0]) && is_digit(mm@[1]));
        assert(h14 == (digits_value(hh@) == 14));
        assert(m00 == (digits_value(mm@) == 0));
    }
    !h14 || m00
}

fn exec_is_year(s: &[char]) -> (r: bool)
    ensures
        r == is_year(s@),
{
    if s.len() < 4 || (s.len() > 4 && s[0] == '0') {
        return false;
    }
    let mut k: usize = 0;
    let mut nonzero = false;
    while k < s.len()
        invariant
            k <= s@.len(),
            forall|m: int| 0 <= m < k ==> #[trigger] is_digit(s@[m]),
            nonzero == exists|m: int| 0 <= m < k && #[trigger] s@[m] != '0',
        decreases s@.len() - k,
    {
        if !exec_is_digit(s[k]) {
            return false;
        }
        if s[k] != '0' {
            nonzero = true;
        }
        k = k + 1;
    }
    nonzero
}

fn all_digits_exec(s: &[char]) -> (r: bool)
    ensures
        r == all_digits(s@),
{
    let mut k: usize = 0;
    while k < s.len()
        invariant
            k <= s@.len(),
            forall|m: int| 0 <= m < k ==> #[trigger] is_digit(s@[m]),
        decreases s@.len() - k,
    {
        if !exec_is_digit(s[k]) {
            return false;
        }
        k = k + 1;
    }
    true
}

fn contains_exec(s: &[char], c: char) -> (r: bool)
    ensures
        r == s@.contains(c),
{
    let k = scan_to_char(s, c, 0);
    proof {
        lemma_find_char(s@, c, 0);
    }
    k < s.len()
}

fn exec_classify_gregorian(core: &[char]) -> (r: Option<SdmxTimePeriodKind>)
    ensures
        r == classify_gregorian(core@),
{
    let body = if core.len() > 0 && core[0] == '-' {
        let b = slice_chars(core, 1, core.len());
        assert(b@ =~= core@.drop_first());
        b
    } else {
        let b = slice_chars(core, 0, core.len());
        assert(b@ =~= core@);
        b
    };
    let i1 = scan_to_char(body.as_slice(), '-', 0);
    proof {
        lemma_find_char(body@, '-', 0);
    }
    let year = slice_chars(body.as_slice(), 0, i1);
    if !exec_is_year(year.as_slice()) {
        return None;
    }
    if i1 >= body.len() {
        return Some(SdmxTimePeriodKind::GregorianYear);
    }
    let r1 = slice_chars(body.as_slice(), i1 + 1, body.len());
    let i2 = scan_to_char(r1.as_slice(), '-', 0);
    proof {
        lemma_find_char(r1@, '-', 0);
    }
    let month = slice_chars(r1.as_slice(), 0, i2);
    if i2 >= r1.len() {
        if exec_num_in(month.as_slice(), 2, 1, 12) {
            return Some(SdmxTimePeriodKind::GregorianYearMonth);
        } else {
            return None;
        }
    }
    let day = slice_chars(r1.as_slice(), i2 + 1, r1.len());
    if !contains_exec(day.as_slice(), '-') && exec_num_in(month.as_slice(), 2, 1, 12)
        && exec_num_in(day.as_slice(), 2, 1, 31) {
        Some(SdmxTimePeriodKind::GregorianDay)
    } else {
        None
    }
}

fn all_zero_exec(s: &[char]) -> (r: bool)
    ensures
        r == forall|k: int| 0 <= k < s@.len() ==> s@[k] == '0',
{
    let mut k: usize = 0;
    while k < s.len()
        invariant
            k <= s@.len(),
            forall|m: int| 0 <= m < k ==> s@[m] == '0',
        decreases s@.len() - k,
    {
        if s[k] != '0' {
            return false;
        }
        k = k + 1;
    }
    true
}

fn exec_is_time(time: &[char]) -> (r: bool)
    ensures
        r == is_time(time@),
{
    let i = scan_to_char(time, '.', 0);
    proof {
        lemma_find_char(time@, '.', 0);
    }
    let hms = slice_chars(time, 0, i);
    let frac = if i < time.len() {
        slice_chars(time, i + 1, time.len())
    } else {
        let e: Vec<char> = Vec::new();
        e
    };
    let ghost frac_spec = time@.subrange(i + 1, time@.len() as int);
    let frac_ok = i >= time.len() || (frac.len() > 0 && all_digits_exec(frac.as_slice()));
    assert(i < time@.len() ==> frac@ == frac_spec);
    let j1 = scan_to_char(hms.as_slice(), ':', 0);
    proof {
        lemma_find_char(hms@, ':', 0);
    }
    if !frac_ok || j1 >= hms.len() {
        return false;
    }
    let r1 = slice_chars(hms.as_slice(), j1 + 1, hms.len());
    let j2 = scan_to_char(r1.as_slice(), ':', 0);
    proof {
        lemma_find_char(r1@, ':', 0);
    }
    if j2 >= r1.len() {
        return false;
    }
    let h = slice_chars(hms.as_slice(), 0, j1);
    let m = slice_chars(r1.as_slice(), 0, j2);
    let sec = slice_chars(r1.as_slice(), j2 + 1, r1.len());
    if contains_exec(sec.as_slice(), ':') {
        return false;
    }
    if h.len() == 2 && h[0] == '2' && h[1] == '4' {
        assert(h@ =~= seq!['2', '4']);
        let m00 = m.len() == 2 && m[0] == '0' && m[1] == '0';
        let s00 = sec.len() == 2 && sec[0] == '0' && sec[1] == '0';
        assert(m00 == (m@ == seq!['0', '0'])) by {
            if m00 {
                assert(m@ =~= seq!['0', '0']);
            }
        }
        assert(s00 == (sec@ == seq!['0', '0'])) by {
            if s00 {
                assert(sec@ =~= seq!['0', '0']);
            }
        }
        return m00 && s00 && (i >= time.len() || all_zero_exec(frac.as_slice()));
    }
    assert(h@ != seq!['2', '4']) by {
        if h@ == seq!['2', '4'] {
            assert(h@.len() == 2 && h@[0] == '2' && h@[1] == '4');
        }
    }
    exec_num_in(h.as_slice(), 2, 0, 23) && exec_num_in(m.as_slice(), 2, 0, 59) && exec_num_in(
        sec.as_slice(),
        2,
        0,
        59,
    )
}

fn exec_classify_reporting(core: &[char]) -> (r: Option<SdmxTimePeriodKind>)
    requires
        core@.len() >= 6,
    ensures
        r == classify_reporting(core@),
{
    let designator = core[5];
    let number = slice_chars(core, 6, core.len());
    if !all_digits_exec(number.as_slice()) {
        return None;
    }
    let is_one = number.len() == 1 && number[0] == '1';
    assert(is_one == (number@ == seq!['1'])) by {
        if is_one {
            assert(number@ =~= seq!['1']);
        }
    }
    if designator == 'A' && is_one {
        Some(SdmxTimePeriodKind::ReportingYear)
    } else if designator == 'S' && exec_num_in(number.as_slice(), 1, 1, 2) {
        Some(SdmxTimePeriodKind::ReportingSemester)
    } else if designator == 'T' && exec_num_in(number.as_slice(), 1, 1, 3) {
        Some(SdmxTimePeriodKind::ReportingTrimester)
    } else if designator == 'Q' && exec_num_in(number.as_slice(), 1, 1, 4) {
        Some(SdmxTimePeriodKind::ReportingQuarter)
    } else if designator == 'M' && exec_num_in(number.as_slice(), 2, 1, 12) {
        Some(SdmxTimePeriodKind::ReportingMonth)
    } else if designator == 'W' && exec_num_in(number.as_slice(), 2, 1, 53) {
        Some(SdmxTimePeriodKind::ReportingWeek)
    } else if designator == 'D' && exec_num_in(number.as_slice(), 3, 1, 366) {
        Some(SdmxTimePeriodKind::ReportingDay)
    } else {
        None
    }
}

fn exec_is_reporting_shape(core: &[char]) -> (r: bool)
    ensures
        r == is_reporting_shape(core@),
{
    if core.len() < 6 {
        return false;
    }
    let head = slice_chars(core, 0, 4);
    all_digits_exec(head.as_slice()) && core[4] == '-' && exec_is_alpha(core[5])
}

/// Classifies a `StandardTimePeriodType` value given as characters.
pub fn classify_chars(s: &[char]) -> (r: Option<SdmxTimePeriodKind>)
    ensures
        r == classify_time_period(s@),
{
    let (core, tz) = exec_split_timezone(s);
    if let Some(t) = &tz {
        if !exec_valid_timezone(t.as_slice()) {
            return None;
        }
    }
    if exec_is_reporting_shape(core.as_slice()) {
        return exec_classify_reporting(core.as_slice());
    }
    let t = scan_to_char(core.as_slice(), 'T', 0);
    proof {
        lemma_find_char(core@, 'T', 0);
    }
    if t < core.len() {
        let date = slice_chars(core.as_slice(), 0, t);
        let time = slice_chars(core.as_slice(), t + 1, core.len());
        let day = exec_classify_gregorian(date.as_slice());
        if day == Some(SdmxTimePeriodKind::GregorianDay) && exec_is_time(time.as_slice()) {
            Some(SdmxTimePeriodKind::DateTime)
        } else {
            None
        }
    } else {
        exec_classify_gregorian(core.as_slice())
    }
}

/// Whether `s` (given as characters) is a `TimeRangeType` lexeme.
pub fn time_range_chars(s: &[char]) -> (r: bool)
    ensures
        r == is_time_range(s@),
{
    let i = scan_to_char(s, '/', 0);
    proof {
        lemma_find_char(s@, '/', 0);
    }
    if i >= s.len() {
        return false;
    }
    let start = slice_chars(s, 0, i);
    let duration = slice_chars(s, i + 1, s.len());
    let k = classify_chars(start.as_slice());
    (k == Some(SdmxTimePeriodKind::GregorianDay) || k == Some(SdmxTimePeriodKind::DateTime))
        && duration_body_ok(duration.as_slice())
}

// ---------------------------------------------------------------------------
// The newtypes
// ---------------------------------------------------------------------------

/// An SDMX `StandardTimePeriodType` value, stored verbatim with its classified kind.
#[derive(Debug, PartialEq, Eq, Hash)]
pub struct SdmxTimePeriod {
    raw: String,
    kind: SdmxTimePeriodKind,
}

impl View for SdmxTimePeriod {
    type V = Seq<char>;

    closed spec fn view(&self) -> Seq<char> {
        self.raw@
    }
}

impl Clone for SdmxTimePeriod {
    fn clone(&self) -> (r: Self)
        ensures
            r@ == self@,
    {
        proof {
            use_type_invariant(self);
        }
        SdmxTimePeriod { raw: self.raw.clone(), kind: self.kind }
    }
}

impl SdmxTimePeriod {
    #[verifier::type_invariant]
    closed spec fn well_formed(self) -> bool {
        classify_time_period(self.raw@) == Some(self.kind)
    }

    /// The kind of a (valid) time-period value.
    pub open spec fn spec_kind(&self) -> SdmxTimePeriodKind {
        classify_time_period(self@).unwrap()
    }

    /// Validates `raw` against `StandardTimePeriodType` and classifies it; fails with
    /// `InvalidTimePeriod(raw)` exactly when `raw` is outside the union.
    pub fn new(raw: String) -> (r: Result<Self, Error>)
        ensures
            match r {
                Ok(v) => classify_time_period(raw@) is Some && v@ == raw@,
                Err(e) => classify_time_period(raw@) is None && e == Error::InvalidTimePeriod(raw),
            },
    {
        let cs = chars_of(raw.as_str());
        match classify_chars(cs.as_slice()) {
            Some(kind) => Ok(SdmxTimePeriod { raw, kind }),
            None => Err(Error::InvalidTimePeriod(raw)),
        }
    }

    /// The lexeme, exactly as supplied.
    pub fn as_str(&self) -> (r: &str)
        ensures
            r@ == self@,
            classify_time_period(r@) is Some,
    {
        proof {
            use_type_invariant(self);
        }
        self.raw.as_str()
    }

    /// The classified kind.
    pub fn kind(&self) -> (r: SdmxTimePeriodKind)
        ensures
            Some(r) == classify_time_period(self@),
            r == self.spec_kind(),
    {
        proof {
            use_type_invariant(self);
        }
        self.kind
    }

    /// The lexeme as a new string.
    pub fn to_string(&self) -> (r: String)
        ensures
            r@ == self@,
            classify_time_period(r@) is Some,
    {
        proof {
            use_type_invariant(self);
        }
        self.raw.clone()
    }
}

/// An SDMX `TimeRangeType` value (`start/duration`), stored verbatim.
#[derive(Debug, PartialEq, Eq, Hash)]
pub struct SdmxTimeRange {
    raw: String,
}

impl View for SdmxTimeRange {
    type V = Seq<char>;

    closed spec fn view(&self) -> Seq<char> {
        self.raw@
    }
}

impl Clone for SdmxTimeRange {
    fn clone(&self) -> (r: Self)
        ensures
            r@ == self@,
    {
        proof {
            use_type_invariant(self);
        }
        SdmxTimeRange { raw: self.raw.clone() }
    }
}

/// The start half of a time-range lexeme (everything before the first `/`).
pub open spec fn range_start(s: Seq<char>) -> Seq<char> {
    s.subrange(0, find_char(s, '/', 0))
}

/// The duration half of a time-range lexeme (everything after the first `/`).
pub open spec fn range_duration(s: Seq<char>) -> Seq<char> {
    s.subrange(find_char(s, '/', 0) + 1, s.len() as int)
}

impl SdmxTimeRange {
    #[verifier::type_invariant]
    closed spec fn well_formed(self) -> bool {
        is_time_range(self.raw@)
    }

    /// Validates `raw` against `TimeRangeType` and stores it verbatim; fails with
    /// `InvalidTimeRange(raw)` exactly when `raw` is not a time range.
    pub fn new(raw: String) -> (r: Result<Self, Error>)
        ensures
            match r {
                Ok(v) => is_time_range(raw@) && v@ == raw@,
                Err(e) => !is_time_range(raw@) && e == Error::InvalidTimeRange(raw),
            },
    {
        let cs = chars_of(raw.as_str());
        if time_range_chars(cs.as_slice()) {
            Ok(SdmxTimeRange { raw })
        } else {
            Err(Error::InvalidTimeRange(raw))
        }
    }

    /// The lexeme, exactly as supplied.
    pub fn as_str(&self) -> (r: &str)
        ensures
            r@ == self@,
            is_time_range(r@),
    {
        proof {
            use_type_invariant(self);
        }
        self.raw.as_str()
    }

    /// The start half: a full `xs:date` or `xs:dateTime`, with any stated timezone.
    pub fn start(&self) -> (r: &str)
        ensures
            r@ == range_start(self@),
    {
        proof {
            use_type_invariant(self);
        }
        let s = self.raw.as_str();
        let cs = chars_of(s);
        let i = scan_to_char(cs.as_slice(), '/', 0);
        proof {
            lemma_find_char(cs@, '/', 0);
        }
        s.substring_char(0, i)
    }

    /// The duration half, such as `P2M` or `PT30M`.
    pub fn duration(&self) -> (r: &str)
        ensures
            r@ == range_duration(self@),
    {
        proof {
            use_type_invariant(self);
        }
        let s = self.raw.as_str();
        let cs = chars_of(s);
        let i = scan_to_char(cs.as_slice(), '/', 0);
        proof {
            lemma_find_char(cs@, '/', 0);
        }
        s.substring_char(i + 1, cs.len())
    }

    /// Consumes the value, returning its lexeme.
    pub fn into_inner(self) -> (r: String)
        ensures
            r@ == self@,
    {
        self.raw
    }

    /// The lexeme as a new string.
    pub fn to_string(&self) -> (r: String)
        ensures
            r@ == self@,
            is_time_range(r@),
    {
        proof {
            use_type_invariant(self);
        }
        self.raw.clone()
    }
}

/// `ObservationalTimePeriodType`: a time range when the text holds a `/`, otherwise a
/// standard time period.
pub open spec fn is_observational(s: Seq<char>) -> bool {
    if s.contains('/') {
        is_time_range(s)
    } else {
        classify_time_period(s) is Some
    }
}

/// An SDMX `ObservationalTimePeriodType`: a standard time period or a time range.
#[derive(Clone, Debug, PartialEq, Eq, Hash)]
pub enum ObservationalTimePeriod {
    /// A Gregorian period, an `xs:dateTime`, or a reporting period.
    Standard(SdmxTimePeriod),
    /// A start date or date-time plus a duration.
    Range(SdmxTimeRange),
}

impl View for ObservationalTimePeriod {
    type V = Seq<char>;

    open spec fn view(&self) -> Seq<char> {
        match self {
            ObservationalTimePeriod::Standard(p) => p@,
            ObservationalTimePeriod::Range(r) => r@,
        }
    }
}

impl ObservationalTimePeriod {
    /// Validates `raw` against the union and classifies it into the matching member: a range
    /// exactly when the text holds a `/`. Fails with `InvalidObservationalTimePeriod(raw)`
    /// exactly when `raw` belongs to neither member.
    pub fn new(raw: String) -> (r: Result<Self, Error>)
        ensures
            match r {
                Ok(v) => is_observational(raw@) && v@ == raw@ && (v is Range <==> raw@.contains(
                    '/',
                )),
                Err(e) => !is_observational(raw@) && e == Error::InvalidObservationalTimePeriod(
                    raw,
                ),
            },
    {
        let cs = chars_of(raw.as_str());
        if contains_exec(cs.as_slice(), '/') {
            match SdmxTimeRange::new(raw) {
                Ok(r) => Ok(ObservationalTimePeriod::Range(r)),
                Err(Error::InvalidTimeRange(s)) => Err(Error::InvalidObservationalTimePeriod(s)),
                Err(other) => Err(other),
            }
        } else {
            match SdmxTimePeriod::new(raw) {
                Ok(p) => Ok(ObservationalTimePeriod::Standard(p)),
                Err(Error::InvalidTimePeriod(s)) => Err(Error::InvalidObservationalTimePeriod(s)),
                Err(other) => Err(other),
            }
        }
    }

    /// The lexeme, exactly as supplied.
    pub fn as_str(&self) -> (r: &str)
        ensures
            r@ == self@,
    {
        match self {
            ObservationalTimePeriod::Standard(p) => p.as_str(),
            ObservationalTimePeriod::Range(r) => r.as_str(),
        }
    }

    /// The lexeme as a new string.
    pub fn to_string(&self) -> (r: String)
        ensures
            r@ == self@,
    {
        match self {
            ObservationalTimePeriod::Standard(p) => p.to_string(),
            ObservationalTimePeriod::Range(r) => r.to_string(),
        }
    }
}

impl vstd::std_specs::cmp::PartialEqSpecImpl<str> for SdmxTimePeriod {
    open spec fn obeys_eq_spec() -> bool {
        true
    }

    open spec fn eq_spec(&self, other: &str) -> bool {
        self@ == other@
    }
}

/// Compares the stored lexeme with a string, character by character.
impl PartialEq<str> for SdmxTimePeriod {
    fn eq(&self, other: &str) -> (r: bool) {
        same_text(self.as_str(), other)
    }
}

impl vstd::std_specs::cmp::PartialEqSpecImpl<&str> for SdmxTimePeriod {
    open spec fn obeys_eq_spec() -> bool {
        true
    }

    open spec fn eq_spec(&self, other: &&str) -> bool {
        self@ == other@
    }
}

/// Compares the stored lexeme with a string, character by character.
impl PartialEq<&str> for SdmxTimePeriod {
    fn eq(&self, other: &&str) -> (r: bool) {
        same_text(self.as_str(), *other)
    }
}

impl AsRef<str> for SdmxTimePeriod {
    fn as_ref(&self) -> (r: &str)
        ensures
            r@ == self@,
    {
        self.raw.as_str()
    }
}

impl core::str::FromStr for SdmxTimePeriod {
    type Err = Error;

    fn from_str(s: &str) -> (r: Result<Self, Error>)
        ensures
            match r {
                Ok(v) => classify_time_period(s@) is Some && v@ == s@,
                Err(e) => classify_time_period(s@) is None && (e matches Error::InvalidTimePeriod(t) && t@ == s@),
            },
    {
        Self::new(s.to_owned())
    }
}

impl vstd::std_specs::cmp::PartialEqSpecImpl<str> for SdmxTimeRange {
    open spec fn obeys_eq_spec() -> bool {
        true
    }

    open spec fn eq_spec(&self, other: &str) -> bool {
        self@ == other@
    }
}

/// Compares the stored lexeme with a string, character by character.
impl PartialEq<str> for SdmxTimeRange {
    fn eq(&self, other: &str) -> (r: bool) {
        same_text(self.as_str(), other)
    }
}

impl vstd::std_specs::cmp::PartialEqSpecImpl<&str> for SdmxTimeRange {
    open spec fn obeys_eq_spec() -> bool {
        true
    }

    open spec fn eq_spec(&self, other: &&str) -> bool {
        self@ == other@
    }
}

/// Compares the stored lexeme with a string, character by character.
impl PartialEq<&str> for SdmxTimeRange {
    fn eq(&self, other: &&str) -> (r: bool) {
        same_text(self.as_str(), *other)
    }
}

impl AsRef<str> for SdmxTimeRange {
    fn as_ref(&self) -> (r: &str)
        ensures
            r@ == self@,
    {
        self.raw.as_str()
    }
}

impl vstd::std_specs::convert::FromSpecImpl<SdmxTimeRange> for String {
    open spec fn obeys_from_spec() -> bool {
        true
    }

    closed spec fn from_spec(v: SdmxTimeRange) -> String {
        v.raw
    }
}

impl From<SdmxTimeRange> for String {
    fn from(v: SdmxTimeRange) -> (r: String)
        ensures
            r@ == v@,
    {
        v.raw
    }
}

impl core::str::FromStr for SdmxTimeRange {
    type Err = Error;

    fn from_str(s: &str) -> (r: Result<Self, Error>)
        ensures
            match r {
                Ok(v) => is_time_range(s@) && v@ == s@,
                Err(e) => !is_time_range(s@) && (e matches Error::InvalidTimeRange(t) && t@ == s@),
            },
    {
        Self::new(s.to_owned())
    }
}

impl vstd::std_specs::cmp::PartialEqSpecImpl<str> for ObservationalTimePeriod {
    open spec fn obeys_eq_spec() -> bool {
        true
    }

    open spec fn eq_spec(&self, other: &str) -> bool {
        self@ == other@
    }
}

/// Compares the stored lexeme with a string, character by character.
impl PartialEq<str> for ObservationalTimePeriod {
    fn eq(&self, other: &str) -> (r: bool) {
        same_text(self.as_str(), other)
    }
}

impl vstd::std_specs::cmp::PartialEqSpecImpl<&str> for ObservationalTimePeriod {
    open spec fn obeys_eq_spec() -> bool {
        true
    }

    open spec fn eq_spec(&self, other: &&str) -> bool {
        self@ == other@
    }
}

/// Compares the stored lexeme with a string, character by character.
impl PartialEq<&str> for ObservationalTimePeriod {
    fn eq(&self, other: &&str) -> (r: bool) {
        same_text(self.as_str(), *other)
    }
}

impl AsRef<str> for ObservationalTimePeriod {
    fn as_ref(&self) -> (r: &str)
        ensures
            r@ == self@,
    {
        self.as_str()
    }
}

impl core::str::FromStr for ObservationalTimePeriod {
    type Err = Error;

    fn from_str(s: &str) -> (r: Result<Self, Error>)
        ensures
            match r {
                Ok(v) => is_observational(s@) && v@ == s@ && (v is Range <==> s@.contains('/')),
                Err(e) => !is_observational(s@) && (e matches Error::InvalidObservationalTimePeriod(t) && t@ == s@),
            },
    {
        Self::new(s.to_owned())
    }
}

/// A reporting month `YYYY-Mnn` (four year digits, no timezone) is a valid time period of kind
/// `ReportingMonth` exactly when `nn` is `01` to `12`, and is no time period otherwise.
pub proof fn lemma_reporting_month(year: Seq<char>, d1: char, d2: char)
    requires
        year.len() == 4,
        all_digits(year),
        is_digit(d1),
        is_digit(d2),
    ensures
        classify_time_period(year + seq!['-', 'M', d1, d2]) == (if (d1 == '0' && d2 != '0') || (d1
            == '1' && d2 <= '2') {
            Some(SdmxTimePeriodKind::ReportingMonth)
        } else {
            None
        }),
{
    let s = year + seq!['-', 'M', d1, d2];
    assert(s.len() == 8);
    assert(s.last() == d2);
    assert(s.subrange(2, 8)[0] == year[2]);
    assert(is_digit(year[2]));
    assert(split_timezone(s) == (s, None::<Seq<char>>));
    assert(s.subrange(0, 4) =~= year);
    assert(s[4] == '-' && s[5] == 'M');
    assert(is_reporting_shape(s));
    let number = s.subrange(6, 8);
    assert(number =~= seq![d1, d2]);
    assert(all_digits(number)) by {
        assert forall|i: int| 0 <= i < number.len() implies #[trigger] is_digit(number[i]) by {
            if i == 0 {
                assert(number[i] == d1);
            } else {
                assert(number[i] == d2);
            }
        }
    }
    crate::digits::lemma_two_digits(number);
    assert(digits_value(number) == crate::digits::digit_val(d1) * 10 + crate::digits::digit_val(
        d2,
    ));
}

} // verus!

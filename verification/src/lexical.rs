//! Validated lexical newtypes that store their lexeme verbatim: `xs:decimal`, `xs:integer` and
//! `xs:duration`. Each validates its grammar at construction and never rewrites the text.
use crate::chars::{same_text, 
    all_digits, chars_of, exec_is_digit, find_char, is_digit, lemma_find_char, scan_to_char,
    slice_chars,
};
use crate::digits::{lemma_run_end, run_end};
use crate::error::Error;
use crate::version::scan_digits;
use vstd::prelude::*;

verus! {

/// `s` without a leading `+` or `-`.
pub open spec fn unsigned_part(s: Seq<char>) -> Seq<char> {
    if s.len() > 0 && (s[0] == '+' || s[0] == '-') {
        s.drop_first()
    } else {
        s
    }
}

/// `xs:decimal`: an optional sign, then digits with at most one `.`, at least one digit, and
/// no exponent.
pub open spec fn is_xs_decimal(s: Seq<char>) -> bool {
    let b = unsigned_part(s);
    &&& forall|i: int| 0 <= i < b.len() ==> #[trigger] is_digit(b[i]) || b[i] == '.'
    &&& forall|i: int, j: int|
        0 <= i < j < b.len() ==> !(#[trigger] b[i] == '.' && #[trigger] b[j] == '.')
    &&& exists|i: int| 0 <= i < b.len() && #[trigger] is_digit(b[i])
}

/// `xs:integer`: an optional sign followed by one or more digits.
pub open spec fn is_xs_integer(s: Seq<char>) -> bool {
    let b = unsigned_part(s);
    b.len() > 0 && all_digits(b)
}

/// Every `xs:integer` lexeme is an `xs:decimal` lexeme.
pub proof fn lemma_integer_is_decimal(s: Seq<char>)
    requires
        is_xs_integer(s),
    ensures
        is_xs_decimal(s),
{
    let b = unsigned_part(s);
    assert(is_digit(b[0]));
    assert forall|i: int| 0 <= i < b.len() implies #[trigger] is_digit(b[i]) || b[i] == '.' by {
        assert(is_digit(b[i]));
    }
    assert forall|i: int, j: int| 0 <= i < j < b.len() implies !(#[trigger] b[i] == '.'
        && #[trigger] b[j] == '.') by {
        assert(is_digit(b[i]));
    }
}

fn sign_len(cs: &[char]) -> (r: usize)
    ensures
        cs@.len() > 0 && (cs@[0] == '+' || cs@[0] == '-') ==> r == 1,
        !(cs@.len() > 0 && (cs@[0] == '+' || cs@[0] == '-')) ==> r == 0,
{
    if cs.len() > 0 && (cs[0] == '+' || cs[0] == '-') {
        1
    } else {
        0
    }
}

/// Whether `s` is an `xs:decimal` lexeme.
pub fn is_valid_decimal(s: &str) -> (r: bool)
    ensures
        r == is_xs_decimal(s@),
{
    let cs = chars_of(s);
    let start = sign_len(cs.as_slice());
    let ghost b = unsigned_part(cs@);
    assert(b =~= cs@.subrange(start as int, cs@.len() as int));
    let mut k = start;
    let mut dot: Option<usize> = None;
    let mut seen_digit = false;
    while k < cs.len()
        invariant
            start <= k <= cs@.len(),
            b == cs@.subrange(start as int, cs@.len() as int),
            b == unsigned_part(cs@),
            cs@ == s@,
            forall|i: int| start <= i < k ==> #[trigger] is_digit(cs@[i]) || cs@[i] == '.',
            match dot {
                Some(d) => start <= d < k && cs@[d as int] == '.' && forall|i: int|
                    start <= i < k && #[trigger] cs@[i] == '.' ==> i == d,
                None => forall|i: int| start <= i < k ==> #[trigger] cs@[i] != '.',
            },
            seen_digit == exists|i: int| start <= i < k && #[trigger] is_digit(cs@[i]),
        decreases cs@.len() - k,
    {
        let c = cs[k];
        if exec_is_digit(c) {
            seen_digit = true;
        } else if c == '.' {
            if let Some(d) = dot {
                assert(b[d - start] == cs@[d as int]);
                assert(b[k - start] == cs@[k as int]);
                assert(b[d - start] == '.' && b[k - start] == '.');
                assert(0 <= d - start < k - start < b.len());
                assert(!is_xs_decimal(cs@));
                return false;
            }
            dot = Some(k);
        } else {
            assert(b[k - start] == cs@[k as int]);
            assert(!(is_digit(b[k - start]) || b[k - start] == '.'));
            assert(!is_xs_decimal(cs@));
            return false;
        }
        k = k + 1;
    }
    proof {
        assert forall|i: int| 0 <= i < b.len() implies #[trigger] is_digit(b[i]) || b[i] == '.' by {
            assert(b[i] == cs@[start + i]);
        }
        assert forall|i: int, j: int| 0 <= i < j < b.len() implies !(#[trigger] b[i] == '.'
            && #[trigger] b[j] == '.') by {
            assert(b[i] == cs@[start + i]);
            assert(b[j] == cs@[start + j]);
        }
        if seen_digit {
            let w = choose|i: int| start <= i < k && #[trigger] is_digit(cs@[i]);
            assert(b[w - start] == cs@[w]);
        } else {
            assert forall|i: int| 0 <= i < b.len() implies !#[trigger] is_digit(b[i]) by {
                assert(b[i] == cs@[start + i]);
            }
        }
    }
    seen_digit
}

/// Whether `s` is an `xs:integer` lexeme.
pub fn is_valid_integer(s: &str) -> (r: bool)
    ensures
        r == is_xs_integer(s@),
{
    let cs = chars_of(s);
    let start = sign_len(cs.as_slice());
    let ghost b = unsigned_part(cs@);
    assert(b =~= cs@.subrange(start as int, cs@.len() as int));
    if start == cs.len() {
        return false;
    }
    let end = scan_digits(cs.as_slice(), start);
    proof {
        lemma_run_end(cs@, start as int);
        if end < cs@.len() {
            assert(b[end - start] == cs@[end as int]);
        } else {
            assert forall|i: int| 0 <= i < b.len() implies #[trigger] is_digit(b[i]) by {
                assert(b[i] == cs@[start + i]);
            }
        }
    }
    end == cs.len()
}

/// An SDMX `xs:decimal` value, stored losslessly as its lexeme.
#[derive(Debug, PartialEq, Eq, Hash)]
pub struct SdmxDecimal(String);

impl View for SdmxDecimal {
    type V = Seq<char>;

    closed spec fn view(&self) -> Seq<char> {
        self.0@
    }
}

impl Clone for SdmxDecimal {
    fn clone(&self) -> (r: Self)
        ensures
            r@ == self@,
    {
        proof {
            use_type_invariant(self);
        }
        SdmxDecimal(self.0.clone())
    }
}

impl SdmxDecimal {
    #[verifier::type_invariant]
    closed spec fn well_formed(self) -> bool {
        is_xs_decimal(self.0@)
    }

    /// Validates `s` against `xs:decimal` and stores it verbatim; fails with
    /// `InvalidDecimal(s)` exactly when `s` is not a decimal lexeme.
    pub fn new(s: String) -> (r: Result<Self, Error>)
        ensures
            match r {
                Ok(v) => is_xs_decimal(s@) && v@ == s@,
                Err(e) => !is_xs_decimal(s@) && e == Error::InvalidDecimal(s),
            },
    {
        if is_valid_decimal(s.as_str()) {
            Ok(SdmxDecimal(s))
        } else {
            Err(Error::InvalidDecimal(s))
        }
    }

    /// The lexeme, exactly as supplied.
    pub fn as_str(&self) -> (r: &str)
        ensures
            r@ == self@,
            is_xs_decimal(r@),
    {
        proof {
            use_type_invariant(self);
        }
        self.0.as_str()
    }

    /// Consumes the value, returning its lexeme.
    pub fn into_inner(self) -> (r: String)
        ensures
            r@ == self@,
    {
        self.0
    }

    /// The lexeme as a new string.
    pub fn to_string(&self) -> (r: String)
        ensures
            r@ == self@,
            is_xs_decimal(r@),
    {
        proof {
            use_type_invariant(self);
        }
        self.0.clone()
    }
}

/// An SDMX `xs:integer` value, stored losslessly as its lexeme.
#[derive(Debug, PartialEq, Eq, Hash)]
pub struct SdmxInteger(String);

impl View for SdmxInteger {
    type V = Seq<char>;

    closed spec fn view(&self) -> Seq<char> {
        self.0@
    }
}

impl Clone for SdmxInteger {
    fn clone(&self) -> (r: Self)
        ensures
            r@ == self@,
    {
        proof {
            use_type_invariant(self);
        }
        SdmxInteger(self.0.clone())
    }
}

impl SdmxInteger {
    #[verifier::type_invariant]
    closed spec fn well_formed(self) -> bool {
        is_xs_integer(self.0@)
    }

    /// Validates `s` against `xs:integer` and stores it verbatim; fails with
    /// `InvalidInteger(s)` exactly when `s` is not an integer lexeme.
    pub fn new(s: String) -> (r: Result<Self, Error>)
        ensures
            match r {
                Ok(v) => is_xs_integer(s@) && v@ == s@,
                Err(e) => !is_xs_integer(s@) && e == Error::InvalidInteger(s),
            },
    {
        if is_valid_integer(s.as_str()) {
            Ok(SdmxInteger(s))
        } else {
            Err(Error::InvalidInteger(s))
        }
    }

    /// The lexeme, exactly as supplied.
    pub fn as_str(&self) -> (r: &str)
        ensures
            r@ == self@,
            is_xs_integer(r@),
    {
        proof {
            use_type_invariant(self);
        }
        self.0.as_str()
    }

    /// Consumes the value, returning its lexeme.
    pub fn into_inner(self) -> (r: String)
        ensures
            r@ == self@,
    {
        self.0
    }

    /// The lexeme as a new string.
    pub fn to_string(&self) -> (r: String)
        ensures
            r@ == self@,
            is_xs_integer(r@),
    {
        proof {
            use_type_invariant(self);
        }
        self.0.clone()
    }
}

impl vstd::std_specs::convert::FromSpecImpl<SdmxInteger> for SdmxDecimal {
    open spec fn obeys_from_spec() -> bool {
        true
    }

    closed spec fn from_spec(i: SdmxInteger) -> SdmxDecimal {
        SdmxDecimal(i.0)
    }
}

/// Widens an integer: its lexeme carries over verbatim.
impl From<SdmxInteger> for SdmxDecimal {
    fn from(i: SdmxInteger) -> (r: SdmxDecimal)
        ensures
            r@ == i@,
    {
        proof {
            use_type_invariant(&i);
            lemma_integer_is_decimal(i@);
        }
        SdmxDecimal(i.0)
    }
}

impl vstd::std_specs::convert::TryFromSpecImpl<SdmxDecimal> for SdmxInteger {
    open spec fn obeys_try_from_spec() -> bool {
        true
    }

    closed spec fn try_from_spec(d: SdmxDecimal) -> Result<SdmxInteger, Error> {
        if is_xs_integer(d.0@) {
            Ok(SdmxInteger(d.0))
        } else {
            Err(Error::InvalidInteger(d.0))
        }
    }
}

/// Narrows a decimal by lexical validation only: succeeds exactly when the decimal's text is
/// already an integer lexeme (`"42"`, not `"42.0"`), never rewriting it.
impl TryFrom<SdmxDecimal> for SdmxInteger {
    type Error = Error;

    fn try_from(d: SdmxDecimal) -> (r: Result<SdmxInteger, Error>)
        ensures
            match r {
                Ok(i) => is_xs_integer(d@) && i@ == d@,
                Err(e) => !is_xs_integer(d@) && (e matches Error::InvalidInteger(t) && t@ == d@),
            },
    {
        if is_valid_integer(d.0.as_str()) {
            Ok(SdmxInteger(d.0))
        } else {
            Err(Error::InvalidInteger(d.0))
        }
    }
}

/// Widening an integer to a decimal keeps its lexeme, and narrowing that decimal back gives
/// the same integer: the conversion is lossless in both directions.
pub proof fn lemma_integer_decimal_round_trip(i: SdmxInteger)
    requires
        is_xs_integer(i@),
    ensures
        <SdmxDecimal as vstd::std_specs::convert::FromSpec<SdmxInteger>>::from_spec(i)@ == i@,
        <SdmxInteger as vstd::std_specs::convert::TryFromSpec<SdmxDecimal>>::try_from_spec(
            <SdmxDecimal as vstd::std_specs::convert::FromSpec<SdmxInteger>>::from_spec(i),
        ) == Ok::<SdmxInteger, Error>(i),
{
}

impl vstd::std_specs::cmp::PartialEqSpecImpl<str> for SdmxDecimal {
    open spec fn obeys_eq_spec() -> bool {
        true
    }

    open spec fn eq_spec(&self, other: &str) -> bool {
        self@ == other@
    }
}

/// Compares the stored lexeme with a string, character by character.
impl PartialEq<str> for SdmxDecimal {
    fn eq(&self, other: &str) -> (r: bool) {
        same_text(self.as_str(), other)
    }
}

impl vstd::std_specs::cmp::PartialEqSpecImpl<&str> for SdmxDecimal {
    open spec fn obeys_eq_spec() -> bool {
        true
    }

    open spec fn eq_spec(&self, other: &&str) -> bool {
        self@ == other@
    }
}

/// Compares the stored lexeme with a string, character by character.
impl PartialEq<&str> for SdmxDecimal {
    fn eq(&self, other: &&str) -> (r: bool) {
        same_text(self.as_str(), *other)
    }
}

impl AsRef<str> for SdmxDecimal {
    fn as_ref(&self) -> (r: &str)
        ensures
            r@ == self@,
    {
        self.0.as_str()
    }
}

impl vstd::std_specs::convert::FromSpecImpl<SdmxDecimal> for String {
    open spec fn obeys_from_spec() -> bool {
        true
    }

    closed spec fn from_spec(v: SdmxDecimal) -> String {
        v.0
    }
}

impl From<SdmxDecimal> for String {
    fn from(v: SdmxDecimal) -> (r: String)
        ensures
            r@ == v@,
    {
        v.0
    }
}

impl core::str::FromStr for SdmxDecimal {
    type Err = Error;

    fn from_str(s: &str) -> (r: Result<Self, Error>)
        ensures
            match r {
                Ok(v) => is_xs_decimal(s@) && v@ == s@,
                Err(e) => !is_xs_decimal(s@) && (e matches Error::InvalidDecimal(t) && t@ == s@),
            },
    {
        Self::new(s.to_owned())
    }
}

impl vstd::std_specs::cmp::PartialEqSpecImpl<str> for SdmxInteger {
    open spec fn obeys_eq_spec() -> bool {
        true
    }

    open spec fn eq_spec(&self, other: &str) -> bool {
        self@ == other@
    }
}

/// Compares the stored lexeme with a string, character by character.
impl PartialEq<str> for SdmxInteger {
    fn eq(&self, other: &str) -> (r: bool) {
        same_text(self.as_str(), other)
    }
}

impl vstd::std_specs::cmp::PartialEqSpecImpl<&str> for SdmxInteger {
    open spec fn obeys_eq_spec() -> bool {
        true
    }

    open spec fn eq_spec(&self, other: &&str) -> bool {
        self@ == other@
    }
}

/// Compares the stored lexeme with a string, character by character.
impl PartialEq<&str> for SdmxInteger {
    fn eq(&self, other: &&str) -> (r: bool) {
        same_text(self.as_str(), *other)
    }
}

impl AsRef<str> for SdmxInteger {
    fn as_ref(&self) -> (r: &str)
        ensures
            r@ == self@,
    {
        self.0.as_str()
    }
}

impl vstd::std_specs::convert::FromSpecImpl<SdmxInteger> for String {
    open spec fn obeys_from_spec() -> bool {
        true
    }

    closed spec fn from_spec(v: SdmxInteger) -> String {
        v.0
    }
}

impl From<SdmxInteger> for String {
    fn from(v: SdmxInteger) -> (r: String)
        ensures
            r@ == v@,
    {
        v.0
    }
}

impl core::str::FromStr for SdmxInteger {
    type Err = Error;

    fn from_str(s: &str) -> (r: Result<Self, Error>)
        ensures
            match r {
                Ok(v) => is_xs_integer(s@) && v@ == s@,
                Err(e) => !is_xs_integer(s@) && (e matches Error::InvalidInteger(t) && t@ == s@),
            },
    {
        Self::new(s.to_owned())
    }
}

// ---------------------------------------------------------------------------
// xs:duration
// ---------------------------------------------------------------------------

/// The index of `u` in `units`, or `-1`.
pub open spec fn unit_index(units: Seq<char>, u: char) -> int
    decreases units.len(),
{
    if units.len() == 0 {
        -1
    } else if units[0] == u {
        0
    } else if unit_index(units.drop_first(), u) < 0 {
        -1
    } else {
        unit_index(units.drop_first(), u) + 1
    }
}

proof fn lemma_unit_index(units: Seq<char>, u: char)
    ensures
        -1 <= unit_index(units, u) < units.len(),
        unit_index(units, u) >= 0 ==> units[unit_index(units, u)] == u,
        unit_index(units, u) < 0 ==> !units.contains(u),
    decreases units.len(),
{
    if units.len() > 0 {
        lemma_unit_index(units.drop_first(), u);
        if unit_index(units, u) < 0 {
            assert forall|k: int| 0 <= k < units.len() implies units[k] != u by {
                if k > 0 {
                    assert(units[k] == units.drop_first()[k - 1]);
                }
            }
        }
    }
}

/// A run of `<digits>[.<digits>]<unit>` components whose units come from `units` in order,
/// each at most once; a fraction only before `frac` (when there is one).
pub open spec fn scan_components(s: Seq<char>, units: Seq<char>, frac: Option<char>) -> bool
    decreases s.len(),
{
    if s.len() == 0 {
        true
    } else {
        let d = run_end(s, 0);
        let has_frac = d < s.len() && s[d] == '.';
        let e = if has_frac {
            run_end(s, d + 1)
        } else {
            d
        };
        proof {
            lemma_run_end(s, 0);
            if has_frac {
                lemma_run_end(s, d + 1);
            }
        }
        if d == 0 || (has_frac && e == d + 1) || e >= s.len() {
            false
        } else {
            let p = unit_index(units, s[e]);
            if p < 0 || (has_frac && frac != Some(s[e])) {
                false
            } else {
                scan_components(
                    s.subrange(e + 1, s.len() as int),
                    units.subrange(p + 1, units.len() as int),
                    frac,
                )
            }
        }
    }
}

/// The `TimeRangeType` duration grammar: `P`, then optional ordered `nY nM nD`, then an
/// optional `T` with ordered `nH nM n[.n]S`; at least one component overall and at least one
/// after a `T`.
pub open spec fn is_duration_body(d: Seq<char>) -> bool {
    if d.len() < 2 || d[0] != 'P' {
        false
    } else {
        let body = d.drop_first();
        let t = find_char(body, 'T', 0);
        let date = body.subrange(0, t);
        &&& (date.len() == 0 || scan_components(date, seq!['Y', 'M', 'D'], None))
        &&& if t < body.len() {
            let time = body.subrange(t + 1, body.len() as int);
            time.len() > 0 && scan_components(time, seq!['H', 'M', 'S'], Some('S'))
        } else {
            date.len() > 0
        }
    }
}

/// Plain `xs:duration`: the duration grammar with an optional leading `-`.
pub open spec fn is_xs_duration(s: Seq<char>) -> bool {
    if s.len() > 0 && s[0] == '-' {
        is_duration_body(s.drop_first())
    } else {
        is_duration_body(s)
    }
}

proof fn lemma_unit_index_first(units: Seq<char>, u: char, j: int)
    requires
        0 <= j < units.len(),
        units[j] == u,
        forall|i: int| 0 <= i < j ==> units[i] != u,
    ensures
        unit_index(units, u) == j,
    decreases units.len(),
{
    if j > 0 {
        let t = units.drop_first();
        assert forall|i: int| 0 <= i < j - 1 implies t[i] != u by {
            assert(t[i] == units[i + 1]);
        }
        lemma_unit_index_first(t, u, j - 1);
    }
}

fn exec_unit_index(units: &[char], u: char) -> (r: i64)
    requires
        units@.len() < 100,
    ensures
        r == unit_index(units@, u),
{
    let mut k: usize = 0;
    while k < units.len()
        invariant
            k <= units@.len() < 100,
            forall|i: int| 0 <= i < k ==> units@[i] != u,
        decreases units@.len() - k,
    {
        if units[k] == u {
            proof {
                lemma_unit_index_first(units@, u, k as int);
            }
            return k as i64;
        }
        k = k + 1;
    }
    proof {
        lemma_unit_index(units@, u);
    }
    -1
}

/// Whether `s` is a run of duration components over `units`.
fn exec_scan_components(s: &[char], units: &[char], frac: Option<char>) -> (r: bool)
    requires
        units@.len() < 100,
    ensures
        r == scan_components(s@, units@, frac),
    decreases s@.len(),
{
    if s.len() == 0 {
        return true;
    }
    proof {
        lemma_run_end(s@, 0);
    }
    let d = scan_digits(s, 0);
    let has_frac = d < s.len() && s[d] == '.';
    let e = if has_frac {
        proof {
            lemma_run_end(s@, d + 1);
        }
        scan_digits(s, d + 1)
    } else {
        d
    };
    if d == 0 || (has_frac && e == d + 1) || e >= s.len() {
        return false;
    }
    let p = exec_unit_index(units, s[e]);
    proof {
        lemma_unit_index(units@, s@[e as int]);
    }
    if p < 0 || (has_frac && frac != Some(s[e])) {
        return false;
    }
    let rest = slice_chars(s, e + 1, s.len());
    let rest_units = slice_chars(units, (p + 1) as usize, units.len());
    exec_scan_components(rest.as_slice(), rest_units.as_slice(), frac)
}

/// Whether `d` (given as characters) is a `TimeRangeType` duration.
pub fn duration_body_ok(d: &[char]) -> (r: bool)
    ensures
        r == is_duration_body(d@),
{
    if d.len() < 2 || d[0] != 'P' {
        return false;
    }
    let body = slice_chars(d, 1, d.len());
    assert(body@ =~= d@.drop_first());
    let t = scan_to_char(body.as_slice(), 'T', 0);
    proof {
        lemma_find_char(body@, 'T', 0);
    }
    let date = slice_chars(body.as_slice(), 0, t);
    let ymd: [char; 3] = ['Y', 'M', 'D'];
    let hms: [char; 3] = ['H', 'M', 'S'];
    assert(ymd@ =~= seq!['Y', 'M', 'D']);
    assert(hms@ =~= seq!['H', 'M', 'S']);
    if date.len() > 0 && !exec_scan_components(date.as_slice(), ymd.as_slice(), None) {
        return false;
    }
    if t < body.len() {
        let time = slice_chars(body.as_slice(), t + 1, body.len());
        time.len() > 0 && exec_scan_components(time.as_slice(), hms.as_slice(), Some('S'))
    } else {
        date.len() > 0
    }
}

/// Whether `s` is an `xs:duration` lexeme.
pub fn is_valid_duration(s: &str) -> (r: bool)
    ensures
        r == is_xs_duration(s@),
{
    let cs = chars_of(s);
    if cs.len() > 0 && cs[0] == '-' {
        let rest = slice_chars(cs.as_slice(), 1, cs.len());
        assert(rest@ =~= cs@.drop_first());
        duration_body_ok(rest.as_slice())
    } else {
        duration_body_ok(cs.as_slice())
    }
}

/// An SDMX `xs:duration` value (`-P2M`, `PT30M`, `P1Y2M3DT4H5M6.5S`), stored losslessly.
#[derive(Debug, PartialEq, Eq, Hash)]
pub struct SdmxDuration(String);

impl View for SdmxDuration {
    type V = Seq<char>;

    closed spec fn view(&self) -> Seq<char> {
        self.0@
    }
}

impl Clone for SdmxDuration {
    fn clone(&self) -> (r: Self)
        ensures
            r@ == self@,
    {
        proof {
            use_type_invariant(self);
        }
        SdmxDuration(self.0.clone())
    }
}

impl SdmxDuration {
    #[verifier::type_invariant]
    closed spec fn well_formed(self) -> bool {
        is_xs_duration(self.0@)
    }

    /// Validates `s` against `xs:duration` and stores it verbatim; fails with
    /// `InvalidDuration(s)` exactly when `s` is not a duration lexeme.
    pub fn new(s: String) -> (r: Result<Self, Error>)
        ensures
            match r {
                Ok(v) => is_xs_duration(s@) && v@ == s@,
                Err(e) => !is_xs_duration(s@) && e == Error::InvalidDuration(s),
            },
    {
        if is_valid_duration(s.as_str()) {
            Ok(SdmxDuration(s))
        } else {
            Err(Error::InvalidDuration(s))
        }
    }

    /// The lexeme, exactly as supplied.
    pub fn as_str(&self) -> (r: &str)
        ensures
            r@ == self@,
            is_xs_duration(r@),
    {
        proof {
            use_type_invariant(self);
        }
        self.0.as_str()
    }

    /// Consumes the value, returning its lexeme.
    pub fn into_inner(self) -> (r: String)
        ensures
            r@ == self@,
    {
        self.0
    }

    /// The lexeme as a new string.
    pub fn to_string(&self) -> (r: String)
        ensures
            r@ == self@,
            is_xs_duration(r@),
    {
        proof {
            use_type_invariant(self);
        }
        self.0.clone()
    }
}

impl vstd::std_specs::cmp::PartialEqSpecImpl<str> for SdmxDuration {
    open spec fn obeys_eq_spec() -> bool {
        true
    }

    open spec fn eq_spec(&self, other: &str) -> bool {
        self@ == other@
    }
}

/// Compares the stored lexeme with a string, character by character.
impl PartialEq<str> for SdmxDuration {
    fn eq(&self, other: &str) -> (r: bool) {
        same_text(self.as_str(), other)
    }
}

impl vstd::std_specs::cmp::PartialEqSpecImpl<&str> for SdmxDuration {
    open spec fn obeys_eq_spec() -> bool {
        true
    }

    open spec fn eq_spec(&self, other: &&str) -> bool {
        self@ == other@
    }
}

/// Compares the stored lexeme with a string, character by character.
impl PartialEq<&str> for SdmxDuration {
    fn eq(&self, other: &&str) -> (r: bool) {
        same_text(self.as_str(), *other)
    }
}

impl AsRef<str> for SdmxDuration {
    fn as_ref(&self) -> (r: &str)
        ensures
            r@ == self@,
    {
        self.0.as_str()
    }
}

impl vstd::std_specs::convert::FromSpecImpl<SdmxDuration> for String {
    open spec fn obeys_from_spec() -> bool {
        true
    }

    closed spec fn from_spec(v: SdmxDuration) -> String {
        v.0
    }
}

impl From<SdmxDuration> for String {
    fn from(v: SdmxDuration) -> (r: String)
        ensures
            r@ == v@,
    {
        v.0
    }
}

impl core::str::FromStr for SdmxDuration {
    type Err = Error;

    fn from_str(s: &str) -> (r: Result<Self, Error>)
        ensures
            match r {
                Ok(v) => is_xs_duration(s@) && v@ == s@,
                Err(e) => !is_xs_duration(s@) && (e matches Error::InvalidDuration(t) && t@ == s@),
            },
    {
        Self::new(s.to_owned())
    }
}

} // verus!

//! SDMX `VersionType`: a semantic (`major.minor.patch[-extension]`) or legacy
//! (`major[.minor]`) version. The grammar admits one lexeme per value, so the value holds only
//! its decomposition and renders the lexeme back on demand.
use crate::chars::{
    all_digits, chars_of, exec_is_alnum, exec_is_digit, is_alnum, is_digit, push_char,
    string_from_chars,
};
use crate::digits::{
    digits_value, is_canonical_num, lemma_canonical_round_trip, lemma_nat_digits, lemma_run_end,
    lemma_run_end_unique, nat_digits, parse_u32_component, push_decimal, run_end, u32_component,
};
use crate::error::Error;
use vstd::prelude::*;

verus! {

/// The decomposition of a version: what the lexeme says, component by component.
pub struct VersionModel {
    pub major: u32,
    pub minor: Option<u32>,
    pub patch: Option<u32>,
    pub extension: Option<Seq<char>>,
}

/// One prerelease identifier: `[A-Za-z0-9-]+`, and when all digits, `0` or no leading zero.
pub open spec fn is_ext_ident(t: Seq<char>) -> bool {
    &&& t.len() > 0
    &&& forall|i: int| 0 <= i < t.len() ==> #[trigger] is_alnum(t[i]) || t[i] == '-'
    &&& (all_digits(t) ==> (t.len() == 1 || t[0] != '0'))
}

/// The first index at or after `i` that holds a `.`, or the length.
pub open spec fn find_dot(s: Seq<char>, i: int) -> int
    decreases s.len() - i,
{
    if i < 0 || i >= s.len() || s[i] == '.' {
        i
    } else {
        find_dot(s, i + 1)
    }
}

pub proof fn lemma_find_dot(s: Seq<char>, i: int)
    requires
        0 <= i <= s.len(),
    ensures
        i <= find_dot(s, i) <= s.len(),
        forall|k: int| i <= k < find_dot(s, i) ==> #[trigger] s[k] != '.',
        find_dot(s, i) < s.len() ==> s[find_dot(s, i)] == '.',
    decreases s.len() - i,
{
    if i < s.len() && s[i] != '.' {
        lemma_find_dot(s, i + 1);
    }
}

/// The dot-separated identifiers of `s` from index `i` on are all valid.
pub open spec fn ext_ok_from(s: Seq<char>, i: int) -> bool
    decreases s.len() - i,
{
    if i < 0 || i > s.len() {
        false
    } else {
        let k = find_dot(s, i);
        proof {
            lemma_find_dot(s, i);
        }
        is_ext_ident(s.subrange(i, k)) && (k >= s.len() || ext_ok_from(s, k + 1))
    }
}

/// A prerelease extension: one or more valid identifiers separated by `.`.
pub open spec fn is_valid_extension(e: Seq<char>) -> bool {
    ext_ok_from(e, 0)
}

/// The well-formed decompositions: a patch only after a minor, an extension only on the
/// semantic form, and a valid extension.
pub open spec fn version_wf(m: VersionModel) -> bool {
    &&& (m.patch is Some ==> m.minor is Some)
    &&& (m.extension matches Some(e) ==> m.patch is Some && is_valid_extension(e))
}

/// The lexeme of a decomposition.
pub open spec fn render_version(m: VersionModel) -> Seq<char> {
    nat_digits(m.major as nat) + match m.minor {
        Some(n) => seq!['.'] + nat_digits(n as nat),
        None => Seq::empty(),
    } + match m.patch {
        Some(n) => seq!['.'] + nat_digits(n as nat),
        None => Seq::empty(),
    } + match m.extension {
        Some(e) => seq!['-'] + e,
        None => Seq::empty(),
    }
}

/// Reads a `VersionType` lexeme: `N`, `N.N`, `N.N.N`, or `N.N.N-ext`, where each `N` is a
/// canonical numeric component that fits a `u32`. `None` when `s` is none of these.
pub open spec fn parse_version(s: Seq<char>) -> Option<VersionModel> {
    let a = run_end(s, 0);
    match u32_component(s, 0, a) {
        None => None,
        Some(major) => if a == s.len() {
            Some(VersionModel { major, minor: None, patch: None, extension: None })
        } else if s[a] != '.' {
            None
        } else {
            let b = run_end(s, a + 1);
            match u32_component(s, a + 1, b) {
                None => None,
                Some(minor) => if b == s.len() {
                    Some(VersionModel { major, minor: Some(minor), patch: None, extension: None })
                } else if s[b] != '.' {
                    None
                } else {
                    let c = run_end(s, b + 1);
                    match u32_component(s, b + 1, c) {
                        None => None,
                        Some(patch) => if c == s.len() {
                            Some(
                                VersionModel {
                                    major,
                                    minor: Some(minor),
                                    patch: Some(patch),
                                    extension: None,
                                },
                            )
                        } else if s[c] != '-' {
                            None
                        } else if is_valid_extension(s.subrange(c + 1, s.len() as int)) {
                            Some(
                                VersionModel {
                                    major,
                                    minor: Some(minor),
                                    patch: Some(patch),
                                    extension: Some(s.subrange(c + 1, s.len() as int)),
                                },
                            )
                        } else {
                            None
                        },
                    }
                },
            }
        },
    }
}

/// Reading a number rendering that is followed by `rest` stops right after the number.
proof fn lemma_component_at(s: Seq<char>, lo: int, n: u32, rest: Seq<char>)
    requires
        0 <= lo <= s.len(),
        s.subrange(lo, s.len() as int) == nat_digits(n as nat) + rest,
        rest.len() == 0 || !is_digit(rest[0]),
    ensures
        run_end(s, lo) == lo + nat_digits(n as nat).len(),
        u32_component(s, lo, lo + nat_digits(n as nat).len()) == Some(n),
{
    let d = nat_digits(n as nat);
    lemma_nat_digits(n as nat);
    let t = s.subrange(lo, s.len() as int);
    assert(t.len() == d.len() + rest.len());
    assert forall|k: int| lo <= k < lo + d.len() implies #[trigger] is_digit(s[k]) by {
        assert(s[k] == t[k - lo]);
        assert(t[k - lo] == d[k - lo]);
    }
    if lo + d.len() < s.len() {
        assert(s[lo + d.len()] == t[d.len() as int]);
        assert(t[d.len() as int] == rest[0]);
    }
    lemma_run_end_unique(s, lo, lo + d.len());
    assert(s.subrange(lo, lo + d.len()) =~= d);
}

/// Parsing a well-formed decomposition's lexeme gives the decomposition back.
#[verifier::rlimit(60)]
pub proof fn lemma_parse_render_version(m: VersionModel)
    requires
        version_wf(m),
    ensures
        parse_version(render_version(m)) == Some(m),
{
    let s = render_version(m);
    let d1 = nat_digits(m.major as nat);
    let tail_minor = match m.minor {
        Some(n) => seq!['.'] + nat_digits(n as nat),
        None => Seq::<char>::empty(),
    };
    let tail_patch = match m.patch {
        Some(n) => seq!['.'] + nat_digits(n as nat),
        None => Seq::<char>::empty(),
    };
    let tail_ext = match m.extension {
        Some(e) => seq!['-'] + e,
        None => Seq::<char>::empty(),
    };
    let r1 = tail_minor + tail_patch + tail_ext;
    assert(s =~= d1 + r1);
    assert(s.subrange(0, s.len() as int) =~= d1 + r1);
    if r1.len() > 0 {
        assert(r1[0] == '.' || r1[0] == '-');
    }
    lemma_component_at(s, 0, m.major, r1);
    let a = d1.len() as int;
    match m.minor {
        None => {
            assert(m.patch is None);
            assert(m.extension is None);
            assert(r1 =~= Seq::<char>::empty());
        },
        Some(minor) => {
            let d2 = nat_digits(minor as nat);
            let r2 = tail_patch + tail_ext;
            assert(s[a] == '.');
            assert(s.subrange(a + 1, s.len() as int) =~= d2 + r2);
            if r2.len() > 0 {
                assert(r2[0] == '.' || r2[0] == '-');
            }
            lemma_component_at(s, a + 1, minor, r2);
            let b = a + 1 + d2.len();
            match m.patch {
                None => {
                    assert(m.extension is None);
                    assert(r2 =~= Seq::<char>::empty());
                },
                Some(patch) => {
                    let d3 = nat_digits(patch as nat);
                    assert(s[b] == '.');
                    assert(s.subrange(b + 1, s.len() as int) =~= d3 + tail_ext);
                    if tail_ext.len() > 0 {
                        assert(tail_ext[0] == '-');
                    }
                    lemma_component_at(s, b + 1, patch, tail_ext);
                    let c = b + 1 + d3.len();
                    match m.extension {
                        None => {},
                        Some(e) => {
                            assert(s[c] == '-');
                            assert(s.subrange(c + 1, s.len() as int) =~= e);
                        },
                    }
                },
            }
        },
    }
}

/// What parsing accepts is well formed and renders back to the text it was read from.
pub proof fn lemma_render_parse_version(s: Seq<char>)
    requires
        parse_version(s) is Some,
    ensures
        version_wf(parse_version(s).unwrap()),
        render_version(parse_version(s).unwrap()) == s,
{
    let m = parse_version(s).unwrap();
    lemma_run_end(s, 0);
    let a = run_end(s, 0);
    let p1 = s.subrange(0, a);
    lemma_canonical_round_trip(p1);
    if a == s.len() {
        assert(render_version(m) =~= s);
    } else {
        lemma_run_end(s, a + 1);
        let b = run_end(s, a + 1);
        let p2 = s.subrange(a + 1, b);
        lemma_canonical_round_trip(p2);
        if b == s.len() {
            assert(render_version(m) =~= s);
        } else {
            lemma_run_end(s, b + 1);
            let c = run_end(s, b + 1);
            let p3 = s.subrange(b + 1, c);
            lemma_canonical_round_trip(p3);
            if c == s.len() {
                assert(render_version(m) =~= s);
            } else {
                assert(render_version(m) =~= s);
            }
        }
    }
}

/// The end of the digit run of `cs` starting at `i`.
pub fn scan_digits(cs: &[char], i: usize) -> (r: usize)
    requires
        i <= cs@.len(),
    ensures
        r == run_end(cs@, i as int),
{
    proof {
        lemma_run_end(cs@, i as int);
    }
    let mut k = i;
    while k < cs.len() && exec_is_digit(cs[k])
        invariant
            i <= k <= cs@.len(),
            forall|m: int| i <= m < k ==> #[trigger] is_digit(cs@[m]),
        decreases cs@.len() - k,
    {
        k = k + 1;
    }
    proof {
        lemma_run_end_unique(cs@, i as int, k as int);
    }
    k
}

/// Whether `cs[lo..hi]` is one valid prerelease identifier.
fn ext_ident_ok(cs: &[char], lo: usize, hi: usize) -> (r: bool)
    requires
        lo <= hi <= cs@.len(),
    ensures
        r == is_ext_ident(cs@.subrange(lo as int, hi as int)),
{
    let ghost t = cs@.subrange(lo as int, hi as int);
    if lo == hi {
        return false;
    }
    let mut k = lo;
    let mut digits_only = true;
    while k < hi
        invariant
            lo <= k <= hi <= cs@.len(),
            t == cs@.subrange(lo as int, hi as int),
            forall|m: int| lo <= m < k ==> #[trigger] is_alnum(cs@[m]) || cs@[m] == '-',
            digits_only == (forall|m: int| lo <= m < k ==> #[trigger] is_digit(cs@[m])),
        decreases hi - k,
    {
        let c = cs[k];
        if !(exec_is_alnum(c) || c == '-') {
            assert(!(is_alnum(t[k - lo]) || t[k - lo] == '-'));
            return false;
        }
        if !exec_is_digit(c) {
            digits_only = false;
        }
        k = k + 1;
    }
    assert(digits_only == all_digits(t)) by {
        if digits_only {
            assert forall|m: int| 0 <= m < t.len() implies #[trigger] is_digit(t[m]) by {
                assert(t[m] == cs@[lo + m]);
            }
        } else {
            let w = choose|m: int| lo <= m < hi && !is_digit(#[trigger] cs@[m]);
            assert(t[w - lo] == cs@[w]);
        }
    }
    if digits_only && hi - lo > 1 && cs[lo] == '0' {
        return false;
    }
    true
}

/// The first `.` in `cs` at or after `i`, or the length.
fn scan_to_dot(cs: &[char], i: usize) -> (r: usize)
    requires
        i <= cs@.len(),
    ensures
        r == find_dot(cs@, i as int),
{
    let mut k = i;
    while k < cs.len() && cs[k] != '.'
        invariant
            i <= k <= cs@.len(),
            find_dot(cs@, i as int) == find_dot(cs@, k as int),
        decreases cs@.len() - k,
    {
        k = k + 1;
    }
    k
}

/// Whether `e` is a valid prerelease extension.
fn extension_ok(e: &[char]) -> (r: bool)
    ensures
        r == is_valid_extension(e@),
{
    let mut i: usize = 0;
    loop
        invariant
            i <= e@.len(),
            ext_ok_from(e@, 0) == ext_ok_from(e@, i as int),
        decreases e@.len() - i,
    {
        let k = scan_to_dot(e, i);
        proof {
            lemma_find_dot(e@, i as int);
        }
        if !ext_ident_ok(e, i, k) {
            return false;
        }
        if k >= e.len() {
            return true;
        }
        i = k + 1;
    }
}

/// A copy of `cs[lo..]`.
fn tail_chars(cs: &[char], lo: usize) -> (r: Vec<char>)
    requires
        lo <= cs@.len(),
    ensures
        r@ == cs@.subrange(lo as int, cs@.len() as int),
{
    let mut out: Vec<char> = Vec::new();
    let mut k = lo;
    while k < cs.len()
        invariant
            lo <= k <= cs@.len(),
            out@ == cs@.subrange(lo as int, k as int),
        decreases cs@.len() - k,
    {
        out.push(cs[k]);
        assert(cs@.subrange(lo as int, k as int).push(cs@[k as int]) =~= cs@.subrange(
            lo as int,
            k + 1,
        ));
        k = k + 1;
    }
    out
}

/// An SDMX `VersionType`: a semantic (`major.minor.patch[-extension]`) or legacy
/// (`major[.minor]`) version.
///
/// The value holds the parsed components; [`to_string`](Self::to_string) reconstructs the one
/// lexeme the grammar admits for them. Equality is structural, so `3.1` and `3.1.0` differ.
#[derive(Debug, PartialEq, Eq, Hash)]
pub struct SdmxVersion {
    major: u32,
    minor: Option<u32>,
    patch: Option<u32>,
    extension: Option<String>,
}

impl View for SdmxVersion {
    type V = VersionModel;

    closed spec fn view(&self) -> VersionModel {
        VersionModel {
            major: self.major,
            minor: self.minor,
            patch: self.patch,
            extension: match self.extension {
                Some(e) => Some(e@),
                None => None,
            },
        }
    }
}

impl Clone for SdmxVersion {
    fn clone(&self) -> (r: Self)
        ensures
            r@ == self@,
    {
        proof {
            use_type_invariant(self);
        }
        let extension = match &self.extension {
            Some(e) => Some(e.clone()),
            None => None,
        };
        SdmxVersion { major: self.major, minor: self.minor, patch: self.patch, extension }
    }
}

impl SdmxVersion {
    #[verifier::type_invariant]
    closed spec fn well_formed(self) -> bool {
        version_wf(self@)
    }

    /// Validates `raw` against the `VersionType` grammar and keeps the decomposition.
    ///
    /// Succeeds exactly when `raw` is `N`, `N.N`, `N.N.N`, or `N.N.N-ext` with canonical
    /// `u32` components and a valid extension; otherwise fails with `InvalidVersion(raw)`.
    pub fn new(raw: String) -> (r: Result<Self, Error>)
        ensures
            match r {
                Ok(v) => parse_version(raw@) == Some(v@),
                Err(e) => parse_version(raw@) is None && e == Error::InvalidVersion(raw),
            },
    {
        let cs = chars_of(raw.as_str());
        match parse_version_chars(&cs) {
            Some(v) => Ok(v),
            None => Err(Error::InvalidVersion(raw)),
        }
    }

    /// The major component.
    pub fn major(&self) -> (r: u32)
        ensures
            r == self@.major,
    {
        self.major
    }

    /// The minor component, `None` for the bare-major legacy form (`"1"`).
    pub fn minor(&self) -> (r: Option<u32>)
        ensures
            r == self@.minor,
    {
        self.minor
    }

    /// The patch component, `None` for the legacy form.
    pub fn patch(&self) -> (r: Option<u32>)
        ensures
            r == self@.patch,
    {
        self.patch
    }

    /// The prerelease extension (for example `"rc.1"`), or `None`.
    pub fn extension(&self) -> (r: Option<&str>)
        ensures
            match r {
                Some(e) => self@.extension == Some(e@),
                None => self@.extension is None,
            },
    {
        match &self.extension {
            Some(e) => Some(e.as_str()),
            None => None,
        }
    }

    /// `true` for the legacy form (no patch component).
    pub fn is_legacy(&self) -> (r: bool)
        ensures
            r == (self@.patch is None),
    {
        self.patch.is_none()
    }

    /// The canonical lexeme; it parses back to this very value.
    pub fn to_string(&self) -> (r: String)
        ensures
            r@ == render_version(self@),
            parse_version(r@) == Some(self@),
    {
        proof {
            use_type_invariant(self);
            lemma_parse_render_version(self@);
        }
        let mut out = String::new();
        self.write_to(&mut out);
        assert(out@ =~= render_version(self@));
        out
    }

    /// Appends the canonical lexeme to `out`.
    pub fn write_to(&self, out: &mut String)
        ensures
            final(out)@ == old(out)@ + render_version(self@),
    {
        push_decimal(out, self.major);
        let ghost after_major = out@;
        if let Some(minor) = self.minor {
            push_char(out, '.');
            push_decimal(out, minor);
        }
        let ghost after_minor = out@;
        if let Some(patch) = self.patch {
            push_char(out, '.');
            push_decimal(out, patch);
        }
        let ghost after_patch = out@;
        if let Some(e) = &self.extension {
            push_char(out, '-');
            let ec = chars_of(e.as_str());
            let mut i: usize = 0;
            while i < ec.len()
                invariant
                    i <= ec@.len(),
                    ec@ == e@,
                    out@ == after_patch + seq!['-'] + ec@.subrange(0, i as int),
                decreases ec@.len() - i,
            {
                push_char(out, ec[i]);
                assert(ec@.subrange(0, i as int).push(ec@[i as int]) =~= ec@.subrange(0, i + 1));
                i = i + 1;
            }
            assert(ec@.subrange(0, ec@.len() as int) =~= ec@);
        }
        assert(out@ =~= old(out)@ + render_version(self@));
    }
}

/// Parses a `VersionType` lexeme given as characters.
pub fn parse_version_chars(cs: &[char]) -> (r: Option<SdmxVersion>)
    ensures
        match r {
            Some(v) => parse_version(cs@) == Some(v@),
            None => parse_version(cs@) is None,
        },
{
    let ghost s = cs@;
    proof {
        lemma_run_end(s, 0);
    }
    let a = scan_digits(cs, 0);
    let major = match parse_u32_component(cs, 0, a) {
        None => return None,
        Some(v) => v,
    };
    if a == cs.len() {
        return Some(SdmxVersion { major, minor: None, patch: None, extension: None });
    }
    if cs[a] != '.' {
        return None;
    }
    proof {
        lemma_run_end(s, a + 1);
    }
    let b = scan_digits(cs, a + 1);
    let minor = match parse_u32_component(cs, a + 1, b) {
        None => return None,
        Some(v) => v,
    };
    if b == cs.len() {
        return Some(SdmxVersion { major, minor: Some(minor), patch: None, extension: None });
    }
    if cs[b] != '.' {
        return None;
    }
    proof {
        lemma_run_end(s, b + 1);
    }
    let c = scan_digits(cs, b + 1);
    let patch = match parse_u32_component(cs, b + 1, c) {
        None => return None,
        Some(v) => v,
    };
    if c == cs.len() {
        return Some(
            SdmxVersion { major, minor: Some(minor), patch: Some(patch), extension: None },
        );
    }
    if cs[c] != '-' {
        return None;
    }
    let ext = tail_chars(cs, c + 1);
    if !extension_ok(ext.as_slice()) {
        return None;
    }
    let e = string_from_chars(ext.as_slice());
    Some(SdmxVersion { major, minor: Some(minor), patch: Some(patch), extension: Some(e) })
}

/// A display adapter for an optional version: the version's lexeme, or `<unversioned>` when
/// absent. For display only: the placeholder is not a valid version.
#[derive(Clone, Copy, Debug)]
pub struct VersionDisplay<'a>(pub Option<&'a SdmxVersion>);

/// The placeholder rendered for an absent version.
pub open spec fn unversioned() -> Seq<char> {
    seq!['<', 'u', 'n', 'v', 'e', 'r', 's', 'i', 'o', 'n', 'e', 'd', '>']
}

impl<'a> VersionDisplay<'a> {
    /// The version's lexeme, or `<unversioned>`.
    pub fn to_string(&self) -> (r: String)
        ensures
            match self.0 {
                Some(v) => r@ == render_version(v@),
                None => r@ == unversioned(),
            },
    {
        match self.0 {
            Some(v) => v.to_string(),
            None => {
                let cs: [char; 13] = ['<', 'u', 'n', 'v', 'e', 'r', 's', 'i', 'o', 'n', 'e', 'd', '>'];
                let r = string_from_chars(cs.as_slice());
                assert(r@ =~= unversioned());
                r
            },
        }
    }
}

impl core::str::FromStr for SdmxVersion {
    type Err = Error;

    fn from_str(s: &str) -> (r: Result<Self, Error>)
        ensures
            match r {
                Ok(v) => parse_version(s@) == Some(v@),
                Err(e) => parse_version(s@) is None && (e matches Error::InvalidVersion(t) && t@ == s@),
            },
    {
        Self::new(s.to_owned())
    }
}

} // verus!

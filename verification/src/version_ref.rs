//! SDMX `WildcardVersionType`: the version grammar of a reference. An exact version, a full
//! semantic triple with `+` on exactly one component, or the bare `*`.
use crate::chars::{chars_of, is_alnum, is_digit, push_char};
use crate::digits::{
    lemma_canonical_round_trip, lemma_nat_digits, lemma_run_end, nat_digits, parse_u32_component,
    push_decimal, run_end, u32_component,
};
use crate::error::Error;
use crate::version::{
    ext_ok_from, find_dot, is_ext_ident, lemma_find_dot, lemma_parse_render_version,
    lemma_render_parse_version, parse_version, parse_version_chars, render_version, scan_digits,
    version_wf, SdmxVersion, VersionModel,
};
use vstd::prelude::*;

verus! {

/// The component of a semantic triple that a "latest" reference wildcards with `+`.
#[derive(Clone, Copy, Debug, PartialEq, Eq, Structural, Hash)]
pub enum WildcardPosition {
    /// `+` on the major component: `2+.3.1`.
    Major,
    /// `+` on the minor component: `2.3+.1`.
    Minor,
    /// `+` on the patch component: `2.3.1+`.
    Patch,
}

/// An SDMX `WildcardVersionType`: the version grammar of a reference.
#[derive(Clone, Debug, PartialEq, Eq, Hash)]
pub enum VersionRef {
    /// A reference to exactly this version.
    Exact(SdmxVersion),
    /// A "latest available" reference: a full semantic triple with `+` on the component
    /// named by `at`. `{ major: 2, minor: 3, patch: 1, at: Major }` renders as `2+.3.1`.
    Latest { major: u32, minor: u32, patch: u32, at: WildcardPosition },
    /// The bare `*`: any version of the referenced artefact.
    Any,
}

/// The abstract value of a [`VersionRef`].
pub enum VersionRefModel {
    Exact(VersionModel),
    Latest { major: u32, minor: u32, patch: u32, at: WildcardPosition },
    Any,
}

impl View for VersionRef {
    type V = VersionRefModel;

    open spec fn view(&self) -> VersionRefModel {
        match self {
            VersionRef::Exact(v) => VersionRefModel::Exact(v@),
            VersionRef::Latest { major, minor, patch, at } => VersionRefModel::Latest {
                major: *major,
                minor: *minor,
                patch: *patch,
                at: *at,
            },
            VersionRef::Any => VersionRefModel::Any,
        }
    }
}

/// `seq!['+']` when `here`, else nothing.
pub open spec fn plus_if(here: bool) -> Seq<char> {
    if here {
        seq!['+']
    } else {
        Seq::empty()
    }
}

/// The lexeme of a reference.
pub open spec fn render_version_ref(r: VersionRefModel) -> Seq<char> {
    match r {
        VersionRefModel::Exact(m) => render_version(m),
        VersionRefModel::Latest { major, minor, patch, at } => nat_digits(major as nat) + plus_if(
            at == WildcardPosition::Major,
        ) + seq!['.'] + nat_digits(minor as nat) + plus_if(at == WildcardPosition::Minor)
            + seq!['.'] + nat_digits(patch as nat) + plus_if(at == WildcardPosition::Patch),
        VersionRefModel::Any => seq!['*'],
    }
}

/// A reference value is well formed when its exact version is.
pub open spec fn version_ref_wf(r: VersionRefModel) -> bool {
    r matches VersionRefModel::Exact(m) ==> version_wf(m)
}

/// The position just after an optional `+` at `i`.
pub open spec fn skip_plus(s: Seq<char>, i: int) -> int {
    if 0 <= i < s.len() && s[i] == '+' {
        i + 1
    } else {
        i
    }
}

/// Reads the wildcarded triple `N[+].N[+].N[+]` with exactly one `+`.
pub open spec fn parse_latest(s: Seq<char>) -> Option<VersionRefModel> {
    let a = run_end(s, 0);
    let a1 = skip_plus(s, a);
    if !(a1 < s.len() && s[a1] == '.') {
        None
    } else {
        let b = run_end(s, a1 + 1);
        let b1 = skip_plus(s, b);
        if !(b1 < s.len() && s[b1] == '.') {
            None
        } else {
            let c = run_end(s, b1 + 1);
            let c1 = skip_plus(s, c);
            if c1 != s.len() {
                None
            } else {
                match (u32_component(s, 0, a), u32_component(s, a1 + 1, b), u32_component(
                    s,
                    b1 + 1,
                    c,
                )) {
                    (Some(major), Some(minor), Some(patch)) => {
                        let w1 = a1 != a;
                        let w2 = b1 != b;
                        let w3 = c1 != c;
                        if w1 && !w2 && !w3 {
                            Some(
                                VersionRefModel::Latest {
                                    major,
                                    minor,
                                    patch,
                                    at: WildcardPosition::Major,
                                },
                            )
                        } else if !w1 && w2 && !w3 {
                            Some(
                                VersionRefModel::Latest {
                                    major,
                                    minor,
                                    patch,
                                    at: WildcardPosition::Minor,
                                },
                            )
                        } else if !w1 && !w2 && w3 {
                            Some(
                                VersionRefModel::Latest {
                                    major,
                                    minor,
                                    patch,
                                    at: WildcardPosition::Patch,
                                },
                            )
                        } else {
                            None
                        }
                    },
                    _ => None,
                }
            }
        }
    }
}

/// Reads a `WildcardVersionType` lexeme: `*`; without any `+`, exactly the `VersionType`
/// grammar; with a `+`, no `-` and a wildcarded triple.
pub open spec fn parse_version_ref(s: Seq<char>) -> Option<VersionRefModel> {
    if s == seq!['*'] {
        Some(VersionRefModel::Any)
    } else if !s.contains('+') {
        match parse_version(s) {
            Some(m) => Some(VersionRefModel::Exact(m)),
            None => None,
        }
    } else if s.contains('-') {
        None
    } else {
        parse_latest(s)
    }
}

/// A valid extension holds only letters, digits, `-` and `.`.
proof fn lemma_ext_chars(s: Seq<char>, i: int)
    requires
        0 <= i <= s.len(),
        ext_ok_from(s, i),
    ensures
        forall|k: int| i <= k < s.len() ==> #[trigger] is_alnum(s[k]) || s[k] == '-' || s[k] == '.',
    decreases s.len() - i,
{
    lemma_find_dot(s, i);
    let k = find_dot(s, i);
    let t = s.subrange(i, k);
    assert(is_ext_ident(t));
    if k < s.len() {
        lemma_ext_chars(s, k + 1);
    }
    assert forall|m: int| i <= m < s.len() implies #[trigger] is_alnum(s[m]) || s[m] == '-' || s[m]
        == '.' by {
        if m < k {
            assert(s[m] == t[m - i]);
        }
    }
}

/// A version lexeme holds no `+` and is not `*`.
proof fn lemma_version_lexeme_plain(m: VersionModel)
    requires
        version_wf(m),
    ensures
        !render_version(m).contains('+'),
        render_version(m) != seq!['*'],
{
    let s = render_version(m);
    lemma_parse_render_version(m);
    lemma_nat_digits(m.major as nat);
    let d1 = nat_digits(m.major as nat);
    assert(s[0] == d1[0]);
    assert(is_digit(s[0]));
    if s.contains('+') {
        let k = choose|k: int| 0 <= k < s.len() && s[k] == '+';
        let tm = match m.minor {
            Some(n) => seq!['.'] + nat_digits(n as nat),
            None => Seq::<char>::empty(),
        };
        let tp = match m.patch {
            Some(n) => seq!['.'] + nat_digits(n as nat),
            None => Seq::<char>::empty(),
        };
        let te = match m.extension {
            Some(e) => seq!['-'] + e,
            None => Seq::<char>::empty(),
        };
        let x1 = d1 + tm;
        let x2 = x1 + tp;
        let x3 = x2 + te;
        assert(s =~= x3);
        if k < d1.len() {
            assert(x3[k] == x2[k]);
            assert(x2[k] == x1[k]);
            assert(x1[k] == d1[k]);
            assert(is_digit(d1[k]));
        } else if k < x1.len() {
            let n = m.minor.unwrap();
            lemma_nat_digits(n as nat);
            let j = k - d1.len();
            assert(x3[k] == x2[k]);
            assert(x2[k] == x1[k]);
            assert(x1[k] == tm[j]);
            if j > 0 {
                assert(tm[j] == nat_digits(n as nat)[j - 1]);
                assert(is_digit(nat_digits(n as nat)[j - 1]));
            }
        } else if k < x2.len() {
            let n = m.patch.unwrap();
            lemma_nat_digits(n as nat);
            let j = k - x1.len();
            assert(x3[k] == x2[k]);
            assert(x2[k] == tp[j]);
            if j > 0 {
                assert(tp[j] == nat_digits(n as nat)[j - 1]);
                assert(is_digit(nat_digits(n as nat)[j - 1]));
            }
        } else {
            let e = m.extension.unwrap();
            let j = k - x2.len();
            assert(x3[k] == te[j]);
            if j > 0 {
                lemma_ext_chars(e, 0);
                assert(te[j] == e[j - 1]);
                assert(is_alnum(e[j - 1]) || e[j - 1] == '-' || e[j - 1] == '.');
            }
        }
        assert(false);
    }
}

/// Reading the wildcard triple back.
#[verifier::rlimit(80)]
proof fn lemma_parse_render_latest(major: u32, minor: u32, patch: u32, at: WildcardPosition)
    ensures
        parse_version_ref(
            render_version_ref(VersionRefModel::Latest { major, minor, patch, at }),
        ) == Some(VersionRefModel::Latest { major, minor, patch, at }),
{
    let r = VersionRefModel::Latest { major, minor, patch, at };
    let s = render_version_ref(r);
    let d1 = nat_digits(major as nat);
    let d2 = nat_digits(minor as nat);
    let d3 = nat_digits(patch as nat);
    let p1 = plus_if(at == WildcardPosition::Major);
    let p2 = plus_if(at == WildcardPosition::Minor);
    let p3 = plus_if(at == WildcardPosition::Patch);
    lemma_nat_digits(major as nat);
    lemma_nat_digits(minor as nat);
    lemma_nat_digits(patch as nat);
    assert(s =~= d1 + p1 + seq!['.'] + d2 + p2 + seq!['.'] + d3 + p3);
    let a = d1.len() as int;
    let a1 = a + p1.len();
    let b = a1 + 1 + d2.len();
    let b1 = b + p2.len();
    let c = b1 + 1 + d3.len();
    // the digit runs
    assert forall|k: int| 0 <= k < a implies #[trigger] is_digit(s[k]) by {
        assert(s[k] == d1[k]);
    }
    assert forall|k: int| a1 + 1 <= k < b implies #[trigger] is_digit(s[k]) by {
        assert(s[k] == d2[k - a1 - 1]);
    }
    assert forall|k: int| b1 + 1 <= k < c implies #[trigger] is_digit(s[k]) by {
        assert(s[k] == d3[k - b1 - 1]);
    }
    crate::digits::lemma_run_end_unique(s, 0, a);
    crate::digits::lemma_run_end_unique(s, a1 + 1, b);
    crate::digits::lemma_run_end_unique(s, b1 + 1, c);
    assert(s.subrange(0, a) =~= d1);
    assert(s.subrange(a1 + 1, b) =~= d2);
    assert(s.subrange(b1 + 1, c) =~= d3);
    assert(s.contains('+')) by {
        if at == WildcardPosition::Major {
            assert(s[a] == '+');
        } else if at == WildcardPosition::Minor {
            assert(s[b] == '+');
        } else {
            assert(s[c] == '+');
        }
    }
    assert(s != seq!['*']) by {
        assert(is_digit(s[0]));
    }
    assert(!s.contains('-')) by {
        if s.contains('-') {
            let k = choose|k: int| 0 <= k < s.len() && s[k] == '-';
            if k < a {
                assert(is_digit(s[k]));
            } else if k < a1 {
                assert(s[k] == '+');
            } else if k == a1 {
                assert(s[k] == '.');
            } else if k < b {
                assert(is_digit(s[k]));
            } else if k < b1 {
                assert(s[k] == '+');
            } else if k == b1 {
                assert(s[k] == '.');
            } else if k < c {
                assert(is_digit(s[k]));
            } else {
                assert(s[k] == '+');
            }
        }
    }
}

/// Parsing a well-formed reference's lexeme gives the reference back.
pub proof fn lemma_parse_render_version_ref(r: VersionRefModel)
    requires
        version_ref_wf(r),
    ensures
        parse_version_ref(render_version_ref(r)) == Some(r),
{
    match r {
        VersionRefModel::Exact(m) => {
            lemma_version_lexeme_plain(m);
            lemma_parse_render_version(m);
        },
        VersionRefModel::Latest { major, minor, patch, at } => {
            lemma_parse_render_latest(major, minor, patch, at);
        },
        VersionRefModel::Any => {},
    }
}

/// What parsing accepts is well formed and renders back to the text it was read from.
#[verifier::rlimit(60)]
pub proof fn lemma_render_parse_version_ref(s: Seq<char>)
    requires
        parse_version_ref(s) is Some,
    ensures
        version_ref_wf(parse_version_ref(s).unwrap()),
        render_version_ref(parse_version_ref(s).unwrap()) == s,
{
    if s == seq!['*'] {
    } else if !s.contains('+') {
        lemma_render_parse_version(s);
    } else {
        let r = parse_version_ref(s).unwrap();
        lemma_run_end(s, 0);
        let a = run_end(s, 0);
        let a1 = skip_plus(s, a);
        lemma_run_end(s, a1 + 1);
        let b = run_end(s, a1 + 1);
        let b1 = skip_plus(s, b);
        lemma_run_end(s, b1 + 1);
        let c = run_end(s, b1 + 1);
        lemma_canonical_round_trip(s.subrange(0, a));
        lemma_canonical_round_trip(s.subrange(a1 + 1, b));
        lemma_canonical_round_trip(s.subrange(b1 + 1, c));
        assert(render_version_ref(r) =~= s);
    }
}

/// Whether `cs` holds `c`.
fn contains_char(cs: &[char], c: char) -> (r: bool)
    ensures
        r == cs@.contains(c),
{
    let mut i: usize = 0;
    while i < cs.len()
        invariant
            i <= cs@.len(),
            forall|k: int| 0 <= k < i ==> cs@[k] != c,
        decreases cs@.len() - i,
    {
        if cs[i] == c {
            assert(cs@[i as int] == c);
            return true;
        }
        i = i + 1;
    }
    false
}

/// The position after an optional `+` at `i`.
fn exec_skip_plus(cs: &[char], i: usize) -> (r: usize)
    requires
        i <= cs@.len(),
    ensures
        r == skip_plus(cs@, i as int),
{
    if i < cs.len() && cs[i] == '+' {
        i + 1
    } else {
        i
    }
}

/// Parses the wildcarded triple.
fn parse_latest_chars(cs: &[char]) -> (r: Option<VersionRef>)
    ensures
        match r {
            Some(v) => parse_latest(cs@) == Some(v@),
            None => parse_latest(cs@) is None,
        },
{
    proof {
        lemma_run_end(cs@, 0);
    }
    let a = scan_digits(cs, 0);
    let a1 = exec_skip_plus(cs, a);
    if !(a1 < cs.len() && cs[a1] == '.') {
        return None;
    }
    proof {
        lemma_run_end(cs@, a1 + 1);
    }
    let b = scan_digits(cs, a1 + 1);
    let b1 = exec_skip_plus(cs, b);
    if !(b1 < cs.len() && cs[b1] == '.') {
        return None;
    }
    proof {
        lemma_run_end(cs@, b1 + 1);
    }
    let c = scan_digits(cs, b1 + 1);
    let c1 = exec_skip_plus(cs, c);
    if c1 != cs.len() {
        return None;
    }
    let major = match parse_u32_component(cs, 0, a) {
        Some(v) => v,
        None => return None,
    };
    let minor = match parse_u32_component(cs, a1 + 1, b) {
        Some(v) => v,
        None => return None,
    };
    let patch = match parse_u32_component(cs, b1 + 1, c) {
        Some(v) => v,
        None => return None,
    };
    let w1 = a1 != a;
    let w2 = b1 != b;
    let w3 = c1 != c;
    if w1 && !w2 && !w3 {
        Some(VersionRef::Latest { major, minor, patch, at: WildcardPosition::Major })
    } else if !w1 && w2 && !w3 {
        Some(VersionRef::Latest { major, minor, patch, at: WildcardPosition::Minor })
    } else if !w1 && !w2 && w3 {
        Some(VersionRef::Latest { major, minor, patch, at: WildcardPosition::Patch })
    } else {
        None
    }
}

impl VersionRef {
    /// Validates `raw` against the `WildcardVersionType` grammar.
    ///
    /// Succeeds exactly when `raw` is `*`, a valid exact version, or a full triple with `+` on
    /// exactly one component and no extension; otherwise fails with
    /// `InvalidVersionReference(raw)`.
    pub fn new(raw: String) -> (r: Result<Self, Error>)
        ensures
            match r {
                Ok(v) => parse_version_ref(raw@) == Some(v@),
                Err(e) => parse_version_ref(raw@) is None && e == Error::InvalidVersionReference(
                    raw,
                ),
            },
    {
        let cs = chars_of(raw.as_str());
        if cs.len() == 1 && cs[0] == '*' {
            assert(cs@ =~= seq!['*']);
            return Ok(VersionRef::Any);
        }
        assert(cs@ != seq!['*']);
        if !contains_char(cs.as_slice(), '+') {
            return match parse_version_chars(cs.as_slice()) {
                Some(v) => Ok(VersionRef::Exact(v)),
                None => Err(Error::InvalidVersionReference(raw)),
            };
        }
        if contains_char(cs.as_slice(), '-') {
            return Err(Error::InvalidVersionReference(raw));
        }
        match parse_latest_chars(cs.as_slice()) {
            Some(v) => Ok(v),
            None => Err(Error::InvalidVersionReference(raw)),
        }
    }

    /// The canonical lexeme; it parses back to this very reference.
    pub fn to_string(&self) -> (r: String)
        ensures
            r@ == render_version_ref(self@),
            parse_version_ref(r@) == Some(self@),
    {
        let mut out = String::new();
        match self {
            VersionRef::Exact(v) => {
                let s = v.to_string();
                proof {
                    lemma_render_parse_version(s@);
                    lemma_parse_render_version_ref(self@);
                }
                return s;
            },
            VersionRef::Latest { major, minor, patch, at } => {
                push_decimal(&mut out, *major);
                if *at == WildcardPosition::Major {
                    push_char(&mut out, '+');
                }
                push_char(&mut out, '.');
                push_decimal(&mut out, *minor);
                if *at == WildcardPosition::Minor {
                    push_char(&mut out, '+');
                }
                push_char(&mut out, '.');
                push_decimal(&mut out, *patch);
                if *at == WildcardPosition::Patch {
                    push_char(&mut out, '+');
                }
            },
            VersionRef::Any => {
                push_char(&mut out, '*');
            },
        }
        proof {
            assert(out@ =~= render_version_ref(self@));
            lemma_parse_render_version_ref(self@);
        }
        out
    }
}

impl core::str::FromStr for VersionRef {
    type Err = Error;

    fn from_str(s: &str) -> (r: Result<Self, Error>)
        ensures
            match r {
                Ok(v) => parse_version_ref(s@) == Some(v@),
                Err(e) => parse_version_ref(s@) is None && (e matches Error::InvalidVersionReference(t) && t@ == s@),
            },
    {
        Self::new(s.to_owned())
    }
}

} // verus!

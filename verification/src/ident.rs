//! The three SDMX identifier tiers (`IDType`, `NCNameIDType`, `NestedNCNameIDType`) and the
//! schema-`fixed` value check, as grammar predicates over characters and their validators.
use crate::chars::{chars_of, exec_is_alnum, exec_is_alpha, is_alnum, is_alpha, owned};
use crate::error::Error;
use vstd::prelude::*;

verus! {

/// A character of the `IDType` alphabet: `[A-Za-z0-9_@$\-]`.
pub open spec fn is_id_char(c: char) -> bool {
    is_alnum(c) || c == '_' || c == '@' || c == '$' || c == '-'
}

/// A character an `NCName` may hold after its first: `[A-Za-z0-9_\-]`.
pub open spec fn is_ncname_char(c: char) -> bool {
    is_alnum(c) || c == '_' || c == '-'
}

/// `IDType`: one or more characters of `[A-Za-z0-9_@$\-]`.
pub open spec fn is_idtype(s: Seq<char>) -> bool {
    &&& s.len() > 0
    &&& forall|i: int| 0 <= i < s.len() ==> #[trigger] is_id_char(s[i])
}

/// `NCNameIDType`: a letter followed by characters of `[A-Za-z0-9_\-]`.
pub open spec fn is_ncname(s: Seq<char>) -> bool {
    &&& s.len() > 0
    &&& is_alpha(s[0])
    &&& forall|i: int| 1 <= i < s.len() ==> #[trigger] is_ncname_char(s[i])
}

/// `NestedNCNameIDType`: one or more `NCName` segments joined by `.`. Put character by
/// character: the first character is a letter, every character is an `NCName` character or a
/// `.`, and every `.` is followed by a letter (so no segment is empty).
pub open spec fn is_nested_ncname(s: Seq<char>) -> bool {
    &&& s.len() > 0
    &&& is_alpha(s[0])
    &&& forall|i: int|
        0 <= i < s.len() ==> (#[trigger] is_ncname_char(s[i]) || s[i] == '.')
    &&& forall|i: int|
        0 <= i < s.len() && #[trigger] s[i] == '.' ==> i + 1 < s.len() && is_alpha(s[i + 1])
}

/// Every `NCNameIDType` is a `NestedNCNameIDType` (a single segment) and an `IDType`.
pub proof fn lemma_ncname_tiers(s: Seq<char>)
    requires
        is_ncname(s),
    ensures
        is_nested_ncname(s),
        is_idtype(s),
{
    assert forall|i: int| 0 <= i < s.len() implies is_id_char(s[i]) by {
        if i > 0 {
            assert(is_ncname_char(s[i]));
        }
    }
    assert forall|i: int| 0 <= i < s.len() implies (is_ncname_char(s[i]) || s[i] == '.') by {
        if i > 0 {
            assert(is_ncname_char(s[i]));
        }
    }
}

fn exec_is_id_char(c: char) -> (r: bool)
    ensures
        r == is_id_char(c),
{
    exec_is_alnum(c) || c == '_' || c == '@' || c == '$' || c == '-'
}

fn exec_is_ncname_char(c: char) -> (r: bool)
    ensures
        r == is_ncname_char(c),
{
    exec_is_alnum(c) || c == '_' || c == '-'
}

/// Whether `s` matches `IDType`.
pub fn is_valid_id(s: &str) -> (r: bool)
    ensures
        r == is_idtype(s@),
{
    let cs = chars_of(s);
    if cs.len() == 0 {
        return false;
    }
    let mut i: usize = 0;
    while i < cs.len()
        invariant
            cs@ == s@,
            i <= cs@.len(),
            forall|j: int| 0 <= j < i ==> #[trigger] is_id_char(cs@[j]),
        decreases cs@.len() - i,
    {
        if !exec_is_id_char(cs[i]) {
            return false;
        }
        i = i + 1;
    }
    true
}

/// Whether `s` matches `NCNameIDType`.
pub fn is_valid_ncname(s: &str) -> (r: bool)
    ensures
        r == is_ncname(s@),
{
    let cs = chars_of(s);
    if cs.len() == 0 || !exec_is_alpha(cs[0]) {
        return false;
    }
    let mut i: usize = 1;
    while i < cs.len()
        invariant
            cs@ == s@,
            1 <= i <= cs@.len(),
            forall|j: int| 1 <= j < i ==> #[trigger] is_ncname_char(cs@[j]),
        decreases cs@.len() - i,
    {
        if !exec_is_ncname_char(cs[i]) {
            return false;
        }
        i = i + 1;
    }
    true
}

/// Whether `s` matches `NestedNCNameIDType`.
pub fn is_valid_nested_ncname(s: &str) -> (r: bool)
    ensures
        r == is_nested_ncname(s@),
{
    let cs = chars_of(s);
    if cs.len() == 0 || !exec_is_alpha(cs[0]) {
        return false;
    }
    let mut i: usize = 0;
    while i < cs.len()
        invariant
            cs@ == s@,
            i <= cs@.len(),
            cs@.len() > 0,
            is_alpha(cs@[0]),
            forall|j: int| 0 <= j < i ==> (#[trigger] is_ncname_char(cs@[j]) || cs@[j] == '.'),
            forall|j: int|
                0 <= j < i && #[trigger] cs@[j] == '.' ==> j + 1 < cs@.len() && is_alpha(
                    cs@[j + 1],
                ),
        decreases cs@.len() - i,
    {
        let c = cs[i];
        if c == '.' {
            if i + 1 >= cs.len() || !exec_is_alpha(cs[i + 1]) {
                return false;
            }
        } else if !exec_is_ncname_char(c) {
            return false;
        }
        i = i + 1;
    }
    true
}

/// Checks `id` against `IDType`.
///
/// Fails with `InvalidIdentifier` carrying `id` exactly when `id` is not an `IDType`.
pub fn validate_id(id: &str) -> (r: Result<(), Error>)
    ensures
        r is Ok <==> is_idtype(id@),
        r matches Err(e) ==> e matches Error::InvalidIdentifier(t) && t@ == id@,
{
    if is_valid_id(id) {
        Ok(())
    } else {
        Err(Error::InvalidIdentifier(owned(id)))
    }
}

/// Checks `id` against `NCNameIDType`.
///
/// Fails with `InvalidNcNameIdentifier` carrying `id` exactly when `id` is not an `NCName`.
pub fn validate_ncname(id: &str) -> (r: Result<(), Error>)
    ensures
        r is Ok <==> is_ncname(id@),
        r matches Err(e) ==> e matches Error::InvalidNcNameIdentifier(t) && t@ == id@,
{
    if is_valid_ncname(id) {
        Ok(())
    } else {
        Err(Error::InvalidNcNameIdentifier(owned(id)))
    }
}

/// Checks an agency id against `NestedNCNameIDType`.
///
/// Fails with `InvalidAgencyIdentifier` carrying `id` exactly when `id` is not a dotted `NCName`.
pub fn validate_nested_ncname(id: &str) -> (r: Result<(), Error>)
    ensures
        r is Ok <==> is_nested_ncname(id@),
        r matches Err(e) ==> e matches Error::InvalidAgencyIdentifier(t) && t@ == id@,
{
    if is_valid_nested_ncname(id) {
        Ok(())
    } else {
        Err(Error::InvalidAgencyIdentifier(owned(id)))
    }
}

/// Whether two strings hold the same characters.
pub fn str_eq(a: &str, b: &str) -> (r: bool)
    ensures
        r == (a@ == b@),
{
    let x = chars_of(a);
    let y = chars_of(b);
    if x.len() != y.len() {
        return false;
    }
    let mut i: usize = 0;
    while i < x.len()
        invariant
            x@ == a@,
            y@ == b@,
            x@.len() == y@.len(),
            i <= x@.len(),
            forall|j: int| 0 <= j < i ==> x@[j] == y@[j],
        decreases x@.len() - i,
    {
        if x[i] != y[i] {
            return false;
        }
        i = i + 1;
    }
    assert(x@ =~= y@);
    true
}

/// Checks a stated value against a schema-`fixed` one: an absent value, or one equal to
/// `fixed`, passes; any other stated value fails with `FixedAttributeMismatch` naming
/// `attribute` and carrying the stated value.
pub fn validate_fixed(attribute: &str, stated: Option<&str>, fixed: &str) -> (r: Result<
    (),
    Error,
>)
    ensures
        r is Ok <==> (stated matches Some(v) ==> v@ == fixed@),
        r matches Err(e) ==> (e matches Error::FixedAttributeMismatch { attribute: a, value: v }
            && a@ == attribute@ && (stated matches Some(s) && v@ == s@)),
{
    match stated {
        None => Ok(()),
        Some(v) => {
            if str_eq(v, fixed) {
                Ok(())
            } else {
                Err(Error::FixedAttributeMismatch { attribute: owned(attribute), value: owned(v) })
            }
        },
    }
}

} // verus!

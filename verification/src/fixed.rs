//! [`FixedInclude`]: the statedness of the `include` attribute, which the schema declares
//! optional with the fixed value `true`.
use crate::chars::owned;
use crate::error::Error;
use vstd::prelude::*;

verus! {

/// The `include` attribute of a data key or key value: omitted (`None`) or stated `true`.
/// A stated `false` contradicts the schema-fixed value and cannot be constructed.
#[derive(Debug, PartialEq, Eq, Hash)]
pub struct FixedInclude(Option<bool>);

impl View for FixedInclude {
    type V = Option<bool>;

    closed spec fn view(&self) -> Option<bool> {
        self.0
    }
}

impl FixedInclude {
    #[verifier::type_invariant]
    closed spec fn never_false(self) -> bool {
        self.0 != Some(false)
    }

    /// Wraps the stated value; a stated `false` fails with `FixedAttributeMismatch` naming
    /// `include` and carrying `false`.
    pub fn new(stated: Option<bool>) -> (r: Result<Self, Error>)
        ensures
            match r {
                Ok(f) => stated != Some(false) && f@ == stated,
                Err(e) => stated == Some(false) && (e matches Error::FixedAttributeMismatch {
                    attribute,
                    value,
                } && attribute@ == "include"@ && value@ == "false"@),
            },
    {
        if stated == Some(false) {
            return Err(Error::FixedAttributeMismatch {
                attribute: owned("include"),
                value: owned("false"),
            });
        }
        Ok(FixedInclude(stated))
    }

    /// The statedness as the wire carried it; never `Some(false)`.
    pub fn stated(&self) -> (r: Option<bool>)
        ensures
            r == self@,
            r != Some(false),
    {
        proof {
            use_type_invariant(self);
        }
        self.0
    }

    /// The effective value: always the fixed `true`.
    pub fn effective_is_included(&self) -> (r: bool)
        ensures
            r,
    {
        true
    }
}

impl Clone for FixedInclude {
    fn clone(&self) -> (r: Self)
        ensures
            r@ == self@,
    {
        proof {
            use_type_invariant(self);
        }
        FixedInclude(self.0)
    }
}

impl Copy for FixedInclude {}

} // verus!

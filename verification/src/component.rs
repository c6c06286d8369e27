//! What every data-structure component shares: the [`ComponentMetadata`] identity leaf, whose
//! id is optional (an absent id means the component takes its concept's identity) and checked
//! as an `NCName` when stated, and the [`Usage`] flag of attributes and measures.
use crate::annotation::{Annotation, Link};
use crate::artefact::{opt_as_str, opt_chars, opt_str_chars};
use crate::error::Error;
use crate::ident::{is_ncname, validate_ncname};
use crate::reference::ConceptReference;
use vstd::prelude::*;

verus! {

/// The component identity leaf: an optional `NCName` id plus optional URI, URN, annotations
/// and links.
#[derive(Clone, Debug, PartialEq, Eq, Hash)]
pub struct ComponentMetadata {
    id: Option<String>,
    uri: Option<String>,
    urn: Option<String>,
    annotations: Vec<Annotation>,
    links: Vec<Link>,
}

/// Whether an optional stated id is acceptable at the component tier: absent, or an `NCName`.
pub open spec fn stated_id_ok(id: Option<String>) -> bool {
    match id {
        Some(s) => is_ncname(s@),
        None => true,
    }
}

impl ComponentMetadata {
    /// The stated id, if any.
    pub closed spec fn spec_stated_id(&self) -> Option<Seq<char>> {
        opt_chars(self.id)
    }

    /// The URI, if any.
    pub closed spec fn spec_uri(&self) -> Option<Seq<char>> {
        opt_chars(self.uri)
    }

    /// The URN, if any.
    pub closed spec fn spec_urn(&self) -> Option<Seq<char>> {
        opt_chars(self.urn)
    }

    /// The annotations, in wire order.
    pub closed spec fn spec_annotations(&self) -> Seq<Annotation> {
        self.annotations@
    }

    /// The links, in wire order.
    pub closed spec fn spec_links(&self) -> Seq<Link> {
        self.links@
    }

    /// Builds the leaf, checking `id` as an `NCName` when it is stated; fails with
    /// `InvalidNcNameIdentifier` carrying it exactly when a stated id is not one.
    pub fn new(
        id: Option<String>,
        uri: Option<String>,
        urn: Option<String>,
        annotations: Vec<Annotation>,
        links: Vec<Link>,
    ) -> (r: Result<Self, Error>)
        ensures
            match r {
                Ok(m) => {
                    &&& stated_id_ok(id)
                    &&& m.spec_stated_id() == opt_chars(id)
                    &&& m.spec_uri() == opt_chars(uri)
                    &&& m.spec_urn() == opt_chars(urn)
                    &&& m.spec_annotations() == annotations@
                    &&& m.spec_links() == links@
                },
                Err(e) => !stated_id_ok(id) && (id matches Some(s) && e
                    == Error::InvalidNcNameIdentifier(s)),
            },
    {
        match id {
            Some(s) => {
                match validate_ncname(s.as_str()) {
                    Ok(()) => Ok(
                        ComponentMetadata { id: Some(s), uri, urn, annotations, links },
                    ),
                    Err(_) => Err(Error::InvalidNcNameIdentifier(s)),
                }
            },
            None => Ok(ComponentMetadata { id: None, uri, urn, annotations, links }),
        }
    }

    /// The id as the wire carried it; `None` means the identity is the concept's.
    pub fn stated_id(&self) -> (r: Option<&str>)
        ensures
            opt_str_chars(r) == self.spec_stated_id(),
    {
        opt_as_str(&self.id)
    }

    /// The URN, if any.
    pub fn urn(&self) -> (r: Option<&str>)
        ensures
            opt_str_chars(r) == self.spec_urn(),
    {
        opt_as_str(&self.urn)
    }

    /// The URI, if any.
    pub fn uri(&self) -> (r: Option<&str>)
        ensures
            opt_str_chars(r) == self.spec_uri(),
    {
        opt_as_str(&self.uri)
    }

    /// The annotations, in wire order.
    pub fn annotations(&self) -> (r: &[Annotation])
        ensures
            r@ == self.spec_annotations(),
    {
        self.annotations.as_slice()
    }

    /// The links, in wire order.
    pub fn links(&self) -> (r: &[Link])
        ensures
            r@ == self.spec_links(),
    {
        self.links.as_slice()
    }

    /// The effective id of a component with this leaf and concept: the stated id, else the
    /// concept's id.
    pub fn effective_id<'a>(&'a self, concept: &'a ConceptReference) -> (r: &'a str)
        ensures
            r@ == effective_component_id(*self, *concept),
    {
        match &self.id {
            Some(s) => s.as_str(),
            None => concept.id.as_str(),
        }
    }
}

/// The effective id of a component: its stated id, else its concept's id.
pub open spec fn effective_component_id(m: ComponentMetadata, concept: ConceptReference) -> Seq<
    char,
> {
    match m.spec_stated_id() {
        Some(s) => s,
        None => concept.id@,
    }
}

/// Whether a component's value is mandatory or optional (`UsageType`).
#[derive(Clone, Copy, Debug, PartialEq, Eq, Structural, Hash)]
pub enum Usage {
    /// The value must be present.
    Mandatory,
    /// The value may be omitted.
    Optional,
}

/// A stated usage with its schema default `Optional` applied.
pub open spec fn usage_or_optional(u: Option<Usage>) -> Usage {
    match u {
        Some(v) => v,
        None => Usage::Optional,
    }
}

/// The effective usage: the stated one, else `Optional`.
pub fn effective_usage_of(u: Option<Usage>) -> (r: Usage)
    ensures
        r == usage_or_optional(u),
{
    match u {
        Some(v) => v,
        None => Usage::Optional,
    }
}

} // verus!

//! [`Measure`]: a data-structure measure, whose representation follows the Basic-tier
//! position rule and whose usage defaults to optional.
use crate::annotation::{Annotation, Link};
use crate::artefact::IdentifiableArtefact;
use crate::component::{
    effective_component_id, effective_usage_of, usage_or_optional, ComponentMetadata, Usage,
};
use crate::error::Error;
use crate::reference::ConceptReference;
use crate::representation::{
    basic_representation_ok, is_text_type_error, opt_deref, stated_text_type,
    validate_basic_representation, Representation,
};
use vstd::prelude::*;

verus! {

/// A measure: its identity leaf, the concept it takes its identity from, an optional local
/// representation, and the stated usage.
#[derive(Clone, Debug, PartialEq, Eq, Hash)]
pub struct Measure {
    metadata: ComponentMetadata,
    concept: ConceptReference,
    representation: Option<Representation>,
    usage: Option<Usage>,
}

impl Measure {
    /// The identity leaf.
    pub closed spec fn spec_metadata(&self) -> ComponentMetadata {
        self.metadata
    }

    /// The concept reference.
    pub closed spec fn spec_concept(&self) -> ConceptReference {
        self.concept
    }

    /// The local representation, if any.
    pub closed spec fn spec_representation(&self) -> Option<Representation> {
        self.representation
    }

    /// The stated usage, if any.
    pub closed spec fn spec_usage(&self) -> Option<Usage> {
        self.usage
    }

    /// Builds a measure, checking its representation against the Basic-tier rule; fails with
    /// `InvalidTextTypeForComponent` naming `Measure` exactly when a stated `textType` lies
    /// outside the Basic subset.
    pub fn new(
        metadata: ComponentMetadata,
        concept: ConceptReference,
        representation: Option<Representation>,
        usage: Option<Usage>,
    ) -> (r: Result<Self, Error>)
        ensures
            match r {
                Ok(m) => {
                    &&& basic_representation_ok(representation)
                    &&& m.spec_metadata() == metadata
                    &&& m.spec_concept() == concept
                    &&& m.spec_representation() == representation
                    &&& m.spec_usage() == usage
                },
                Err(e) => !basic_representation_ok(representation) && (representation matches Some(
                    x,
                ) && stated_text_type(x) matches Some(t) && is_text_type_error(e, "Measure"@, t)),
            },
    {
        match validate_basic_representation("Measure", representation.as_ref()) {
            Ok(()) => Ok(Measure { metadata, concept, representation, usage }),
            Err(e) => Err(e),
        }
    }

    /// The id as the wire carried it; `None` means the measure takes its concept's identity.
    pub fn stated_id(&self) -> (r: Option<&str>)
        ensures
            crate::artefact::opt_str_chars(r) == self.spec_metadata().spec_stated_id(),
    {
        self.metadata.stated_id()
    }

    /// The concept this measure takes its identity from.
    pub fn concept(&self) -> (r: &ConceptReference)
        ensures
            *r == self.spec_concept(),
    {
        &self.concept
    }

    /// The local representation, if any.
    pub fn representation(&self) -> (r: Option<&Representation>)
        ensures
            opt_deref(r) == self.spec_representation(),
    {
        self.representation.as_ref()
    }

    /// The usage as the wire carried it.
    pub fn usage(&self) -> (r: Option<Usage>)
        ensures
            r == self.spec_usage(),
    {
        self.usage
    }

    /// The effective usage: the stated one, else `Optional`.
    pub fn effective_usage(&self) -> (r: Usage)
        ensures
            r == usage_or_optional(self.spec_usage()),
    {
        effective_usage_of(self.usage)
    }
}

impl IdentifiableArtefact for Measure {
    closed spec fn spec_id(&self) -> Seq<char> {
        effective_component_id(self.metadata, self.concept)
    }

    closed spec fn spec_urn(&self) -> Option<Seq<char>> {
        self.metadata.spec_urn()
    }

    closed spec fn spec_uri(&self) -> Option<Seq<char>> {
        self.metadata.spec_uri()
    }

    closed spec fn spec_annotations(&self) -> Seq<Annotation> {
        self.metadata.spec_annotations()
    }

    closed spec fn spec_links(&self) -> Seq<Link> {
        self.metadata.spec_links()
    }

    fn id(&self) -> (r: &str) {
        self.metadata.effective_id(&self.concept)
    }

    fn urn(&self) -> (r: Option<&str>) {
        self.metadata.urn()
    }

    fn uri(&self) -> (r: Option<&str>) {
        self.metadata.uri()
    }

    fn annotations(&self) -> (r: &[Annotation]) {
        self.metadata.annotations()
    }

    fn links(&self) -> (r: &[Link]) {
        self.metadata.links()
    }
}

/// A measure's effective id is its stated id, else its concept's id.
pub proof fn lemma_measure_id(m: Measure)
    ensures
        m.spec_id() == effective_component_id(m.spec_metadata(), m.spec_concept()),
{
}

} // verus!

//! [`Dimension`] and [`TimeDimension`]: the key components of a data structure. A dimension
//! follows the dimension position rule and has an optional stated position, whose effective
//! value is one-based; the time dimension's id is fixed to `TIME_PERIOD` and its mandatory
//! representation follows the time position rule.
use crate::annotation::{Annotation, Link};
use crate::artefact::{opt_str_chars, IdentifiableArtefact};
use crate::component::{effective_component_id, ComponentMetadata};
use crate::error::Error;
use crate::ident::validate_fixed;
use crate::reference::ConceptReference;
use crate::representation::{
    dimension_representation_ok, first_prohibited_time_facet, is_facet_error,
    is_text_type_error, is_value_list_enumeration, opt_deref, sets_multi_lingual,
    stated_text_type, time_representation_ok, time_text_type_ok,
    validate_dimension_representation, validate_time_representation, Representation,
    RepresentationChoice,
};
use vstd::prelude::*;

verus! {

/// A dimension of the ordered key.
#[derive(Clone, Debug, PartialEq, Eq, Hash)]
pub struct Dimension {
    metadata: ComponentMetadata,
    concept: ConceptReference,
    representation: Option<Representation>,
    position: Option<i32>,
}

/// The error the dimension position rule gives for a representation that breaks it.
pub open spec fn dimension_rule_error(x: Representation, e: Error) -> bool {
    if is_value_list_enumeration(x) {
        e matches Error::ValueListEnumerationNotAllowed(c) && c@ == "Dimension"@
    } else if sets_multi_lingual(x) {
        is_facet_error(e, "Dimension"@, "isMultiLingual"@)
    } else {
        stated_text_type(x) matches Some(t) && is_text_type_error(e, "Dimension"@, t)
    }
}

/// The effective one-based position: the stated one, else `list_index + 1`, capped at
/// `i32::MAX`.
pub open spec fn effective_position_spec(position: Option<i32>, list_index: int) -> int {
    match position {
        Some(p) => p as int,
        None => if list_index + 1 <= i32::MAX {
            list_index + 1
        } else {
            i32::MAX as int
        },
    }
}

impl Dimension {
    /// The identity leaf.
    pub closed spec fn spec_metadata(&self) -> ComponentMetadata {
        self.metadata
    }

    /// The concept reference.
    pub closed spec fn spec_concept(&self) -> ConceptReference {
        self.concept
    }

    /// The local representation, if any.
    pub closed spec fn spec_representation(&self) -> Option<Representation> {
        self.representation
    }

    /// The stated position, if any.
    pub closed spec fn spec_position(&self) -> Option<i32> {
        self.position
    }

    /// Builds a dimension, checking its representation against the dimension position rule
    /// (no value-list enumeration, no `isMultiLingual`, a Simple `textType`); fails with the
    /// error of the first rule broken, exactly when one is.
    pub fn new(
        metadata: ComponentMetadata,
        concept: ConceptReference,
        representation: Option<Representation>,
        position: Option<i32>,
    ) -> (r: Result<Self, Error>)
        ensures
            match r {
                Ok(d) => {
                    &&& dimension_representation_ok(representation)
                    &&& d.spec_metadata() == metadata
                    &&& d.spec_concept() == concept
                    &&& d.spec_representation() == representation
                    &&& d.spec_position() == position
                },
                Err(e) => !dimension_representation_ok(representation) && (representation matches Some(
                    x,
                ) && dimension_rule_error(x, e)),
            },
    {
        match validate_dimension_representation(representation.as_ref()) {
            Ok(()) => Ok(Dimension { metadata, concept, representation, position }),
            Err(e) => Err(e),
        }
    }

    /// The id as the wire carried it; `None` means the dimension takes its concept's identity.
    pub fn stated_id(&self) -> (r: Option<&str>)
        ensures
            opt_str_chars(r) == self.spec_metadata().spec_stated_id(),
    {
        self.metadata.stated_id()
    }

    /// The concept this dimension takes its identity from.
    pub fn concept(&self) -> (r: &ConceptReference)
        ensures
            *r == self.spec_concept(),
    {
        &self.concept
    }

    /// The local representation, if any.
    pub fn representation(&self) -> (r: Option<&Representation>)
        ensures
            opt_deref(r) == self.spec_representation(),
    {
        self.representation.as_ref()
    }

    /// The position as the wire carried it.
    pub fn position(&self) -> (r: Option<i32>)
        ensures
            r == self.spec_position(),
    {
        self.position
    }

    /// The effective one-based position: the stated one, else `list_index + 1` (capped at
    /// `i32::MAX`), where `list_index` is the dimension's place in its list.
    pub fn effective_position(&self, list_index: usize) -> (r: i32)
        ensures
            r as int == effective_position_spec(self.spec_position(), list_index as int),
    {
        match self.position {
            Some(p) => p,
            None => {
                if list_index < 2147483647 {
                    (list_index + 1) as i32
                } else {
                    i32::MAX
                }
            },
        }
    }
}

impl IdentifiableArtefact for Dimension {
    closed spec fn spec_id(&self) -> Seq<char> {
        effective_component_id(self.metadata, self.concept)
    }

    closed spec fn spec_urn(&self) -> Option<Seq<char>> {
        self.metadata.spec_urn()
    }

    closed spec fn spec_uri(&self) -> Option<Seq<char>> {
        self.metadata.spec_uri()
    }

    closed spec fn spec_annotations(&self) -> Seq<Annotation> {
        self.metadata.spec_annotations()
    }

    closed spec fn spec_links(&self) -> Seq<Link> {
        self.metadata.spec_links()
    }

    fn id(&self) -> (r: &str) {
        self.metadata.effective_id(&self.concept)
    }

    fn urn(&self) -> (r: Option<&str>) {
        self.metadata.urn()
    }

    fn uri(&self) -> (r: Option<&str>) {
        self.metadata.uri()
    }

    fn annotations(&self) -> (r: &[Annotation]) {
        self.metadata.annotations()
    }

    fn links(&self) -> (r: &[Link]) {
        self.metadata.links()
    }
}

/// A dimension's effective id is its stated id, else its concept's id.
pub proof fn lemma_dimension_id(d: Dimension)
    ensures
        d.spec_id() == effective_component_id(d.spec_metadata(), d.spec_concept()),
{
}

/// The time dimension. It is not part of the ordered key, so it has no position.
#[derive(Clone, Debug, PartialEq, Eq, Hash)]
pub struct TimeDimension {
    metadata: ComponentMetadata,
    concept: ConceptReference,
    representation: Representation,
}

/// The error the time position rule gives for a representation that breaks it.
pub open spec fn time_rule_error(x: Representation, e: Error) -> bool {
    match x.choice {
        RepresentationChoice::Enumeration { .. } => e matches Error::EnumerationNotAllowed(c) && c@
            == "TimeDimension"@,
        RepresentationChoice::TextFormat(tf) => if !time_text_type_ok(x) {
            stated_text_type(x) matches Some(t) && is_text_type_error(e, "TimeDimension"@, t)
        } else {
            first_prohibited_time_facet(tf) matches Some(f) && is_facet_error(
                e,
                "TimeDimension"@,
                f,
            )
        },
    }
}

/// Whether a stated id agrees with the fixed `TIME_PERIOD`: absent, or equal to it.
pub open spec fn time_id_ok(id: Option<Seq<char>>) -> bool {
    id matches Some(s) ==> s == "TIME_PERIOD"@
}

impl TimeDimension {
    /// The identity leaf.
    pub closed spec fn spec_metadata(&self) -> ComponentMetadata {
        self.metadata
    }

    /// The concept reference.
    pub closed spec fn spec_concept(&self) -> ConceptReference {
        self.concept
    }

    /// The representation.
    pub closed spec fn spec_representation(&self) -> Representation {
        self.representation
    }

    /// Builds a time dimension. A stated id other than `TIME_PERIOD` fails with
    /// `FixedAttributeMismatch` (naming `id`, carrying the stated id); otherwise a
    /// representation that breaks the time position rule fails with that rule's error.
    pub fn new(
        metadata: ComponentMetadata,
        concept: ConceptReference,
        representation: Representation,
    ) -> (r: Result<Self, Error>)
        ensures
            match r {
                Ok(d) => {
                    &&& time_id_ok(metadata.spec_stated_id())
                    &&& time_representation_ok(representation)
                    &&& d.spec_metadata() == metadata
                    &&& d.spec_concept() == concept
                    &&& d.spec_representation() == representation
                },
                Err(e) => if !time_id_ok(metadata.spec_stated_id()) {
                    e matches Error::FixedAttributeMismatch { attribute, value } && attribute@
                        == "id"@ && Some(value@) == metadata.spec_stated_id()
                } else {
                    !time_representation_ok(representation) && time_rule_error(representation, e)
                },
            },
    {
        match validate_fixed("id", metadata.stated_id(), "TIME_PERIOD") {
            Ok(()) => {},
            Err(e) => {
                return Err(e);
            },
        }
        match validate_time_representation(&representation) {
            Ok(()) => Ok(TimeDimension { metadata, concept, representation }),
            Err(e) => Err(e),
        }
    }

    /// The id as the wire carried it; the effective id is `TIME_PERIOD` either way.
    pub fn stated_id(&self) -> (r: Option<&str>)
        ensures
            opt_str_chars(r) == self.spec_metadata().spec_stated_id(),
    {
        self.metadata.stated_id()
    }

    /// The concept this time dimension takes its identity from.
    pub fn concept(&self) -> (r: &ConceptReference)
        ensures
            *r == self.spec_concept(),
    {
        &self.concept
    }

    /// The mandatory time representation.
    pub fn representation(&self) -> (r: &Representation)
        ensures
            *r == self.spec_representation(),
    {
        &self.representation
    }
}

impl IdentifiableArtefact for TimeDimension {
    closed spec fn spec_id(&self) -> Seq<char> {
        "TIME_PERIOD"@
    }

    closed spec fn spec_urn(&self) -> Option<Seq<char>> {
        self.metadata.spec_urn()
    }

    closed spec fn spec_uri(&self) -> Option<Seq<char>> {
        self.metadata.spec_uri()
    }

    closed spec fn spec_annotations(&self) -> Seq<Annotation> {
        self.metadata.spec_annotations()
    }

    closed spec fn spec_links(&self) -> Seq<Link> {
        self.metadata.spec_links()
    }

    fn id(&self) -> (r: &str) {
        "TIME_PERIOD"
    }

    fn urn(&self) -> (r: Option<&str>) {
        self.metadata.urn()
    }

    fn uri(&self) -> (r: Option<&str>) {
        self.metadata.uri()
    }

    fn annotations(&self) -> (r: &[Annotation]) {
        self.metadata.annotations()
    }

    fn links(&self) -> (r: &[Link]) {
        self.metadata.links()
    }
}

/// A time dimension's effective id is always `TIME_PERIOD`.
pub proof fn lemma_time_dimension_id(d: TimeDimension)
    ensures
        d.spec_id() == "TIME_PERIOD"@,
{
}

} // verus!

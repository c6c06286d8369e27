//! Data-structure attributes: what an attribute relates to (the dataflow, observations, a
//! group, or a set of dimensions), the measures it relates to, and the metadata-attribute
//! usages an attribute list may also hold.
use crate::annotation::{Annotation, Link};
use crate::artefact::{opt_as_str, opt_chars, opt_str_chars, IdentifiableArtefact};
use crate::component::{
    effective_component_id, effective_usage_of, usage_or_optional, ComponentMetadata, Usage,
};
use crate::error::Error;
use crate::ident::{is_idtype, is_ncname, is_valid_ncname, validate_id, validate_ncname};
use crate::metadata::flag_or_false;
use crate::reference::ConceptReference;
use crate::representation::{
    basic_representation_ok, is_text_type_error, opt_deref, stated_text_type,
    validate_basic_representation, Representation,
};
use vstd::prelude::*;

verus! {

/// A group id: an `IDType` naming a group of the data structure.
#[derive(Debug, PartialEq, Eq, Hash)]
pub struct GroupId(String);

impl View for GroupId {
    type V = Seq<char>;

    closed spec fn view(&self) -> Seq<char> {
        self.0@
    }
}

impl Clone for GroupId {
    fn clone(&self) -> (r: Self)
        ensures
            r@ == self@,
    {
        proof {
            use_type_invariant(self);
        }
        GroupId(self.0.clone())
    }
}

impl GroupId {
    #[verifier::type_invariant]
    closed spec fn well_formed(self) -> bool {
        is_idtype(self.0@)
    }

    /// Wraps `id`; fails with `InvalidIdentifier(id)` exactly when it is not an `IDType`.
    pub fn new(id: String) -> (r: Result<Self, Error>)
        ensures
            match r {
                Ok(g) => is_idtype(id@) && g@ == id@,
                Err(e) => !is_idtype(id@) && e == Error::InvalidIdentifier(id),
            },
    {
        match validate_id(id.as_str()) {
            Ok(()) => Ok(GroupId(id)),
            Err(_) => Err(Error::InvalidIdentifier(id)),
        }
    }

    /// The id.
    pub fn as_str(&self) -> (r: &str)
        ensures
            r@ == self@,
            is_idtype(r@),
    {
        proof {
            use_type_invariant(self);
        }
        self.0.as_str()
    }

    /// Consumes the id, returning its text.
    pub fn into_inner(self) -> (r: String)
        ensures
            r@ == self@,
    {
        self.0
    }
}

impl vstd::std_specs::convert::FromSpecImpl<GroupId> for String {
    open spec fn obeys_from_spec() -> bool {
        true
    }

    closed spec fn from_spec(v: GroupId) -> String {
        v.0
    }
}

impl From<GroupId> for String {
    fn from(v: GroupId) -> (r: String)
        ensures
            r@ == v@,
    {
        v.0
    }
}

/// A reference to a dimension an attribute relates to: an `NCName` id and the stated
/// `optional` flag (default `false`).
#[derive(Debug, PartialEq, Eq, Hash)]
pub struct DimensionRef {
    id: String,
    optional: Option<bool>,
}

impl Clone for DimensionRef {
    fn clone(&self) -> (r: Self)
        ensures
            r.spec_id() == self.spec_id(),
            r.spec_optional() == self.spec_optional(),
    {
        proof {
            use_type_invariant(self);
        }
        DimensionRef { id: self.id.clone(), optional: self.optional }
    }
}

impl DimensionRef {
    #[verifier::type_invariant]
    closed spec fn well_formed(self) -> bool {
        is_ncname(self.id@)
    }

    /// The dimension id.
    pub closed spec fn spec_id(&self) -> Seq<char> {
        self.id@
    }

    /// The stated `optional` flag.
    pub closed spec fn spec_optional(&self) -> Option<bool> {
        self.optional
    }

    /// Builds the reference; fails with `InvalidNcNameIdentifier(id)` exactly when `id` is not
    /// an `NCName`.
    pub fn new(id: String, optional: Option<bool>) -> (r: Result<Self, Error>)
        ensures
            match r {
                Ok(d) => is_ncname(id@) && d.spec_id() == id@ && d.spec_optional() == optional,
                Err(e) => !is_ncname(id@) && e == Error::InvalidNcNameIdentifier(id),
            },
    {
        match validate_ncname(id.as_str()) {
            Ok(()) => Ok(DimensionRef { id, optional }),
            Err(_) => Err(Error::InvalidNcNameIdentifier(id)),
        }
    }

    /// The dimension id.
    pub fn id(&self) -> (r: &str)
        ensures
            r@ == self.spec_id(),
            is_ncname(r@),
    {
        proof {
            use_type_invariant(self);
        }
        self.id.as_str()
    }

    /// The `optional` flag as the wire carried it.
    pub fn optional(&self) -> (r: Option<bool>)
        ensures
            r == self.spec_optional(),
    {
        self.optional
    }

    /// The effective `optional`: the stated value, else `false`.
    pub fn effective_is_optional(&self) -> (r: bool)
        ensures
            r == flag_or_false(self.spec_optional()),
    {
        match self.optional {
            Some(b) => b,
            None => false,
        }
    }
}

/// The dimensions an attribute relates to: a non-empty list, in wire order.
#[derive(Debug, PartialEq, Eq, Hash)]
pub struct DimensionRefs(Vec<DimensionRef>);

impl View for DimensionRefs {
    type V = Seq<DimensionRef>;

    closed spec fn view(&self) -> Seq<DimensionRef> {
        self.0@
    }
}

impl Clone for DimensionRefs {
    fn clone(&self) -> (r: Self)
        ensures
            r@.len() == self@.len(),
    {
        proof {
            use_type_invariant(self);
        }
        DimensionRefs(self.0.clone())
    }
}

impl DimensionRefs {
    #[verifier::type_invariant]
    closed spec fn non_empty(self) -> bool {
        self.0@.len() > 0
    }

    /// Wraps `items`; fails with `EmptyAttributeDimensions` exactly when it is empty.
    pub fn new(items: Vec<DimensionRef>) -> (r: Result<Self, Error>)
        ensures
            match r {
                Ok(v) => items@.len() > 0 && v@ == items@,
                Err(e) => items@.len() == 0 && e == Error::EmptyAttributeDimensions,
            },
    {
        if items.len() == 0 {
            return Err(Error::EmptyAttributeDimensions);
        }
        Ok(DimensionRefs(items))
    }

    /// The items, in wire order (never empty).
    pub fn as_slice(&self) -> (r: &[DimensionRef])
        ensures
            r@ == self@,
            r@.len() > 0,
    {
        proof {
            use_type_invariant(self);
        }
        self.0.as_slice()
    }

    /// Consumes the list, returning its items (never empty).
    pub fn into_inner(self) -> (r: Vec<DimensionRef>)
        ensures
            r@ == self@,
            r@.len() > 0,
    {
        proof {
            use_type_invariant(&self);
        }
        self.0
    }

    /// An iterator over the items, in wire order.
    pub fn iter(&self) -> (r: core::slice::Iter<'_, DimensionRef>)
        ensures
            vstd::std_specs::iter::IteratorSpec::remaining(&r) == self@.as_ref(),
    {
        broadcast use vstd::std_specs::slice::group_slice_axioms;
        self.0.as_slice().iter()
    }
}

/// Iterates the items by reference, in wire order.
impl<'a> IntoIterator for &'a DimensionRefs {
    type Item = &'a DimensionRef;
    type IntoIter = core::slice::Iter<'a, DimensionRef>;

    fn into_iter(self) -> (r: core::slice::Iter<'a, DimensionRef>)
        ensures
            vstd::std_specs::iter::IteratorSpec::remaining(&r) == self@.as_ref(),
    {
        broadcast use vstd::std_specs::slice::group_slice_axioms;
        self.0.as_slice().iter()
    }
}

/// Iterates the items by value, in wire order.
impl IntoIterator for DimensionRefs {
    type Item = DimensionRef;
    type IntoIter = std::vec::IntoIter<DimensionRef>;

    fn into_iter(self) -> (r: std::vec::IntoIter<DimensionRef>)
        ensures
            vstd::std_specs::iter::IteratorSpec::remaining(&r) == self@,
    {
        broadcast use vstd::std_specs::vec::axiom_spec_into_iter;
        self.0.into_iter()
    }
}

impl vstd::std_specs::convert::FromSpecImpl<DimensionRefs> for Vec<DimensionRef> {
    open spec fn obeys_from_spec() -> bool {
        true
    }

    closed spec fn from_spec(v: DimensionRefs) -> Vec<DimensionRef> {
        v.0
    }
}

impl From<DimensionRefs> for Vec<DimensionRef> {
    fn from(v: DimensionRefs) -> (r: Vec<DimensionRef>)
        ensures
            r@ == v@,
    {
        v.0
    }
}

impl vstd::std_specs::convert::TryFromSpecImpl<Vec<DimensionRef>> for DimensionRefs {
    open spec fn obeys_try_from_spec() -> bool {
        true
    }

    closed spec fn try_from_spec(items: Vec<DimensionRef>) -> Result<Self, Error> {
        if items@.len() == 0 {
            Err(Error::EmptyAttributeDimensions)
        } else {
            Ok(DimensionRefs(items))
        }
    }
}

impl TryFrom<Vec<DimensionRef>> for DimensionRefs {
    type Error = Error;

    fn try_from(items: Vec<DimensionRef>) -> (r: Result<Self, Error>)
        ensures
            match r {
                Ok(v) => items@.len() > 0 && v@ == items@,
                Err(e) => items@.len() == 0 && e == Error::EmptyAttributeDimensions,
            },
    {
        if items.len() == 0 {
            Err(Error::EmptyAttributeDimensions)
        } else {
            Ok(DimensionRefs(items))
        }
    }
}

/// What an attribute's values relate to.
#[derive(Clone, Debug, PartialEq, Eq, Hash)]
pub enum AttributeRelationship {
    /// The whole dataflow.
    Dataflow,
    /// Each observation.
    Observation,
    /// A group of the data structure.
    Group(GroupId),
    /// A set of dimensions.
    Dimensions(DimensionRefs),
}

impl AttributeRelationship {
    /// A group relationship; fails with `InvalidIdentifier(id)` exactly when `id` is not an
    /// `IDType`.
    pub fn group(id: String) -> (r: Result<Self, Error>)
        ensures
            match r {
                Ok(a) => is_idtype(id@) && (a matches AttributeRelationship::Group(g) && g@ == id@),
                Err(e) => !is_idtype(id@) && e == Error::InvalidIdentifier(id),
            },
    {
        match GroupId::new(id) {
            Ok(g) => Ok(AttributeRelationship::Group(g)),
            Err(e) => Err(e),
        }
    }

    /// A dimensions relationship; fails with `EmptyAttributeDimensions` exactly when `refs` is
    /// empty.
    pub fn dimensions(refs: Vec<DimensionRef>) -> (r: Result<Self, Error>)
        ensures
            match r {
                Ok(a) => refs@.len() > 0 && (a matches AttributeRelationship::Dimensions(d) && d@
                    == refs@),
                Err(e) => refs@.len() == 0 && e == Error::EmptyAttributeDimensions,
            },
    {
        match DimensionRefs::new(refs) {
            Ok(d) => Ok(AttributeRelationship::Dimensions(d)),
            Err(e) => Err(e),
        }
    }
}

/// The index of the first id in `ids` at or after `i` that is not an `NCName`, or the length.
pub open spec fn first_non_ncname(ids: Seq<String>, i: int) -> int
    decreases ids.len() - i,
{
    if i < 0 || i >= ids.len() || !is_ncname(ids[i]@) {
        i
    } else {
        first_non_ncname(ids, i + 1)
    }
}

proof fn lemma_first_non_ncname(ids: Seq<String>, i: int)
    requires
        0 <= i <= ids.len(),
    ensures
        i <= first_non_ncname(ids, i) <= ids.len(),
        forall|k: int| i <= k < first_non_ncname(ids, i) ==> is_ncname((#[trigger] ids[k])@),
        first_non_ncname(ids, i) < ids.len() ==> !is_ncname(ids[first_non_ncname(ids, i)]@),
    decreases ids.len() - i,
{
    if i < ids.len() && is_ncname(ids[i]@) {
        lemma_first_non_ncname(ids, i + 1);
    }
}

/// The index of the first id that is not an `NCName`, or the length.
fn first_non_ncname_index(ids: &[String]) -> (r: usize)
    ensures
        r == first_non_ncname(ids@, 0),
        r <= ids@.len(),
        r == ids@.len() ==> all_ncnames(ids@),
{
    proof {
        lemma_first_non_ncname(ids@, 0);
    }
    let mut i: usize = 0;
    while i < ids.len()
        invariant
            i <= ids@.len(),
            first_non_ncname(ids@, 0) == first_non_ncname(ids@, i as int),
        decreases ids@.len() - i,
    {
        if !is_valid_ncname(ids[i].as_str()) {
            return i;
        }
        i = i + 1;
    }
    i
}

/// Whether every id in `ids` is an `NCName`.
pub open spec fn all_ncnames(ids: Seq<String>) -> bool {
    forall|k: int| 0 <= k < ids.len() ==> is_ncname((#[trigger] ids[k])@)
}

/// The measures an attribute relates to: a non-empty list of `NCName` measure ids.
#[derive(Debug, PartialEq, Eq, Hash)]
pub struct MeasureRelationship(Vec<String>);

impl View for MeasureRelationship {
    type V = Seq<String>;

    closed spec fn view(&self) -> Seq<String> {
        self.0@
    }
}

impl Clone for MeasureRelationship {
    fn clone(&self) -> (r: Self)
        ensures
            r@.len() == self@.len(),
    {
        proof {
            use_type_invariant(self);
        }
        MeasureRelationship(self.0.clone())
    }
}

impl MeasureRelationship {
    #[verifier::type_invariant]
    closed spec fn well_formed(self) -> bool {
        self.0@.len() > 0 && all_ncnames(self.0@)
    }

    /// Wraps `measure_ids`. An empty list fails with `EmptyMeasureRelationship`; otherwise
    /// the first id that is not an `NCName` fails with `InvalidNcNameIdentifier` carrying it.
    pub fn new(measure_ids: Vec<String>) -> (r: Result<Self, Error>)
        ensures
            match r {
                Ok(m) => measure_ids@.len() > 0 && all_ncnames(measure_ids@) && m@ == measure_ids@,
                Err(e) => if measure_ids@.len() == 0 {
                    e == Error::EmptyMeasureRelationship
                } else {
                    let i = first_non_ncname(measure_ids@, 0);
                    i < measure_ids@.len() && e == Error::InvalidNcNameIdentifier(
                        measure_ids@[i],
                    )
                },
            },
    {
        if measure_ids.len() == 0 {
            return Err(Error::EmptyMeasureRelationship);
        }
        let i = first_non_ncname_index(measure_ids.as_slice());
        if i < measure_ids.len() {
            Err(Error::InvalidNcNameIdentifier(measure_ids[i].clone()))
        } else {
            Ok(MeasureRelationship(measure_ids))
        }
    }

    /// The measure ids, in wire order (never empty, each an `NCName`).
    pub fn as_slice(&self) -> (r: &[String])
        ensures
            r@ == self@,
            r@.len() > 0,
            all_ncnames(r@),
    {
        proof {
            use_type_invariant(self);
        }
        self.0.as_slice()
    }

    /// An iterator over the measure ids, in wire order.
    pub fn iter(&self) -> (r: core::slice::Iter<'_, String>)
        ensures
            vstd::std_specs::iter::IteratorSpec::remaining(&r) == self@.as_ref(),
    {
        broadcast use vstd::std_specs::slice::group_slice_axioms;
        self.0.as_slice().iter()
    }

    /// Consumes the relationship, returning its ids.
    pub fn into_inner(self) -> (r: Vec<String>)
        ensures
            r@ == self@,
    {
        self.0
    }
}

/// Iterates the items by reference, in wire order.
impl<'a> IntoIterator for &'a MeasureRelationship {
    type Item = &'a String;
    type IntoIter = core::slice::Iter<'a, String>;

    fn into_iter(self) -> (r: core::slice::Iter<'a, String>)
        ensures
            vstd::std_specs::iter::IteratorSpec::remaining(&r) == self@.as_ref(),
    {
        broadcast use vstd::std_specs::slice::group_slice_axioms;
        self.0.as_slice().iter()
    }
}

/// Iterates the items by value, in wire order.
impl IntoIterator for MeasureRelationship {
    type Item = String;
    type IntoIter = std::vec::IntoIter<String>;

    fn into_iter(self) -> (r: std::vec::IntoIter<String>)
        ensures
            vstd::std_specs::iter::IteratorSpec::remaining(&r) == self@,
    {
        broadcast use vstd::std_specs::vec::axiom_spec_into_iter;
        self.0.into_iter()
    }
}

impl vstd::std_specs::convert::FromSpecImpl<MeasureRelationship> for Vec<String> {
    open spec fn obeys_from_spec() -> bool {
        true
    }

    closed spec fn from_spec(v: MeasureRelationship) -> Vec<String> {
        v.0
    }
}

impl From<MeasureRelationship> for Vec<String> {
    fn from(v: MeasureRelationship) -> (r: Vec<String>)
        ensures
            r@ == v@,
    {
        v.0
    }
}

impl vstd::std_specs::convert::TryFromSpecImpl<Vec<String>> for MeasureRelationship {
    open spec fn obeys_try_from_spec() -> bool {
        true
    }

    closed spec fn try_from_spec(ids: Vec<String>) -> Result<Self, Error> {
        if ids@.len() == 0 {
            Err(Error::EmptyMeasureRelationship)
        } else if first_non_ncname(ids@, 0) < ids@.len() {
            Err(Error::InvalidNcNameIdentifier(ids@[first_non_ncname(ids@, 0)]))
        } else {
            Ok(MeasureRelationship(ids))
        }
    }
}

impl TryFrom<Vec<String>> for MeasureRelationship {
    type Error = Error;

    fn try_from(measure_ids: Vec<String>) -> (r: Result<Self, Error>)
        ensures
            match r {
                Ok(m) => measure_ids@.len() > 0 && all_ncnames(measure_ids@) && m@ == measure_ids@,
                Err(e) => if measure_ids@.len() == 0 {
                    e == Error::EmptyMeasureRelationship
                } else {
                    let i = first_non_ncname(measure_ids@, 0);
                    i < measure_ids@.len() && e == Error::InvalidNcNameIdentifier(
                        measure_ids@[i],
                    )
                },
            },
    {
        if measure_ids.len() == 0 {
            return Err(Error::EmptyMeasureRelationship);
        }
        let i = first_non_ncname_index(measure_ids.as_slice());
        if i < measure_ids.len() {
            Err(Error::InvalidNcNameIdentifier(measure_ids[i].clone()))
        } else {
            Ok(MeasureRelationship(measure_ids))
        }
    }
}

/// A data-structure attribute: its identity leaf, concept, concept roles, optional local
/// representation (Basic-tier rule), relationship, optional measure relationship and usage.
#[derive(Clone, Debug, PartialEq, Eq, Hash)]
pub struct Attribute {
    metadata: ComponentMetadata,
    concept: ConceptReference,
    concept_roles: Vec<ConceptReference>,
    representation: Option<Representation>,
    relationship: AttributeRelationship,
    measure_relationship: Option<MeasureRelationship>,
    usage: Option<Usage>,
}

impl Attribute {
    /// The identity leaf.
    pub closed spec fn spec_metadata(&self) -> ComponentMetadata {
        self.metadata
    }

    /// The concept reference.
    pub closed spec fn spec_concept(&self) -> ConceptReference {
        self.concept
    }

    /// The concept roles, in wire order.
    pub closed spec fn spec_concept_roles(&self) -> Seq<ConceptReference> {
        self.concept_roles@
    }

    /// The local representation, if any.
    pub closed spec fn spec_representation(&self) -> Option<Representation> {
        self.representation
    }

    /// The relationship.
    pub closed spec fn spec_relationship(&self) -> AttributeRelationship {
        self.relationship
    }

    /// The measure relationship, if any.
    pub closed spec fn spec_measure_relationship(&self) -> Option<MeasureRelationship> {
        self.measure_relationship
    }

    /// The stated usage, if any.
    pub closed spec fn spec_usage(&self) -> Option<Usage> {
        self.usage
    }

    /// Builds an attribute, checking its representation against the Basic-tier rule; fails
    /// with `InvalidTextTypeForComponent` naming `Attribute` exactly when a stated `textType`
    /// lies outside the Basic subset.
    pub fn new(
        metadata: ComponentMetadata,
        concept: ConceptReference,
        concept_roles: Vec<ConceptReference>,
        representation: Option<Representation>,
        relationship: AttributeRelationship,
        measure_relationship: Option<MeasureRelationship>,
        usage: Option<Usage>,
    ) -> (r: Result<Self, Error>)
        ensures
            match r {
                Ok(a) => {
                    &&& basic_representation_ok(representation)
                    &&& a.spec_metadata() == metadata
                    &&& a.spec_concept() == concept
                    &&& a.spec_concept_roles() == concept_roles@
                    &&& a.spec_representation() == representation
                    &&& a.spec_relationship() == relationship
                    &&& a.spec_measure_relationship() == measure_relationship
                    &&& a.spec_usage() == usage
                },
                Err(e) => !basic_representation_ok(representation) && (representation matches Some(
                    x,
                ) && stated_text_type(x) matches Some(t) && is_text_type_error(e, "Attribute"@, t)),
            },
    {
        match validate_basic_representation("Attribute", representation.as_ref()) {
            Ok(()) => Ok(
                Attribute {
                    metadata,
                    concept,
                    concept_roles,
                    representation,
                    relationship,
                    measure_relationship,
                    usage,
                },
            ),
            Err(e) => Err(e),
        }
    }

    /// The id as the wire carried it; `None` means the attribute takes its concept's identity.
    pub fn stated_id(&self) -> (r: Option<&str>)
        ensures
            opt_str_chars(r) == self.spec_metadata().spec_stated_id(),
    {
        self.metadata.stated_id()
    }

    /// The concept this attribute takes its identity from.
    pub fn concept(&self) -> (r: &ConceptReference)
        ensures
            *r == self.spec_concept(),
    {
        &self.concept
    }

    /// The concept roles, in wire order (possibly empty).
    pub fn concept_roles(&self) -> (r: &[ConceptReference])
        ensures
            r@ == self.spec_concept_roles(),
    {
        self.concept_roles.as_slice()
    }

    /// The local representation, if any.
    pub fn representation(&self) -> (r: Option<&Representation>)
        ensures
            opt_deref(r) == self.spec_representation(),
    {
        self.representation.as_ref()
    }

    /// What the attribute's values relate to.
    pub fn relationship(&self) -> (r: &AttributeRelationship)
        ensures
            *r == self.spec_relationship(),
    {
        &self.relationship
    }

    /// The measures the attribute relates to, if stated.
    pub fn measure_relationship(&self) -> (r: Option<&MeasureRelationship>)
        ensures
            opt_deref(r) == self.spec_measure_relationship(),
    {
        self.measure_relationship.as_ref()
    }

    /// The usage as the wire carried it.
    pub fn usage(&self) -> (r: Option<Usage>)
        ensures
            r == self.spec_usage(),
    {
        self.usage
    }

    /// The effective usage: the stated one, else `Optional`.
    pub fn effective_usage(&self) -> (r: Usage)
        ensures
            r == usage_or_optional(self.spec_usage()),
    {
        effective_usage_of(self.usage)
    }
}

impl IdentifiableArtefact for Attribute {
    closed spec fn spec_id(&self) -> Seq<char> {
        effective_component_id(self.metadata, self.concept)
    }

    closed spec fn spec_urn(&self) -> Option<Seq<char>> {
        self.metadata.spec_urn()
    }

    closed spec fn spec_uri(&self) -> Option<Seq<char>> {
        self.metadata.spec_uri()
    }

    closed spec fn spec_annotations(&self) -> Seq<Annotation> {
        self.metadata.spec_annotations()
    }

    closed spec fn spec_links(&self) -> Seq<Link> {
        self.metadata.spec_links()
    }

    fn id(&self) -> (r: &str) {
        self.metadata.effective_id(&self.concept)
    }

    fn urn(&self) -> (r: Option<&str>) {
        self.metadata.urn()
    }

    fn uri(&self) -> (r: Option<&str>) {
        self.metadata.uri()
    }

    fn annotations(&self) -> (r: &[Annotation]) {
        self.metadata.annotations()
    }

    fn links(&self) -> (r: &[Link]) {
        self.metadata.links()
    }
}

/// An attribute's effective id is its stated id, else its concept's id.
pub proof fn lemma_attribute_id(a: Attribute)
    ensures
        a.spec_id() == effective_component_id(a.spec_metadata(), a.spec_concept()),
{
}

/// The use of a metadata attribute in an attribute list: an `NCName` reference to the
/// metadata attribute, annotations, an optional link, URN and URI, and a relationship.
#[derive(Debug, PartialEq, Eq, Hash)]
pub struct MetadataAttributeUsage {
    metadata_attribute_ref: String,
    annotations: Vec<Annotation>,
    link: Option<Link>,
    urn: Option<String>,
    uri: Option<String>,
    relationship: AttributeRelationship,
}

impl Clone for MetadataAttributeUsage {
    fn clone(&self) -> (r: Self)
        ensures
            r.spec_ref() == self.spec_ref(),
    {
        proof {
            use_type_invariant(self);
        }
        MetadataAttributeUsage {
            metadata_attribute_ref: self.metadata_attribute_ref.clone(),
            annotations: self.annotations.clone(),
            link: self.link.clone(),
            urn: self.urn.clone(),
            uri: self.uri.clone(),
            relationship: self.relationship.clone(),
        }
    }
}

impl MetadataAttributeUsage {
    #[verifier::type_invariant]
    closed spec fn well_formed(self) -> bool {
        is_ncname(self.metadata_attribute_ref@)
    }

    /// The referenced metadata attribute id.
    pub closed spec fn spec_ref(&self) -> Seq<char> {
        self.metadata_attribute_ref@
    }

    /// The annotations, in wire order.
    pub closed spec fn spec_annotations(&self) -> Seq<Annotation> {
        self.annotations@
    }

    /// The link, if any.
    pub closed spec fn spec_link(&self) -> Option<Link> {
        self.link
    }

    /// The URN, if any.
    pub closed spec fn spec_urn(&self) -> Option<Seq<char>> {
        opt_chars(self.urn)
    }

    /// The URI, if any.
    pub closed spec fn spec_uri(&self) -> Option<Seq<char>> {
        opt_chars(self.uri)
    }

    /// The relationship.
    pub closed spec fn spec_relationship(&self) -> AttributeRelationship {
        self.relationship
    }

    /// Builds the usage; fails with `InvalidNcNameIdentifier` carrying the reference exactly
    /// when it is not an `NCName`.
    pub fn new(
        metadata_attribute_ref: String,
        annotations: Vec<Annotation>,
        link: Option<Link>,
        urn: Option<String>,
        uri: Option<String>,
        relationship: AttributeRelationship,
    ) -> (r: Result<Self, Error>)
        ensures
            match r {
                Ok(m) => {
                    &&& is_ncname(metadata_attribute_ref@)
                    &&& m.spec_ref() == metadata_attribute_ref@
                    &&& m.spec_annotations() == annotations@
                    &&& m.spec_link() == link
                    &&& m.spec_urn() == opt_chars(urn)
                    &&& m.spec_uri() == opt_chars(uri)
                    &&& m.spec_relationship() == relationship
                },
                Err(e) => !is_ncname(metadata_attribute_ref@) && e
                    == Error::InvalidNcNameIdentifier(metadata_attribute_ref),
            },
    {
        match validate_ncname(metadata_attribute_ref.as_str()) {
            Ok(()) => Ok(
                MetadataAttributeUsage {
                    metadata_attribute_ref,
                    annotations,
                    link,
                    urn,
                    uri,
                    relationship,
                },
            ),
            Err(_) => Err(Error::InvalidNcNameIdentifier(metadata_attribute_ref)),
        }
    }

    /// The referenced metadata attribute id.
    pub fn metadata_attribute_ref(&self) -> (r: &str)
        ensures
            r@ == self.spec_ref(),
            is_ncname(r@),
    {
        proof {
            use_type_invariant(self);
        }
        self.metadata_attribute_ref.as_str()
    }

    /// The annotations, in wire order.
    pub fn annotations(&self) -> (r: &[Annotation])
        ensures
            r@ == self.spec_annotations(),
    {
        self.annotations.as_slice()
    }

    /// The link, if any.
    pub fn link(&self) -> (r: Option<&Link>)
        ensures
            opt_deref(r) == self.spec_link(),
    {
        self.link.as_ref()
    }

    /// The URN, if any.
    pub fn urn(&self) -> (r: Option<&str>)
        ensures
            opt_str_chars(r) == self.spec_urn(),
    {
        opt_as_str(&self.urn)
    }

    /// The URI, if any.
    pub fn uri(&self) -> (r: Option<&str>)
        ensures
            opt_str_chars(r) == self.spec_uri(),
    {
        opt_as_str(&self.uri)
    }

    /// What the usage relates to.
    pub fn relationship(&self) -> (r: &AttributeRelationship)
        ensures
            *r == self.spec_relationship(),
    {
        &self.relationship
    }
}

/// A member of an attribute list: an attribute or a metadata-attribute usage.
#[derive(Clone, Debug, PartialEq, Eq, Hash)]
pub enum AttributeListMember {
    /// A data attribute.
    Attribute(Attribute),
    /// A metadata-attribute usage.
    MetadataAttributeUsage(MetadataAttributeUsage),
}

} // verus!

//! Concepts and concept schemes. A concept's id is an `NCName` and its core
//! representation follows the Basic-tier position rule; a concept scheme's id is an `NCName`.
use crate::annotation::{Annotation, Link};
use crate::artefact::{
    opt_as_str, opt_chars, opt_str_chars, IdentifiableArtefact, MaintainableArtefact,
    NameableArtefact, VersionableArtefact,
};
use crate::date_time::SdmxDateTime;
use crate::error::Error;
use crate::ident::{is_ncname, validate_ncname};
use crate::localised::LocalisedString;
use crate::lookup::first_with_id;
use crate::metadata::{flag_or_false, MaintainableMetadata, NameableMetadata};
use crate::representation::{
    basic_representation_ok, is_text_type_error, opt_deref, stated_text_type,
    validate_basic_representation, Representation,
};
use crate::scheme::{ItemScheme, SchemeItem};
use crate::version::SdmxVersion;
use vstd::prelude::*;

verus! {

/// A concept: nameable metadata with an `NCName` id, an optional parent concept id (a
/// structural reference, not validated), and an optional core representation.
#[derive(Clone, Debug, PartialEq, Eq, Hash)]
pub struct Concept {
    metadata: NameableMetadata,
    parent_id: Option<String>,
    core_representation: Option<Representation>,
}

impl Concept {
    /// The concept's metadata.
    pub closed spec fn spec_metadata(&self) -> NameableMetadata {
        self.metadata
    }

    /// The parent concept id, if any.
    pub closed spec fn spec_parent_id(&self) -> Option<Seq<char>> {
        opt_chars(self.parent_id)
    }

    /// The core representation, if any.
    pub closed spec fn spec_core_representation(&self) -> Option<Representation> {
        self.core_representation
    }

    /// Builds a concept. An id that is not an `NCName` fails with `InvalidNcNameIdentifier`
    /// carrying it; otherwise a core representation whose stated `textType` lies outside the
    /// Basic subset fails with `InvalidTextTypeForComponent` naming `Concept`.
    pub fn new(
        metadata: NameableMetadata,
        parent_id: Option<String>,
        core_representation: Option<Representation>,
    ) -> (r: Result<Self, Error>)
        ensures
            match r {
                Ok(c) => {
                    &&& is_ncname(metadata.spec_id())
                    &&& basic_representation_ok(core_representation)
                    &&& c.spec_metadata() == metadata
                    &&& c.spec_parent_id() == opt_chars(parent_id)
                    &&& c.spec_core_representation() == core_representation
                },
                Err(e) => if !is_ncname(metadata.spec_id()) {
                    e matches Error::InvalidNcNameIdentifier(s) && s@ == metadata.spec_id()
                } else {
                    !basic_representation_ok(core_representation) && (core_representation matches Some(
                        x,
                    ) && stated_text_type(x) matches Some(t) && is_text_type_error(
                        e,
                        "Concept"@,
                        t,
                    ))
                },
            },
    {
        match validate_ncname(metadata.id()) {
            Ok(()) => {},
            Err(e) => {
                return Err(e);
            },
        }
        match validate_basic_representation("Concept", core_representation.as_ref()) {
            Ok(()) => Ok(Concept { metadata, parent_id, core_representation }),
            Err(e) => Err(e),
        }
    }

    /// The parent concept id, if any.
    pub fn parent_id(&self) -> (r: Option<&str>)
        ensures
            opt_str_chars(r) == self.spec_parent_id(),
    {
        opt_as_str(&self.parent_id)
    }

    /// The core representation, if any.
    pub fn core_representation(&self) -> (r: Option<&Representation>)
        ensures
            opt_deref(r) == self.spec_core_representation(),
    {
        self.core_representation.as_ref()
    }
}

impl IdentifiableArtefact for Concept {
    closed spec fn spec_id(&self) -> Seq<char> {
        self.metadata.spec_id()
    }

    closed spec fn spec_urn(&self) -> Option<Seq<char>> {
        self.metadata.spec_urn()
    }

    closed spec fn spec_uri(&self) -> Option<Seq<char>> {
        self.metadata.spec_uri()
    }

    closed spec fn spec_annotations(&self) -> Seq<Annotation> {
        self.metadata.spec_annotations()
    }

    closed spec fn spec_links(&self) -> Seq<Link> {
        self.metadata.spec_links()
    }

    fn id(&self) -> (r: &str) {
        self.metadata.id()
    }

    fn urn(&self) -> (r: Option<&str>) {
        self.metadata.urn()
    }

    fn uri(&self) -> (r: Option<&str>) {
        self.metadata.uri()
    }

    fn annotations(&self) -> (r: &[Annotation]) {
        self.metadata.annotations()
    }

    fn links(&self) -> (r: &[Link]) {
        self.metadata.links()
    }
}

impl NameableArtefact for Concept {
    closed spec fn spec_names(&self) -> LocalisedString {
        self.metadata.spec_names()
    }

    closed spec fn spec_descriptions(&self) -> Option<LocalisedString> {
        self.metadata.spec_descriptions()
    }

    fn names(&self) -> (r: &LocalisedString) {
        self.metadata.names()
    }

    fn descriptions(&self) -> (r: Option<&LocalisedString>) {
        self.metadata.descriptions()
    }
}

impl SchemeItem for Concept {

}

/// A concept's accessors are those of its metadata.
pub proof fn lemma_concept_delegates(c: Concept)
    ensures
        c.spec_id() == c.spec_metadata().spec_id(),
        c.spec_urn() == c.spec_metadata().spec_urn(),
        c.spec_uri() == c.spec_metadata().spec_uri(),
        c.spec_annotations() == c.spec_metadata().spec_annotations(),
        c.spec_links() == c.spec_metadata().spec_links(),
        c.spec_names() == c.spec_metadata().spec_names(),
        c.spec_descriptions() == c.spec_metadata().spec_descriptions(),
{
}

/// A maintainable scheme of concepts whose id is an `NCName`.
#[derive(Clone, Debug, PartialEq, Eq, Hash)]
pub struct ConceptScheme {
    scheme: ItemScheme<Concept>,
}

impl ConceptScheme {
    /// The underlying scheme.
    pub closed spec fn spec_scheme(&self) -> ItemScheme<Concept> {
        self.scheme
    }

    /// Builds an empty concept scheme, checking the scheme id as an `NCName`; fails with
    /// `InvalidNcNameIdentifier` carrying the id exactly when it is not one.
    pub fn new(metadata: MaintainableMetadata, is_partial: Option<bool>) -> (r: Result<
        Self,
        Error,
    >)
        ensures
            match r {
                Ok(c) => {
                    &&& is_ncname(metadata.spec_id())
                    &&& c.spec_scheme().spec_metadata() == metadata
                    &&& c.spec_scheme().spec_is_partial() == is_partial
                    &&& c.spec_scheme().spec_items() == Seq::<Concept>::empty()
                },
                Err(e) => !is_ncname(metadata.spec_id()) && (e matches Error::InvalidNcNameIdentifier(
                    s,
                ) && s@ == metadata.spec_id()),
            },
    {
        match validate_ncname(metadata.id()) {
            Ok(()) => Ok(ConceptScheme { scheme: ItemScheme::new(metadata, is_partial) }),
            Err(e) => Err(e),
        }
    }

    /// Appends a concept, keeping wire order.
    pub fn insert(&mut self, concept: Concept)
        ensures
            final(self).spec_scheme().spec_metadata() == old(self).spec_scheme().spec_metadata(),
            final(self).spec_scheme().spec_is_partial() == old(
                self,
            ).spec_scheme().spec_is_partial(),
            final(self).spec_scheme().spec_items() == old(self).spec_scheme().spec_items().push(
                concept,
            ),
    {
        self.scheme.push(concept);
    }

    /// The first concept whose id is `id`, in wire order.
    pub fn get(&self, id: &str) -> (r: Option<&Concept>)
        ensures
            match r {
                Some(x) => first_with_id(self.spec_scheme().spec_items(), id@) == Some(*x),
                None => first_with_id(self.spec_scheme().spec_items(), id@) is None,
            },
    {
        self.scheme.get(id)
    }

    /// An iterator over the concepts, in wire order.
    pub fn iter(&self) -> (r: core::slice::Iter<'_, Concept>)
        ensures
            vstd::std_specs::iter::IteratorSpec::remaining(&r)
                == self.spec_scheme().spec_items().as_ref(),
    {
        self.scheme.iter()
    }

    /// The effective `isPartial`: the stated value, else `false`.
    pub fn is_partial(&self) -> (r: bool)
        ensures
            r == flag_or_false(self.spec_scheme().spec_is_partial()),
    {
        self.scheme.is_partial()
    }

    /// The `isPartial` attribute as the wire carried it (`None` when absent).
    pub fn stated_is_partial(&self) -> (r: Option<bool>)
        ensures
            r == self.spec_scheme().spec_is_partial(),
    {
        self.scheme.stated_is_partial()
    }

    /// The scheme's maintainable metadata.
    pub fn metadata(&self) -> (r: &MaintainableMetadata)
        ensures
            *r == self.spec_scheme().spec_metadata(),
    {
        self.scheme.metadata()
    }
}

impl IdentifiableArtefact for ConceptScheme {
    closed spec fn spec_id(&self) -> Seq<char> {
        self.scheme.spec_id()
    }

    closed spec fn spec_urn(&self) -> Option<Seq<char>> {
        self.scheme.spec_urn()
    }

    closed spec fn spec_uri(&self) -> Option<Seq<char>> {
        self.scheme.spec_uri()
    }

    closed spec fn spec_annotations(&self) -> Seq<Annotation> {
        self.scheme.spec_annotations()
    }

    closed spec fn spec_links(&self) -> Seq<Link> {
        self.scheme.spec_links()
    }

    fn id(&self) -> (r: &str) {
        self.scheme.id()
    }

    fn urn(&self) -> (r: Option<&str>) {
        self.scheme.urn()
    }

    fn uri(&self) -> (r: Option<&str>) {
        self.scheme.uri()
    }

    fn annotations(&self) -> (r: &[Annotation]) {
        self.scheme.annotations()
    }

    fn links(&self) -> (r: &[Link]) {
        self.scheme.links()
    }
}

impl NameableArtefact for ConceptScheme {
    closed spec fn spec_names(&self) -> LocalisedString {
        self.scheme.spec_names()
    }

    closed spec fn spec_descriptions(&self) -> Option<LocalisedString> {
        self.scheme.spec_descriptions()
    }

    fn names(&self) -> (r: &LocalisedString) {
        self.scheme.names()
    }

    fn descriptions(&self) -> (r: Option<&LocalisedString>) {
        self.scheme.descriptions()
    }
}

impl VersionableArtefact for ConceptScheme {
    closed spec fn spec_version(&self) -> Option<SdmxVersion> {
        self.scheme.spec_version()
    }

    closed spec fn spec_valid_from(&self) -> Option<SdmxDateTime> {
        self.scheme.spec_valid_from()
    }

    closed spec fn spec_valid_to(&self) -> Option<SdmxDateTime> {
        self.scheme.spec_valid_to()
    }

    fn version(&self) -> (r: Option<&SdmxVersion>) {
        self.scheme.version()
    }

    fn valid_from(&self) -> (r: Option<&SdmxDateTime>) {
        self.scheme.valid_from()
    }

    fn valid_to(&self) -> (r: Option<&SdmxDateTime>) {
        self.scheme.valid_to()
    }
}

impl MaintainableArtefact for ConceptScheme {
    closed spec fn spec_agency(&self) -> Seq<char> {
        self.scheme.spec_agency()
    }

    closed spec fn spec_is_partial_language(&self) -> bool {
        self.scheme.spec_is_partial_language()
    }

    closed spec fn spec_is_external_reference(&self) -> bool {
        self.scheme.spec_is_external_reference()
    }

    closed spec fn spec_service_url(&self) -> Option<Seq<char>> {
        self.scheme.spec_service_url()
    }

    closed spec fn spec_structure_url(&self) -> Option<Seq<char>> {
        self.scheme.spec_structure_url()
    }

    fn agency(&self) -> (r: &str) {
        self.scheme.agency()
    }

    fn is_partial_language(&self) -> (r: bool) {
        self.scheme.is_partial_language()
    }

    fn is_external_reference(&self) -> (r: bool) {
        self.scheme.is_external_reference()
    }

    fn service_url(&self) -> (r: Option<&str>) {
        self.scheme.service_url()
    }

    fn structure_url(&self) -> (r: Option<&str>) {
        self.scheme.structure_url()
    }
}

/// A concept scheme's accessors are those of its scheme's metadata.
pub proof fn lemma_concept_scheme_delegates(c: ConceptScheme)
    ensures
        c.spec_id() == c.spec_scheme().spec_metadata().spec_id(),
        c.spec_urn() == c.spec_scheme().spec_metadata().spec_urn(),
        c.spec_uri() == c.spec_scheme().spec_metadata().spec_uri(),
        c.spec_annotations() == c.spec_scheme().spec_metadata().spec_annotations(),
        c.spec_links() == c.spec_scheme().spec_metadata().spec_links(),
        c.spec_names() == c.spec_scheme().spec_metadata().spec_names(),
        c.spec_descriptions() == c.spec_scheme().spec_metadata().spec_descriptions(),
        c.spec_version() == c.spec_scheme().spec_metadata().spec_version(),
        c.spec_valid_from() == c.spec_scheme().spec_metadata().spec_valid_from(),
        c.spec_valid_to() == c.spec_scheme().spec_metadata().spec_valid_to(),
        c.spec_agency() == c.spec_scheme().spec_metadata().spec_agency(),
        c.spec_is_partial_language() == c.spec_scheme().spec_metadata().spec_is_partial_language(),
        c.spec_is_external_reference() == c.spec_scheme().spec_metadata().spec_is_external_reference(),
        c.spec_service_url() == c.spec_scheme().spec_metadata().spec_service_url(),
        c.spec_structure_url() == c.spec_scheme().spec_metadata().spec_structure_url(),
{
    crate::scheme::lemma_scheme_delegates(c.spec_scheme());
}

} // verus!

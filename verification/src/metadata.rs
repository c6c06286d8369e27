//! The four metadata leaves that store what the artefact traits expose:
//! `IdentifiableMetadata → NameableMetadata → VersionableMetadata → MaintainableMetadata`,
//! each composing its predecessor and delegating the inherited accessors to it. Fields are
//! private; each constructor is the single write path and states every accessor's value.
use crate::annotation::{Annotation, Link};
use crate::artefact::{
    opt_as_str, opt_chars, IdentifiableArtefact, MaintainableArtefact, NameableArtefact,
    VersionableArtefact,
};
use crate::date_time::SdmxDateTime;
use crate::error::Error;
use crate::ident::{is_idtype, is_nested_ncname, validate_id, validate_nested_ncname};
use crate::localised::LocalisedString;
use crate::version::SdmxVersion;
use vstd::prelude::*;

verus! {

/// The identifiable leaf: an `IDType` id, optional URI and URN, annotations and links.
#[derive(Clone, Debug, PartialEq, Eq, Hash)]
pub struct IdentifiableMetadata {
    id: String,
    uri: Option<String>,
    urn: Option<String>,
    annotations: Vec<Annotation>,
    links: Vec<Link>,
}

impl IdentifiableMetadata {
    /// Builds the leaf, checking `id` against `IDType`, the loosest identifier tier; fails
    /// with `InvalidIdentifier(id)` exactly when it is not one.
    pub fn new(
        id: String,
        uri: Option<String>,
        urn: Option<String>,
        annotations: Vec<Annotation>,
        links: Vec<Link>,
    ) -> (r: Result<Self, Error>)
        ensures
            match r {
                Ok(m) => {
                    &&& is_idtype(id@)
                    &&& m.spec_id() == id@
                    &&& m.spec_uri() == opt_chars(uri)
                    &&& m.spec_urn() == opt_chars(urn)
                    &&& m.spec_annotations() == annotations@
                    &&& m.spec_links() == links@
                },
                Err(e) => !is_idtype(id@) && e == Error::InvalidIdentifier(id),
            },
    {
        match validate_id(id.as_str()) {
            Ok(()) => Ok(IdentifiableMetadata { id, uri, urn, annotations, links }),
            Err(_) => Err(Error::InvalidIdentifier(id)),
        }
    }
}

impl IdentifiableArtefact for IdentifiableMetadata {
    closed spec fn spec_id(&self) -> Seq<char> {
        self.id@
    }

    closed spec fn spec_urn(&self) -> Option<Seq<char>> {
        opt_chars(self.urn)
    }

    closed spec fn spec_uri(&self) -> Option<Seq<char>> {
        opt_chars(self.uri)
    }

    closed spec fn spec_annotations(&self) -> Seq<Annotation> {
        self.annotations@
    }

    closed spec fn spec_links(&self) -> Seq<Link> {
        self.links@
    }

    fn id(&self) -> (r: &str) {
        self.id.as_str()
    }

    fn urn(&self) -> (r: Option<&str>) {
        opt_as_str(&self.urn)
    }

    fn uri(&self) -> (r: Option<&str>) {
        opt_as_str(&self.uri)
    }

    fn annotations(&self) -> (r: &[Annotation]) {
        self.annotations.as_slice()
    }

    fn links(&self) -> (r: &[Link]) {
        self.links.as_slice()
    }
}

/// The nameable leaf: identifiable metadata plus names and optional descriptions.
#[derive(Clone, Debug, PartialEq, Eq, Hash)]
pub struct NameableMetadata {
    identifiable: IdentifiableMetadata,
    names: LocalisedString,
    descriptions: Option<LocalisedString>,
}

impl NameableMetadata {
    /// Composes the leaf; every invariant is already held by its parts.
    pub fn new(
        identifiable: IdentifiableMetadata,
        names: LocalisedString,
        descriptions: Option<LocalisedString>,
    ) -> (r: Self)
        ensures
            r.spec_id() == identifiable.spec_id(),
            r.spec_urn() == identifiable.spec_urn(),
            r.spec_uri() == identifiable.spec_uri(),
            r.spec_annotations() == identifiable.spec_annotations(),
            r.spec_links() == identifiable.spec_links(),
            r.spec_names() == names,
            r.spec_descriptions() == descriptions,
    {
        NameableMetadata { identifiable, names, descriptions }
    }
}

impl IdentifiableArtefact for NameableMetadata {
    closed spec fn spec_id(&self) -> Seq<char> {
        self.identifiable.spec_id()
    }

    closed spec fn spec_urn(&self) -> Option<Seq<char>> {
        self.identifiable.spec_urn()
    }

    closed spec fn spec_uri(&self) -> Option<Seq<char>> {
        self.identifiable.spec_uri()
    }

    closed spec fn spec_annotations(&self) -> Seq<Annotation> {
        self.identifiable.spec_annotations()
    }

    closed spec fn spec_links(&self) -> Seq<Link> {
        self.identifiable.spec_links()
    }

    fn id(&self) -> (r: &str) {
        self.identifiable.id()
    }

    fn urn(&self) -> (r: Option<&str>) {
        self.identifiable.urn()
    }

    fn uri(&self) -> (r: Option<&str>) {
        self.identifiable.uri()
    }

    fn annotations(&self) -> (r: &[Annotation]) {
        self.identifiable.annotations()
    }

    fn links(&self) -> (r: &[Link]) {
        self.identifiable.links()
    }
}

impl NameableArtefact for NameableMetadata {
    closed spec fn spec_names(&self) -> LocalisedString {
        self.names
    }

    closed spec fn spec_descriptions(&self) -> Option<LocalisedString> {
        self.descriptions
    }

    fn names(&self) -> (r: &LocalisedString) {
        &self.names
    }

    fn descriptions(&self) -> (r: Option<&LocalisedString>) {
        match &self.descriptions {
            Some(d) => Some(d),
            None => None,
        }
    }
}

/// The versionable leaf: nameable metadata plus an optional version and validity window.
///
/// The validity bounds are held as [`SdmxDateTime`] values, which keep the lexeme as
/// written. Equality of two leaves therefore compares the bounds by their spelling, not by
/// the instant they denote: bounds written `...T00:00:00Z` and `...T00:00:00+00:00` name the
/// same moment but make the leaves unequal. Compare the instants where the moment matters.
#[derive(Clone, Debug, PartialEq, Eq, Hash)]
pub struct VersionableMetadata {
    nameable: NameableMetadata,
    version: Option<SdmxVersion>,
    valid_from: Option<SdmxDateTime>,
    valid_to: Option<SdmxDateTime>,
}

impl VersionableMetadata {
    /// Composes the leaf; every invariant is already held by its parts.
    pub fn new(
        nameable: NameableMetadata,
        version: Option<SdmxVersion>,
        valid_from: Option<SdmxDateTime>,
        valid_to: Option<SdmxDateTime>,
    ) -> (r: Self)
        ensures
            r.spec_id() == nameable.spec_id(),
            r.spec_urn() == nameable.spec_urn(),
            r.spec_uri() == nameable.spec_uri(),
            r.spec_annotations() == nameable.spec_annotations(),
            r.spec_links() == nameable.spec_links(),
            r.spec_names() == nameable.spec_names(),
            r.spec_descriptions() == nameable.spec_descriptions(),
            r.spec_version() == version,
            r.spec_valid_from() == valid_from,
            r.spec_valid_to() == valid_to,
    {
        VersionableMetadata { nameable, version, valid_from, valid_to }
    }
}

impl IdentifiableArtefact for VersionableMetadata {
    closed spec fn spec_id(&self) -> Seq<char> {
        self.nameable.spec_id()
    }

    closed spec fn spec_urn(&self) -> Option<Seq<char>> {
        self.nameable.spec_urn()
    }

    closed spec fn spec_uri(&self) -> Option<Seq<char>> {
        self.nameable.spec_uri()
    }

    closed spec fn spec_annotations(&self) -> Seq<Annotation> {
        self.nameable.spec_annotations()
    }

    closed spec fn spec_links(&self) -> Seq<Link> {
        self.nameable.spec_links()
    }

    fn id(&self) -> (r: &str) {
        self.nameable.id()
    }

    fn urn(&self) -> (r: Option<&str>) {
        self.nameable.urn()
    }

    fn uri(&self) -> (r: Option<&str>) {
        self.nameable.uri()
    }

    fn annotations(&self) -> (r: &[Annotation]) {
        self.nameable.annotations()
    }

    fn links(&self) -> (r: &[Link]) {
        self.nameable.links()
    }
}

impl NameableArtefact for VersionableMetadata {
    closed spec fn spec_names(&self) -> LocalisedString {
        self.nameable.spec_names()
    }

    closed spec fn spec_descriptions(&self) -> Option<LocalisedString> {
        self.nameable.spec_descriptions()
    }

    fn names(&self) -> (r: &LocalisedString) {
        self.nameable.names()
    }

    fn descriptions(&self) -> (r: Option<&LocalisedString>) {
        self.nameable.descriptions()
    }
}

impl VersionableArtefact for VersionableMetadata {
    closed spec fn spec_version(&self) -> Option<SdmxVersion> {
        self.version
    }

    closed spec fn spec_valid_from(&self) -> Option<SdmxDateTime> {
        self.valid_from
    }

    closed spec fn spec_valid_to(&self) -> Option<SdmxDateTime> {
        self.valid_to
    }

    fn version(&self) -> (r: Option<&SdmxVersion>) {
        match &self.version {
            Some(v) => Some(v),
            None => None,
        }
    }

    fn valid_from(&self) -> (r: Option<&SdmxDateTime>) {
        match &self.valid_from {
            Some(v) => Some(v),
            None => None,
        }
    }

    fn valid_to(&self) -> (r: Option<&SdmxDateTime>) {
        match &self.valid_to {
            Some(v) => Some(v),
            None => None,
        }
    }
}

/// The maintainable leaf: versionable metadata plus the agency, the stated
/// `isPartialLanguage`, and the stated external-reference triple.
#[derive(Clone, Debug, PartialEq, Eq, Hash)]
pub struct MaintainableMetadata {
    versionable: VersionableMetadata,
    agency: String,
    is_partial_language: Option<bool>,
    is_external_reference: Option<bool>,
    service_url: Option<String>,
    structure_url: Option<String>,
}

/// A stated flag with its schema default `false` applied.
pub open spec fn flag_or_false(f: Option<bool>) -> bool {
    match f {
        Some(b) => b,
        None => false,
    }
}

impl MaintainableMetadata {
    /// Builds the leaf, checking `agency` against `NestedNCNameIDType`; fails with
    /// `InvalidAgencyIdentifier(agency)` exactly when it is not one. Every combination of the
    /// external-reference triple is kept as stated.
    pub fn new(
        versionable: VersionableMetadata,
        agency: String,
        is_partial_language: Option<bool>,
        is_external_reference: Option<bool>,
        service_url: Option<String>,
        structure_url: Option<String>,
    ) -> (r: Result<Self, Error>)
        ensures
            match r {
                Ok(m) => {
                    &&& is_nested_ncname(agency@)
                    &&& m.spec_id() == versionable.spec_id()
                    &&& m.spec_urn() == versionable.spec_urn()
                    &&& m.spec_uri() == versionable.spec_uri()
                    &&& m.spec_annotations() == versionable.spec_annotations()
                    &&& m.spec_links() == versionable.spec_links()
                    &&& m.spec_names() == versionable.spec_names()
                    &&& m.spec_descriptions() == versionable.spec_descriptions()
                    &&& m.spec_version() == versionable.spec_version()
                    &&& m.spec_valid_from() == versionable.spec_valid_from()
                    &&& m.spec_valid_to() == versionable.spec_valid_to()
                    &&& m.spec_agency() == agency@
                    &&& m.spec_is_partial_language() == flag_or_false(is_partial_language)
                    &&& m.spec_is_external_reference() == flag_or_false(is_external_reference)
                    &&& m.spec_service_url() == opt_chars(service_url)
                    &&& m.spec_structure_url() == opt_chars(structure_url)
                    &&& m.spec_stated_is_partial_language() == is_partial_language
                    &&& m.spec_stated_is_external_reference() == is_external_reference
                },
                Err(e) => !is_nested_ncname(agency@) && e == Error::InvalidAgencyIdentifier(agency),
            },
    {
        match validate_nested_ncname(agency.as_str()) {
            Ok(()) => Ok(
                MaintainableMetadata {
                    versionable,
                    agency,
                    is_partial_language,
                    is_external_reference,
                    service_url,
                    structure_url,
                },
            ),
            Err(_) => Err(Error::InvalidAgencyIdentifier(agency)),
        }
    }

    /// The `isPartialLanguage` attribute as the wire carried it.
    pub closed spec fn spec_stated_is_partial_language(&self) -> Option<bool> {
        self.is_partial_language
    }

    /// The `isExternalReference` attribute as the wire carried it.
    pub closed spec fn spec_stated_is_external_reference(&self) -> Option<bool> {
        self.is_external_reference
    }

    /// The `isPartialLanguage` attribute as the wire carried it (`None` when absent).
    pub fn stated_is_partial_language(&self) -> (r: Option<bool>)
        ensures
            r == self.spec_stated_is_partial_language(),
            self.spec_is_partial_language() == flag_or_false(r),
    {
        self.is_partial_language
    }

    /// The `isExternalReference` attribute as the wire carried it (`None` when absent).
    pub fn stated_is_external_reference(&self) -> (r: Option<bool>)
        ensures
            r == self.spec_stated_is_external_reference(),
            self.spec_is_external_reference() == flag_or_false(r),
    {
        self.is_external_reference
    }
}

impl IdentifiableArtefact for MaintainableMetadata {
    closed spec fn spec_id(&self) -> Seq<char> {
        self.versionable.spec_id()
    }

    closed spec fn spec_urn(&self) -> Option<Seq<char>> {
        self.versionable.spec_urn()
    }

    closed spec fn spec_uri(&self) -> Option<Seq<char>> {
        self.versionable.spec_uri()
    }

    closed spec fn spec_annotations(&self) -> Seq<Annotation> {
        self.versionable.spec_annotations()
    }

    closed spec fn spec_links(&self) -> Seq<Link> {
        self.versionable.spec_links()
    }

    fn id(&self) -> (r: &str) {
        self.versionable.id()
    }

    fn urn(&self) -> (r: Option<&str>) {
        self.versionable.urn()
    }

    fn uri(&self) -> (r: Option<&str>) {
        self.versionable.uri()
    }

    fn annotations(&self) -> (r: &[Annotation]) {
        self.versionable.annotations()
    }

    fn links(&self) -> (r: &[Link]) {
        self.versionable.links()
    }
}

impl NameableArtefact for MaintainableMetadata {
    closed spec fn spec_names(&self) -> LocalisedString {
        self.versionable.spec_names()
    }

    closed spec fn spec_descriptions(&self) -> Option<LocalisedString> {
        self.versionable.spec_descriptions()
    }

    fn names(&self) -> (r: &LocalisedString) {
        self.versionable.names()
    }

    fn descriptions(&self) -> (r: Option<&LocalisedString>) {
        self.versionable.descriptions()
    }
}

impl VersionableArtefact for MaintainableMetadata {
    closed spec fn spec_version(&self) -> Option<SdmxVersion> {
        self.versionable.spec_version()
    }

    closed spec fn spec_valid_from(&self) -> Option<SdmxDateTime> {
        self.versionable.spec_valid_from()
    }

    closed spec fn spec_valid_to(&self) -> Option<SdmxDateTime> {
        self.versionable.spec_valid_to()
    }

    fn version(&self) -> (r: Option<&SdmxVersion>) {
        self.versionable.version()
    }

    fn valid_from(&self) -> (r: Option<&SdmxDateTime>) {
        self.versionable.valid_from()
    }

    fn valid_to(&self) -> (r: Option<&SdmxDateTime>) {
        self.versionable.valid_to()
    }
}

impl MaintainableArtefact for MaintainableMetadata {
    closed spec fn spec_agency(&self) -> Seq<char> {
        self.agency@
    }

    closed spec fn spec_is_partial_language(&self) -> bool {
        flag_or_false(self.is_partial_language)
    }

    closed spec fn spec_is_external_reference(&self) -> bool {
        flag_or_false(self.is_external_reference)
    }

    closed spec fn spec_service_url(&self) -> Option<Seq<char>> {
        opt_chars(self.service_url)
    }

    closed spec fn spec_structure_url(&self) -> Option<Seq<char>> {
        opt_chars(self.structure_url)
    }

    fn agency(&self) -> (r: &str) {
        self.agency.as_str()
    }

    fn is_partial_language(&self) -> (r: bool) {
        match self.is_partial_language {
            Some(b) => b,
            None => false,
        }
    }

    fn is_external_reference(&self) -> (r: bool) {
        match self.is_external_reference {
            Some(b) => b,
            None => false,
        }
    }

    fn service_url(&self) -> (r: Option<&str>) {
        opt_as_str(&self.service_url)
    }

    fn structure_url(&self) -> (r: Option<&str>) {
        opt_as_str(&self.structure_url)
    }
}

} // verus!

//! The artefact hierarchy `Identifiable → Nameable → Versionable → Maintainable` as four
//! supertrait-linked traits. Each accessor is specified by a spec function of the trait, which
//! every implementing type defines and whose values its constructor states; the accessors
//! are effective views (a schema default applies over an absent stated value).
use crate::annotation::{Annotation, Link};
use crate::date_time::SdmxDateTime;
use crate::localised::LocalisedString;
use crate::version::{SdmxVersion, VersionDisplay};
use vstd::prelude::*;

verus! {

/// The characters of an optional string, if present.
pub open spec fn opt_chars(o: Option<String>) -> Option<Seq<char>> {
    match o {
        Some(s) => Some(s@),
        None => None,
    }
}

/// The characters of an optional borrowed string, if present.
pub open spec fn opt_str_chars(o: Option<&str>) -> Option<Seq<char>> {
    match o {
        Some(s) => Some(s@),
        None => None,
    }
}

/// An identifiable artefact: an id, an optional URN and URI, annotations and links.
pub trait IdentifiableArtefact {
    /// The effective id.
    spec fn spec_id(&self) -> Seq<char>;

    /// The URN, if any.
    spec fn spec_urn(&self) -> Option<Seq<char>>;

    /// The URI, if any.
    spec fn spec_uri(&self) -> Option<Seq<char>>;

    /// The annotations, in wire order.
    spec fn spec_annotations(&self) -> Seq<Annotation>;

    /// The links, in wire order.
    spec fn spec_links(&self) -> Seq<Link>;

    /// The artefact's effective id.
    fn id(&self) -> (r: &str)
        ensures
            r@ == self.spec_id(),
    ;

    /// The artefact's registry URN, if any.
    fn urn(&self) -> (r: Option<&str>)
        ensures
            opt_str_chars(r) == self.spec_urn(),
    ;

    /// The artefact's URI, if any.
    fn uri(&self) -> (r: Option<&str>)
        ensures
            opt_str_chars(r) == self.spec_uri(),
    ;

    /// The artefact's annotations (empty if none).
    fn annotations(&self) -> (r: &[Annotation])
        ensures
            r@ == self.spec_annotations(),
    ;

    /// The artefact's links (empty if none).
    fn links(&self) -> (r: &[Link])
        ensures
            r@ == self.spec_links(),
    ;
}

/// A nameable artefact: localised names (never empty) and optional localised descriptions.
pub trait NameableArtefact: IdentifiableArtefact {
    /// The names.
    spec fn spec_names(&self) -> LocalisedString;

    /// The descriptions, if any.
    spec fn spec_descriptions(&self) -> Option<LocalisedString>;

    /// The artefact's localised names.
    fn names(&self) -> (r: &LocalisedString)
        ensures
            *r == self.spec_names(),
    ;

    /// The artefact's localised descriptions, if any.
    fn descriptions(&self) -> (r: Option<&LocalisedString>)
        ensures
            match r {
                Some(d) => self.spec_descriptions() == Some(*d),
                None => self.spec_descriptions() is None,
            },
    ;
}

/// A versionable artefact: an optional version (absent means un-versioned) and an optional
/// validity window.
pub trait VersionableArtefact: NameableArtefact {
    /// The version, if any.
    spec fn spec_version(&self) -> Option<SdmxVersion>;

    /// The start of the validity window, if any.
    spec fn spec_valid_from(&self) -> Option<SdmxDateTime>;

    /// The end of the validity window, if any.
    spec fn spec_valid_to(&self) -> Option<SdmxDateTime>;

    /// The artefact's version; `None` is the un-versioned state.
    fn version(&self) -> (r: Option<&SdmxVersion>)
        ensures
            match r {
                Some(v) => self.spec_version() == Some(*v),
                None => self.spec_version() is None,
            },
    ;

    /// The start of the validity window, as its stated lexeme.
    fn valid_from(&self) -> (r: Option<&SdmxDateTime>)
        ensures
            match r {
                Some(v) => self.spec_valid_from() == Some(*v),
                None => self.spec_valid_from() is None,
            },
    ;

    /// The end of the validity window, as its stated lexeme.
    fn valid_to(&self) -> (r: Option<&SdmxDateTime>)
        ensures
            match r {
                Some(v) => self.spec_valid_to() == Some(*v),
                None => self.spec_valid_to() is None,
            },
    ;

    /// A display adapter over the version, rendering `<unversioned>` when it is absent.
    fn version_display(&self) -> (r: VersionDisplay<'_>)
        ensures
            match r.0 {
                Some(v) => self.spec_version() == Some(*v),
                None => self.spec_version() is None,
            },
    {
        VersionDisplay(self.version())
    }
}

/// A maintainable artefact: a maintenance agency, the partial-language flag, and the
/// external-reference triple.
pub trait MaintainableArtefact: VersionableArtefact {
    /// The agency id.
    spec fn spec_agency(&self) -> Seq<char>;

    /// The effective `isPartialLanguage` (default `false`).
    spec fn spec_is_partial_language(&self) -> bool;

    /// The effective `isExternalReference` (default `false`).
    spec fn spec_is_external_reference(&self) -> bool;

    /// `serviceURL`, if any.
    spec fn spec_service_url(&self) -> Option<Seq<char>>;

    /// `structureURL`, if any.
    spec fn spec_structure_url(&self) -> Option<Seq<char>>;

    /// The maintenance agency id (`agencyID`).
    fn agency(&self) -> (r: &str)
        ensures
            r@ == self.spec_agency(),
    ;

    /// Whether the artefact carries only part of its agency's localisations (default `false`).
    fn is_partial_language(&self) -> (r: bool)
        ensures
            r == self.spec_is_partial_language(),
    ;

    /// Whether the artefact is a stub defined elsewhere (default `false`).
    fn is_external_reference(&self) -> (r: bool)
        ensures
            r == self.spec_is_external_reference(),
    ;

    /// `serviceURL`, if any.
    fn service_url(&self) -> (r: Option<&str>)
        ensures
            opt_str_chars(r) == self.spec_service_url(),
    ;

    /// `structureURL`, if any.
    fn structure_url(&self) -> (r: Option<&str>)
        ensures
            opt_str_chars(r) == self.spec_structure_url(),
    ;
}

} // verus!

verus! {

/// Borrows the text of an optional string.
pub fn opt_as_str(o: &Option<String>) -> (r: Option<&str>)
    ensures
        opt_str_chars(r) == opt_chars(*o),
{
    match o {
        Some(s) => Some(s.as_str()),
        None => None,
    }
}

} // verus!

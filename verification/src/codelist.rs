//! Codelists: [`Code`]s in a maintainable scheme whose id is an `NCName`, with optional
//! extensions that draw codes from other codelists through inclusive or exclusive member
//! selections.
use crate::annotation::{Annotation, Link};
use crate::artefact::{
    IdentifiableArtefact, MaintainableArtefact, NameableArtefact, VersionableArtefact,
};
use crate::date_time::SdmxDateTime;
use crate::error::Error;
use crate::ident::{is_ncname, validate_ncname};
use crate::localised::LocalisedString;
use crate::lookup::first_with_id;
use crate::metadata::{flag_or_false, MaintainableMetadata, NameableMetadata};
use crate::reference::CodelistReference;
use crate::scheme::{ItemScheme, SchemeItem};
use crate::version::SdmxVersion;
use vstd::prelude::*;

verus! {

/// How a member selection applies to a hierarchical code's descendants.
#[derive(Clone, Copy, Debug, PartialEq, Eq, Structural, Hash)]
pub enum Cascade {
    /// The code alone (the schema's `false`).
    NoCascade,
    /// The code and its children.
    IncludeChildren,
    /// The children but not the code itself.
    ExcludeRoot,
}

/// One member of a code selection: a (possibly wildcarded) code value, kept verbatim, and
/// its optional cascade.
#[derive(Clone, Debug, PartialEq, Eq, Hash)]
pub struct MemberValue {
    /// The code value or wildcard pattern.
    pub value: String,
    /// The cascade, if stated.
    pub cascade: Option<Cascade>,
}

/// The member values of a code selection: a non-empty list, in wire order.
#[derive(Debug, PartialEq, Eq, Hash)]
pub struct MemberValues(Vec<MemberValue>);

impl View for MemberValues {
    type V = Seq<MemberValue>;

    closed spec fn view(&self) -> Seq<MemberValue> {
        self.0@
    }
}

impl Clone for MemberValues {
    fn clone(&self) -> (r: Self)
        ensures
            r@.len() == self@.len(),
    {
        proof {
            use_type_invariant(self);
        }
        MemberValues(self.0.clone())
    }
}

impl MemberValues {
    #[verifier::type_invariant]
    closed spec fn non_empty(self) -> bool {
        self.0@.len() > 0
    }

    /// Wraps `items`; fails with `EmptyMemberValues` exactly when it is empty.
    pub fn new(items: Vec<MemberValue>) -> (r: Result<Self, Error>)
        ensures
            match r {
                Ok(v) => items@.len() > 0 && v@ == items@,
                Err(e) => items@.len() == 0 && e == Error::EmptyMemberValues,
            },
    {
        if items.len() == 0 {
            return Err(Error::EmptyMemberValues);
        }
        Ok(MemberValues(items))
    }

    /// The items, in wire order (never empty).
    pub fn as_slice(&self) -> (r: &[MemberValue])
        ensures
            r@ == self@,
            r@.len() > 0,
    {
        proof {
            use_type_invariant(self);
        }
        self.0.as_slice()
    }

    /// Consumes the list, returning its items (never empty).
    pub fn into_inner(self) -> (r: Vec<MemberValue>)
        ensures
            r@ == self@,
            r@.len() > 0,
    {
        proof {
            use_type_invariant(&self);
        }
        self.0
    }
}

impl vstd::std_specs::convert::FromSpecImpl<MemberValues> for Vec<MemberValue> {
    open spec fn obeys_from_spec() -> bool {
        true
    }

    closed spec fn from_spec(v: MemberValues) -> Vec<MemberValue> {
        v.0
    }
}

impl From<MemberValues> for Vec<MemberValue> {
    fn from(v: MemberValues) -> (r: Vec<MemberValue>)
        ensures
            r@ == v@,
    {
        v.0
    }
}

impl vstd::std_specs::convert::TryFromSpecImpl<Vec<MemberValue>> for MemberValues {
    open spec fn obeys_try_from_spec() -> bool {
        true
    }

    closed spec fn try_from_spec(items: Vec<MemberValue>) -> Result<Self, Error> {
        if items@.len() == 0 {
            Err(Error::EmptyMemberValues)
        } else {
            Ok(MemberValues(items))
        }
    }
}

impl TryFrom<Vec<MemberValue>> for MemberValues {
    type Error = Error;

    fn try_from(items: Vec<MemberValue>) -> (r: Result<Self, Error>)
        ensures
            match r {
                Ok(v) => items@.len() > 0 && v@ == items@,
                Err(e) => items@.len() == 0 && e == Error::EmptyMemberValues,
            },
    {
        if items.len() == 0 {
            Err(Error::EmptyMemberValues)
        } else {
            Ok(MemberValues(items))
        }
    }
}

/// Which codes of an extended codelist an extension takes.
#[derive(Clone, Debug, PartialEq, Eq, Hash)]
pub enum CodeSelection {
    /// Only the listed members.
    Inclusive(MemberValues),
    /// All but the listed members.
    Exclusive(MemberValues),
}

/// An extension of a codelist by another: the source codelist, an optional selection of its
/// codes, and an optional prefix for the taken code ids.
#[derive(Clone, Debug, PartialEq, Eq, Hash)]
pub struct CodelistExtension {
    /// The extended codelist.
    pub codelist: CodelistReference,
    /// The selection of its codes, if any.
    pub selection: Option<CodeSelection>,
    /// The prefix for the taken codes, if any.
    pub prefix: Option<String>,
}

/// A code: nameable metadata and an optional parent code id (a structural reference, not
/// validated).
#[derive(Clone, Debug, PartialEq, Eq, Hash)]
pub struct Code {
    /// The code's metadata.
    pub metadata: NameableMetadata,
    /// The parent code's id, if any.
    pub parent_id: Option<String>,
}

impl IdentifiableArtefact for Code {
    open spec fn spec_id(&self) -> Seq<char> {
        self.metadata.spec_id()
    }

    open spec fn spec_urn(&self) -> Option<Seq<char>> {
        self.metadata.spec_urn()
    }

    open spec fn spec_uri(&self) -> Option<Seq<char>> {
        self.metadata.spec_uri()
    }

    open spec fn spec_annotations(&self) -> Seq<Annotation> {
        self.metadata.spec_annotations()
    }

    open spec fn spec_links(&self) -> Seq<Link> {
        self.metadata.spec_links()
    }

    fn id(&self) -> (r: &str) {
        self.metadata.id()
    }

    fn urn(&self) -> (r: Option<&str>) {
        self.metadata.urn()
    }

    fn uri(&self) -> (r: Option<&str>) {
        self.metadata.uri()
    }

    fn annotations(&self) -> (r: &[Annotation]) {
        self.metadata.annotations()
    }

    fn links(&self) -> (r: &[Link]) {
        self.metadata.links()
    }
}

impl NameableArtefact for Code {
    open spec fn spec_names(&self) -> LocalisedString {
        self.metadata.spec_names()
    }

    open spec fn spec_descriptions(&self) -> Option<LocalisedString> {
        self.metadata.spec_descriptions()
    }

    fn names(&self) -> (r: &LocalisedString) {
        self.metadata.names()
    }

    fn descriptions(&self) -> (r: Option<&LocalisedString>) {
        self.metadata.descriptions()
    }
}

impl SchemeItem for Code {

}

/// A codelist: a scheme of codes whose id is an `NCName`, plus its extensions.
#[derive(Clone, Debug, PartialEq, Eq, Hash)]
pub struct Codelist {
    scheme: ItemScheme<Code>,
    /// The codelist's extensions, in wire order.
    pub extensions: Vec<CodelistExtension>,
}

impl Codelist {
    /// The underlying scheme.
    pub closed spec fn spec_scheme(&self) -> ItemScheme<Code> {
        self.scheme
    }

    /// The extensions, in wire order.
    pub closed spec fn spec_extensions(&self) -> Seq<CodelistExtension> {
        self.extensions@
    }

    /// Builds an empty codelist, checking the scheme id as an `NCName`; fails with
    /// `InvalidNcNameIdentifier` carrying the id exactly when it is not one.
    pub fn new(metadata: MaintainableMetadata, is_partial: Option<bool>) -> (r: Result<
        Self,
        Error,
    >)
        ensures
            match r {
                Ok(c) => {
                    &&& is_ncname(metadata.spec_id())
                    &&& c.spec_scheme().spec_metadata() == metadata
                    &&& c.spec_scheme().spec_is_partial() == is_partial
                    &&& c.spec_scheme().spec_items() == Seq::<Code>::empty()
                    &&& c.spec_extensions() == Seq::<CodelistExtension>::empty()
                },
                Err(e) => !is_ncname(metadata.spec_id()) && (e matches Error::InvalidNcNameIdentifier(
                    s,
                ) && s@ == metadata.spec_id()),
            },
    {
        match validate_ncname(metadata.id()) {
            Ok(()) => Ok(
                Codelist { scheme: ItemScheme::new(metadata, is_partial), extensions: Vec::new() },
            ),
            Err(e) => Err(e),
        }
    }

    /// Appends a code, keeping wire order.
    pub fn push(&mut self, code: Code)
        ensures
            final(self).spec_scheme().spec_metadata() == old(self).spec_scheme().spec_metadata(),
            final(self).spec_scheme().spec_is_partial() == old(
                self,
            ).spec_scheme().spec_is_partial(),
            final(self).spec_scheme().spec_items() == old(self).spec_scheme().spec_items().push(
                code,
            ),
            final(self).spec_extensions() == old(self).spec_extensions(),
    {
        self.scheme.push(code);
    }

    /// The first code whose id is `id`, in wire order.
    pub fn get(&self, id: &str) -> (r: Option<&Code>)
        ensures
            match r {
                Some(x) => first_with_id(self.spec_scheme().spec_items(), id@) == Some(*x),
                None => first_with_id(self.spec_scheme().spec_items(), id@) is None,
            },
    {
        self.scheme.get(id)
    }

    /// An iterator over the codes, in wire order.
    pub fn iter(&self) -> (r: core::slice::Iter<'_, Code>)
        ensures
            vstd::std_specs::iter::IteratorSpec::remaining(&r)
                == self.spec_scheme().spec_items().as_ref(),
    {
        self.scheme.iter()
    }

    /// The effective `isPartial`: the stated value, else `false`.
    pub fn is_partial(&self) -> (r: bool)
        ensures
            r == flag_or_false(self.spec_scheme().spec_is_partial()),
    {
        self.scheme.is_partial()
    }

    /// The `isPartial` attribute as the wire carried it (`None` when absent).
    pub fn stated_is_partial(&self) -> (r: Option<bool>)
        ensures
            r == self.spec_scheme().spec_is_partial(),
    {
        self.scheme.stated_is_partial()
    }

    /// The scheme's maintainable metadata.
    pub fn metadata(&self) -> (r: &MaintainableMetadata)
        ensures
            *r == self.spec_scheme().spec_metadata(),
    {
        self.scheme.metadata()
    }
}

impl IdentifiableArtefact for Codelist {
    closed spec fn spec_id(&self) -> Seq<char> {
        self.scheme.spec_id()
    }

    closed spec fn spec_urn(&self) -> Option<Seq<char>> {
        self.scheme.spec_urn()
    }

    closed spec fn spec_uri(&self) -> Option<Seq<char>> {
        self.scheme.spec_uri()
    }

    closed spec fn spec_annotations(&self) -> Seq<Annotation> {
        self.scheme.spec_annotations()
    }

    closed spec fn spec_links(&self) -> Seq<Link> {
        self.scheme.spec_links()
    }

    fn id(&self) -> (r: &str) {
        self.scheme.id()
    }

    fn urn(&self) -> (r: Option<&str>) {
        self.scheme.urn()
    }

    fn uri(&self) -> (r: Option<&str>) {
        self.scheme.uri()
    }

    fn annotations(&self) -> (r: &[Annotation]) {
        self.scheme.annotations()
    }

    fn links(&self) -> (r: &[Link]) {
        self.scheme.links()
    }
}

impl NameableArtefact for Codelist {
    closed spec fn spec_names(&self) -> LocalisedString {
        self.scheme.spec_names()
    }

    closed spec fn spec_descriptions(&self) -> Option<LocalisedString> {
        self.scheme.spec_descriptions()
    }

    fn names(&self) -> (r: &LocalisedString) {
        self.scheme.names()
    }

    fn descriptions(&self) -> (r: Option<&LocalisedString>) {
        self.scheme.descriptions()
    }
}

impl VersionableArtefact for Codelist {
    closed spec fn spec_version(&self) -> Option<SdmxVersion> {
        self.scheme.spec_version()
    }

    closed spec fn spec_valid_from(&self) -> Option<SdmxDateTime> {
        self.scheme.spec_valid_from()
    }

    closed spec fn spec_valid_to(&self) -> Option<SdmxDateTime> {
        self.scheme.spec_valid_to()
    }

    fn version(&self) -> (r: Option<&SdmxVersion>) {
        self.scheme.version()
    }

    fn valid_from(&self) -> (r: Option<&SdmxDateTime>) {
        self.scheme.valid_from()
    }

    fn valid_to(&self) -> (r: Option<&SdmxDateTime>) {
        self.scheme.valid_to()
    }
}

impl MaintainableArtefact for Codelist {
    closed spec fn spec_agency(&self) -> Seq<char> {
        self.scheme.spec_agency()
    }

    closed spec fn spec_is_partial_language(&self) -> bool {
        self.scheme.spec_is_partial_language()
    }

    closed spec fn spec_is_external_reference(&self) -> bool {
        self.scheme.spec_is_external_reference()
    }

    closed spec fn spec_service_url(&self) -> Option<Seq<char>> {
        self.scheme.spec_service_url()
    }

    closed spec fn spec_structure_url(&self) -> Option<Seq<char>> {
        self.scheme.spec_structure_url()
    }

    fn agency(&self) -> (r: &str) {
        self.scheme.agency()
    }

    fn is_partial_language(&self) -> (r: bool) {
        self.scheme.is_partial_language()
    }

    fn is_external_reference(&self) -> (r: bool) {
        self.scheme.is_external_reference()
    }

    fn service_url(&self) -> (r: Option<&str>) {
        self.scheme.service_url()
    }

    fn structure_url(&self) -> (r: Option<&str>) {
        self.scheme.structure_url()
    }
}

/// A codelist's accessors are those of its scheme's metadata.
pub proof fn lemma_codelist_delegates(c: Codelist)
    ensures
        c.spec_id() == c.spec_scheme().spec_metadata().spec_id(),
        c.spec_urn() == c.spec_scheme().spec_metadata().spec_urn(),
        c.spec_uri() == c.spec_scheme().spec_metadata().spec_uri(),
        c.spec_annotations() == c.spec_scheme().spec_metadata().spec_annotations(),
        c.spec_links() == c.spec_scheme().spec_metadata().spec_links(),
        c.spec_names() == c.spec_scheme().spec_metadata().spec_names(),
        c.spec_descriptions() == c.spec_scheme().spec_metadata().spec_descriptions(),
        c.spec_version() == c.spec_scheme().spec_metadata().spec_version(),
        c.spec_valid_from() == c.spec_scheme().spec_metadata().spec_valid_from(),
        c.spec_valid_to() == c.spec_scheme().spec_metadata().spec_valid_to(),
        c.spec_agency() == c.spec_scheme().spec_metadata().spec_agency(),
        c.spec_is_partial_language() == c.spec_scheme().spec_metadata().spec_is_partial_language(),
        c.spec_is_external_reference() == c.spec_scheme().spec_metadata().spec_is_external_reference(),
        c.spec_service_url() == c.spec_scheme().spec_metadata().spec_service_url(),
        c.spec_structure_url() == c.spec_scheme().spec_metadata().spec_structure_url(),
{
    crate::scheme::lemma_scheme_delegates(c.spec_scheme());
}

} // verus!

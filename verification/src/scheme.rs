//! [`ItemScheme`]: a maintainable scheme of items in wire order (codes, concepts), with a
//! first-match lookup by id and the effective `isPartial` flag.
use crate::annotation::{Annotation, Link};
use crate::artefact::{
    IdentifiableArtefact, MaintainableArtefact, NameableArtefact, VersionableArtefact,
};
use crate::date_time::SdmxDateTime;
use crate::localised::LocalisedString;
use crate::lookup::{find_by_id, first_with_id};
use crate::metadata::{flag_or_false, MaintainableMetadata};
use crate::version::SdmxVersion;
use vstd::prelude::*;

verus! {

/// An item a scheme may hold: a nameable artefact.
pub trait SchemeItem: NameableArtefact {

}

/// A maintainable scheme: its metadata, the stated `isPartial`, and its items in wire order.
#[derive(Clone, Debug, PartialEq, Eq, Hash)]
pub struct ItemScheme<T> {
    metadata: MaintainableMetadata,
    is_partial: Option<bool>,
    items: Vec<T>,
}

impl<T: SchemeItem> ItemScheme<T> {
    /// The scheme's metadata.
    pub closed spec fn spec_metadata(&self) -> MaintainableMetadata {
        self.metadata
    }

    /// The stated `isPartial`, if any.
    pub closed spec fn spec_is_partial(&self) -> Option<bool> {
        self.is_partial
    }

    /// The items, in wire order.
    pub closed spec fn spec_items(&self) -> Seq<T> {
        self.items@
    }

    /// An empty scheme with the given metadata and stated `isPartial`.
    pub fn new(metadata: MaintainableMetadata, is_partial: Option<bool>) -> (r: Self)
        ensures
            r.spec_metadata() == metadata,
            r.spec_is_partial() == is_partial,
            r.spec_items() == Seq::<T>::empty(),
    {
        ItemScheme { metadata, is_partial, items: Vec::new() }
    }

    /// Appends an item, keeping wire order.
    pub fn push(&mut self, item: T)
        ensures
            final(self).spec_metadata() == old(self).spec_metadata(),
            final(self).spec_is_partial() == old(self).spec_is_partial(),
            final(self).spec_items() == old(self).spec_items().push(item),
    {
        self.items.push(item);
    }

    /// The first item whose id is `id`, in wire order.
    pub fn get(&self, id: &str) -> (r: Option<&T>)
        ensures
            match r {
                Some(x) => first_with_id(self.spec_items(), id@) == Some(*x),
                None => first_with_id(self.spec_items(), id@) is None,
            },
    {
        find_by_id(self.items.as_slice(), id)
    }

    /// The items, in wire order.
    pub fn items(&self) -> (r: &[T])
        ensures
            r@ == self.spec_items(),
    {
        self.items.as_slice()
    }

    /// An iterator over the items, in wire order.
    pub fn iter(&self) -> (r: core::slice::Iter<'_, T>)
        ensures
            vstd::std_specs::iter::IteratorSpec::remaining(&r) == self.spec_items().as_ref(),
    {
        broadcast use vstd::std_specs::slice::group_slice_axioms;
        self.items.as_slice().iter()
    }

    /// The effective `isPartial`: the stated value, else `false`.
    pub fn is_partial(&self) -> (r: bool)
        ensures
            r == flag_or_false(self.spec_is_partial()),
    {
        match self.is_partial {
            Some(b) => b,
            None => false,
        }
    }

    /// The scheme's maintainable metadata.
    pub fn metadata(&self) -> (r: &MaintainableMetadata)
        ensures
            *r == self.spec_metadata(),
    {
        &self.metadata
    }

    /// The stated `isPartial`, if any.
    pub fn stated_is_partial(&self) -> (r: Option<bool>)
        ensures
            r == self.spec_is_partial(),
    {
        self.is_partial
    }

    /// Consumes the scheme, returning its metadata, stated `isPartial` and items.
    pub fn into_parts(self) -> (r: (MaintainableMetadata, Option<bool>, Vec<T>))
        ensures
            r.0 == self.spec_metadata(),
            r.1 == self.spec_is_partial(),
            r.2@ == self.spec_items(),
    {
        (self.metadata, self.is_partial, self.items)
    }
}

impl<T: SchemeItem> IdentifiableArtefact for ItemScheme<T> {
    closed spec fn spec_id(&self) -> Seq<char> {
        self.metadata.spec_id()
    }

    closed spec fn spec_urn(&self) -> Option<Seq<char>> {
        self.metadata.spec_urn()
    }

    closed spec fn spec_uri(&self) -> Option<Seq<char>> {
        self.metadata.spec_uri()
    }

    closed spec fn spec_annotations(&self) -> Seq<Annotation> {
        self.metadata.spec_annotations()
    }

    closed spec fn spec_links(&self) -> Seq<Link> {
        self.metadata.spec_links()
    }

    fn id(&self) -> (r: &str) {
        self.metadata.id()
    }

    fn urn(&self) -> (r: Option<&str>) {
        self.metadata.urn()
    }

    fn uri(&self) -> (r: Option<&str>) {
        self.metadata.uri()
    }

    fn annotations(&self) -> (r: &[Annotation]) {
        self.metadata.annotations()
    }

    fn links(&self) -> (r: &[Link]) {
        self.metadata.links()
    }
}

impl<T: SchemeItem> NameableArtefact for ItemScheme<T> {
    closed spec fn spec_names(&self) -> LocalisedString {
        self.metadata.spec_names()
    }

    closed spec fn spec_descriptions(&self) -> Option<LocalisedString> {
        self.metadata.spec_descriptions()
    }

    fn names(&self) -> (r: &LocalisedString) {
        self.metadata.names()
    }

    fn descriptions(&self) -> (r: Option<&LocalisedString>) {
        self.metadata.descriptions()
    }
}

impl<T: SchemeItem> VersionableArtefact for ItemScheme<T> {
    closed spec fn spec_version(&self) -> Option<SdmxVersion> {
        self.metadata.spec_version()
    }

    closed spec fn spec_valid_from(&self) -> Option<SdmxDateTime> {
        self.metadata.spec_valid_from()
    }

    closed spec fn spec_valid_to(&self) -> Option<SdmxDateTime> {
        self.metadata.spec_valid_to()
    }

    fn version(&self) -> (r: Option<&SdmxVersion>) {
        self.metadata.version()
    }

    fn valid_from(&self) -> (r: Option<&SdmxDateTime>) {
        self.metadata.valid_from()
    }

    fn valid_to(&self) -> (r: Option<&SdmxDateTime>) {
        self.metadata.valid_to()
    }
}

impl<T: SchemeItem> MaintainableArtefact for ItemScheme<T> {
    closed spec fn spec_agency(&self) -> Seq<char> {
        self.metadata.spec_agency()
    }

    closed spec fn spec_is_partial_language(&self) -> bool {
        self.metadata.spec_is_partial_language()
    }

    closed spec fn spec_is_external_reference(&self) -> bool {
        self.metadata.spec_is_external_reference()
    }

    closed spec fn spec_service_url(&self) -> Option<Seq<char>> {
        self.metadata.spec_service_url()
    }

    closed spec fn spec_structure_url(&self) -> Option<Seq<char>> {
        self.metadata.spec_structure_url()
    }

    fn agency(&self) -> (r: &str) {
        self.metadata.agency()
    }

    fn is_partial_language(&self) -> (r: bool) {
        self.metadata.is_partial_language()
    }

    fn is_external_reference(&self) -> (r: bool) {
        self.metadata.is_external_reference()
    }

    fn service_url(&self) -> (r: Option<&str>) {
        self.metadata.service_url()
    }

    fn structure_url(&self) -> (r: Option<&str>) {
        self.metadata.structure_url()
    }
}

/// A scheme's accessors are those of its metadata.
pub proof fn lemma_scheme_delegates<T: SchemeItem>(s: ItemScheme<T>)
    ensures
        s.spec_id() == s.spec_metadata().spec_id(),
        s.spec_urn() == s.spec_metadata().spec_urn(),
        s.spec_uri() == s.spec_metadata().spec_uri(),
        s.spec_annotations() == s.spec_metadata().spec_annotations(),
        s.spec_links() == s.spec_metadata().spec_links(),
        s.spec_names() == s.spec_metadata().spec_names(),
        s.spec_descriptions() == s.spec_metadata().spec_descriptions(),
        s.spec_version() == s.spec_metadata().spec_version(),
        s.spec_valid_from() == s.spec_metadata().spec_valid_from(),
        s.spec_valid_to() == s.spec_metadata().spec_valid_to(),
        s.spec_agency() == s.spec_metadata().spec_agency(),
        s.spec_is_partial_language() == s.spec_metadata().spec_is_partial_language(),
        s.spec_is_external_reference() == s.spec_metadata().spec_is_external_reference(),
        s.spec_service_url() == s.spec_metadata().spec_service_url(),
        s.spec_structure_url() == s.spec_metadata().spec_structure_url(),
{
}

} // verus!

//! The data structure definition: a maintainable artefact composing the dimension list,
//! groups, the optional attribute and measure lists, and the stated `evolvingStructure`.
use crate::annotation::{Annotation, Link};
use crate::artefact::{
    IdentifiableArtefact, MaintainableArtefact, NameableArtefact, VersionableArtefact,
};
use crate::date_time::SdmxDateTime;
use crate::descriptor::{AttributeList, DimensionList, Group, MeasureList};
use crate::localised::LocalisedString;
use crate::lookup::{find_by_id, first_with_id};
use crate::metadata::MaintainableMetadata;
use crate::version::SdmxVersion;
use vstd::prelude::*;

verus! {

/// A data structure definition. Every part carries its own invariant, so the fields are
/// public; an absent attribute or measure list is the wire's absent descriptor.
#[derive(Clone, Debug, PartialEq, Eq, Hash)]
pub struct DataStructureDefinition {
    /// The definition's metadata.
    pub metadata: MaintainableMetadata,
    /// The dimension list.
    pub dimension_list: DimensionList,
    /// The groups, in wire order.
    pub groups: Vec<Group>,
    /// The attribute list, if any.
    pub attribute_list: Option<AttributeList>,
    /// The measure list, if any.
    pub measure_list: Option<MeasureList>,
    /// The stated `evolvingStructure`, if any.
    pub evolving_structure: Option<bool>,
}

impl DataStructureDefinition {
    /// The first group whose id is `id`, in wire order.
    pub fn get_group(&self, id: &str) -> (r: Option<&Group>)
        ensures
            match r {
                Some(g) => first_with_id(self.groups@, id@) == Some(*g),
                None => first_with_id(self.groups@, id@) is None,
            },
    {
        find_by_id(self.groups.as_slice(), id)
    }
}

impl IdentifiableArtefact for DataStructureDefinition {
    open spec fn spec_id(&self) -> Seq<char> {
        self.metadata.spec_id()
    }

    open spec fn spec_urn(&self) -> Option<Seq<char>> {
        self.metadata.spec_urn()
    }

    open spec fn spec_uri(&self) -> Option<Seq<char>> {
        self.metadata.spec_uri()
    }

    open spec fn spec_annotations(&self) -> Seq<Annotation> {
        self.metadata.spec_annotations()
    }

    open spec fn spec_links(&self) -> Seq<Link> {
        self.metadata.spec_links()
    }

    fn id(&self) -> (r: &str) {
        self.metadata.id()
    }

    fn urn(&self) -> (r: Option<&str>) {
        self.metadata.urn()
    }

    fn uri(&self) -> (r: Option<&str>) {
        self.metadata.uri()
    }

    fn annotations(&self) -> (r: &[Annotation]) {
        self.metadata.annotations()
    }

    fn links(&self) -> (r: &[Link]) {
        self.metadata.links()
    }
}

impl NameableArtefact for DataStructureDefinition {
    open spec fn spec_names(&self) -> LocalisedString {
        self.metadata.spec_names()
    }

    open spec fn spec_descriptions(&self) -> Option<LocalisedString> {
        self.metadata.spec_descriptions()
    }

    fn names(&self) -> (r: &LocalisedString) {
        self.metadata.names()
    }

    fn descriptions(&self) -> (r: Option<&LocalisedString>) {
        self.metadata.descriptions()
    }
}

impl VersionableArtefact for DataStructureDefinition {
    open spec fn spec_version(&self) -> Option<SdmxVersion> {
        self.metadata.spec_version()
    }

    open spec fn spec_valid_from(&self) -> Option<SdmxDateTime> {
        self.metadata.spec_valid_from()
    }

    open spec fn spec_valid_to(&self) -> Option<SdmxDateTime> {
        self.metadata.spec_valid_to()
    }

    fn version(&self) -> (r: Option<&SdmxVersion>) {
        self.metadata.version()
    }

    fn valid_from(&self) -> (r: Option<&SdmxDateTime>) {
        self.metadata.valid_from()
    }

    fn valid_to(&self) -> (r: Option<&SdmxDateTime>) {
        self.metadata.valid_to()
    }
}

impl MaintainableArtefact for DataStructureDefinition {
    open spec fn spec_agency(&self) -> Seq<char> {
        self.metadata.spec_agency()
    }

    open spec fn spec_is_partial_language(&self) -> bool {
        self.metadata.spec_is_partial_language()
    }

    open spec fn spec_is_external_reference(&self) -> bool {
        self.metadata.spec_is_external_reference()
    }

    open spec fn spec_service_url(&self) -> Option<Seq<char>> {
        self.metadata.spec_service_url()
    }

    open spec fn spec_structure_url(&self) -> Option<Seq<char>> {
        self.metadata.spec_structure_url()
    }

    fn agency(&self) -> (r: &str) {
        self.metadata.agency()
    }

    fn is_partial_language(&self) -> (r: bool) {
        self.metadata.is_partial_language()
    }

    fn is_external_reference(&self) -> (r: bool) {
        self.metadata.is_external_reference()
    }

    fn service_url(&self) -> (r: Option<&str>) {
        self.metadata.service_url()
    }

    fn structure_url(&self) -> (r: Option<&str>) {
        self.metadata.structure_url()
    }
}

} // verus!

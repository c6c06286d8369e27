//! Dataflows: a maintainable artefact that refers to the data structure its data follows
//! and may restrict which of its dimensions the data uses.
use crate::annotation::{Annotation, Link};
use crate::artefact::{
    IdentifiableArtefact, MaintainableArtefact, NameableArtefact, VersionableArtefact,
};
use crate::date_time::SdmxDateTime;
use crate::error::Error;
use crate::localised::LocalisedString;
use crate::metadata::MaintainableMetadata;
use crate::version::SdmxVersion;
use crate::reference::DataStructureReference;
use vstd::prelude::*;

verus! {

/// The dimension ids a dataflow's data uses: a non-empty list, in wire order.
#[derive(Debug, PartialEq, Eq, Hash)]
pub struct DimensionConstraint(Vec<String>);

impl View for DimensionConstraint {
    type V = Seq<String>;

    closed spec fn view(&self) -> Seq<String> {
        self.0@
    }
}

impl Clone for DimensionConstraint {
    fn clone(&self) -> (r: Self)
        ensures
            r@.len() == self@.len(),
    {
        proof {
            use_type_invariant(self);
        }
        DimensionConstraint(self.0.clone())
    }
}

impl DimensionConstraint {
    #[verifier::type_invariant]
    closed spec fn non_empty(self) -> bool {
        self.0@.len() > 0
    }

    /// Wraps `items`; fails with `EmptyDimensionConstraint` exactly when it is empty.
    pub fn new(items: Vec<String>) -> (r: Result<Self, Error>)
        ensures
            match r {
                Ok(v) => items@.len() > 0 && v@ == items@,
                Err(e) => items@.len() == 0 && e == Error::EmptyDimensionConstraint,
            },
    {
        if items.len() == 0 {
            return Err(Error::EmptyDimensionConstraint);
        }
        Ok(DimensionConstraint(items))
    }

    /// The items, in wire order (never empty).
    pub fn as_slice(&self) -> (r: &[String])
        ensures
            r@ == self@,
            r@.len() > 0,
    {
        proof {
            use_type_invariant(self);
        }
        self.0.as_slice()
    }

    /// Consumes the list, returning its items (never empty).
    pub fn into_inner(self) -> (r: Vec<String>)
        ensures
            r@ == self@,
            r@.len() > 0,
    {
        proof {
            use_type_invariant(&self);
        }
        self.0
    }
}

impl vstd::std_specs::convert::FromSpecImpl<DimensionConstraint> for Vec<String> {
    open spec fn obeys_from_spec() -> bool {
        true
    }

    closed spec fn from_spec(v: DimensionConstraint) -> Vec<String> {
        v.0
    }
}

impl From<DimensionConstraint> for Vec<String> {
    fn from(v: DimensionConstraint) -> (r: Vec<String>)
        ensures
            r@ == v@,
    {
        v.0
    }
}

impl vstd::std_specs::convert::TryFromSpecImpl<Vec<String>> for DimensionConstraint {
    open spec fn obeys_try_from_spec() -> bool {
        true
    }

    closed spec fn try_from_spec(items: Vec<String>) -> Result<Self, Error> {
        if items@.len() == 0 {
            Err(Error::EmptyDimensionConstraint)
        } else {
            Ok(DimensionConstraint(items))
        }
    }
}

impl TryFrom<Vec<String>> for DimensionConstraint {
    type Error = Error;

    fn try_from(items: Vec<String>) -> (r: Result<Self, Error>)
        ensures
            match r {
                Ok(v) => items@.len() > 0 && v@ == items@,
                Err(e) => items@.len() == 0 && e == Error::EmptyDimensionConstraint,
            },
    {
        if items.len() == 0 {
            Err(Error::EmptyDimensionConstraint)
        } else {
            Ok(DimensionConstraint(items))
        }
    }
}

/// A dataflow: its maintainable metadata, the data structure it uses (if stated), and an
/// optional dimension constraint.
#[derive(Clone, Debug, PartialEq, Eq, Hash)]
pub struct Dataflow {
    /// The dataflow's metadata.
    pub metadata: MaintainableMetadata,
    /// The data structure the dataflow's data follows, if stated.
    pub dsd: Option<DataStructureReference>,
    /// The dimensions the data uses, if constrained.
    pub dimension_constraint: Option<DimensionConstraint>,
}

impl IdentifiableArtefact for Dataflow {
    open spec fn spec_id(&self) -> Seq<char> {
        self.metadata.spec_id()
    }

    open spec fn spec_urn(&self) -> Option<Seq<char>> {
        self.metadata.spec_urn()
    }

    open spec fn spec_uri(&self) -> Option<Seq<char>> {
        self.metadata.spec_uri()
    }

    open spec fn spec_annotations(&self) -> Seq<Annotation> {
        self.metadata.spec_annotations()
    }

    open spec fn spec_links(&self) -> Seq<Link> {
        self.metadata.spec_links()
    }

    fn id(&self) -> (r: &str) {
        self.metadata.id()
    }

    fn urn(&self) -> (r: Option<&str>) {
        self.metadata.urn()
    }

    fn uri(&self) -> (r: Option<&str>) {
        self.metadata.uri()
    }

    fn annotations(&self) -> (r: &[Annotation]) {
        self.metadata.annotations()
    }

    fn links(&self) -> (r: &[Link]) {
        self.metadata.links()
    }
}

impl NameableArtefact for Dataflow {
    open spec fn spec_names(&self) -> LocalisedString {
        self.metadata.spec_names()
    }

    open spec fn spec_descriptions(&self) -> Option<LocalisedString> {
        self.metadata.spec_descriptions()
    }

    fn names(&self) -> (r: &LocalisedString) {
        self.metadata.names()
    }

    fn descriptions(&self) -> (r: Option<&LocalisedString>) {
        self.metadata.descriptions()
    }
}

impl VersionableArtefact for Dataflow {
    open spec fn spec_version(&self) -> Option<SdmxVersion> {
        self.metadata.spec_version()
    }

    open spec fn spec_valid_from(&self) -> Option<SdmxDateTime> {
        self.metadata.spec_valid_from()
    }

    open spec fn spec_valid_to(&self) -> Option<SdmxDateTime> {
        self.metadata.spec_valid_to()
    }

    fn version(&self) -> (r: Option<&SdmxVersion>) {
        self.metadata.version()
    }

    fn valid_from(&self) -> (r: Option<&SdmxDateTime>) {
        self.metadata.valid_from()
    }

    fn valid_to(&self) -> (r: Option<&SdmxDateTime>) {
        self.metadata.valid_to()
    }
}

impl MaintainableArtefact for Dataflow {
    open spec fn spec_agency(&self) -> Seq<char> {
        self.metadata.spec_agency()
    }

    open spec fn spec_is_partial_language(&self) -> bool {
        self.metadata.spec_is_partial_language()
    }

    open spec fn spec_is_external_reference(&self) -> bool {
        self.metadata.spec_is_external_reference()
    }

    open spec fn spec_service_url(&self) -> Option<Seq<char>> {
        self.metadata.spec_service_url()
    }

    open spec fn spec_structure_url(&self) -> Option<Seq<char>> {
        self.metadata.spec_structure_url()
    }

    fn agency(&self) -> (r: &str) {
        self.metadata.agency()
    }

    fn is_partial_language(&self) -> (r: bool) {
        self.metadata.is_partial_language()
    }

    fn is_external_reference(&self) -> (r: bool) {
        self.metadata.is_external_reference()
    }

    fn service_url(&self) -> (r: Option<&str>) {
        self.metadata.service_url()
    }

    fn structure_url(&self) -> (r: Option<&str>) {
        self.metadata.structure_url()
    }
}

} // verus!

//! Core SDMX (Statistical Data and Metadata Exchange) domain types, validated lexical
//! newtypes, and the identifier grammars they rest on, with their contracts proved by Verus.
use vstd::prelude::*;

pub mod annotation;
pub mod artefact;
pub mod attribute;
pub mod chars;
pub mod codelist;
pub mod component;
pub mod concept;
pub mod constraint;
pub mod data_structure;
pub mod dataflow;
pub mod date_time;
pub mod descriptor;
pub mod digits;
pub mod dimension;
pub mod error;
pub mod fixed;
pub mod ident;
pub mod lexical;
pub mod localised;
pub mod lookup;
pub mod measure;
pub mod metadata;
pub mod reference;
pub mod representation;
pub mod scheme;
pub mod time_period;
pub mod version;
pub mod version_ref;

pub use crate::annotation::{Annotation, AnnotationUrl, Link};
pub use crate::artefact::{
    IdentifiableArtefact, MaintainableArtefact, NameableArtefact, VersionableArtefact,
};
pub use crate::attribute::{
    Attribute, AttributeListMember, AttributeRelationship, DimensionRef, DimensionRefs, GroupId,
    MeasureRelationship, MetadataAttributeUsage,
};
pub use crate::codelist::{
    Cascade, Code, CodeSelection, Codelist, CodelistExtension, MemberValue, MemberValues,
};
pub use crate::component::{ComponentMetadata, Usage};
pub use crate::concept::{Concept, ConceptScheme};
pub use crate::constraint::{
    AvailabilityConstraint, AvailabilityConstraintAttachment, ComponentSelection,
    ComponentValueSet, ConstraintModel, ConstraintRole, CubeKeyValue, CubeKeyValues, CubeRegion,
    CubeRegionKey, CubeRegions, DataComponentSelection, DataComponentValue, DataComponentValueSet,
    DataComponentValues, DataConstraint, DataConstraintAttachment, DataKey, DataKeySet,
    DataKeyValue, DataKeys, DataStructureRefs, DataflowRefs, KeyValueSelection,
    ProvisionAgreementRefs, QueryableDataSource, ReleaseCalendar, SimpleComponentValue,
    SimpleComponentValues, SimpleDataSources, SimpleKeyValues, TimePeriodRange, TimeRange,
    TimeRangeKind,
};
pub use crate::data_structure::DataStructureDefinition;
pub use crate::dataflow::{Dataflow, DimensionConstraint};
pub use crate::date_time::SdmxDateTime;
pub use crate::descriptor::{AttributeList, DimensionList, Group, GroupDimensions, MeasureList};
pub use crate::dimension::{Dimension, TimeDimension};
pub use crate::error::Error;
pub use crate::fixed::FixedInclude;
pub use crate::lexical::{SdmxDecimal, SdmxDuration, SdmxInteger};
pub use crate::localised::{LocalisedString, LocalisedText};
pub use crate::measure::Measure;
pub use crate::metadata::{
    IdentifiableMetadata, MaintainableMetadata, NameableMetadata, VersionableMetadata,
};
pub use crate::reference::{
    CodelistReference, ConceptReference, DataProviderReference, DataStructureReference,
    DataflowReference, ProvisionAgreementReference, ValueListReference,
};
pub use crate::representation::{
    DataType, EnumerationFormat, EnumerationReference, MaxOccurs, Representation,
    RepresentationChoice, TextFormat,
};
pub use crate::scheme::{ItemScheme, SchemeItem};
pub use crate::time_period::{
    Granularity, ObservationalTimePeriod, SdmxTimePeriod, SdmxTimePeriodKind, SdmxTimeRange,
};
pub use crate::version::{SdmxVersion, VersionDisplay};
pub use crate::version_ref::{VersionRef, WildcardPosition};

verus! {

/// Accepts only types that are `Send` and `Sync`; a call for a type names it as safe to hold
/// or move across threads.
pub fn assert_send_sync<T: Send + Sync>() {
}

} // verus!

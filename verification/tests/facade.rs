use sdmx_types::{
    assert_send_sync, Annotation, AnnotationUrl, Attribute, AttributeList, AttributeListMember,
    AttributeRelationship, AvailabilityConstraint, AvailabilityConstraintAttachment, Cascade,
    Code, CodeSelection, Codelist, CodelistExtension, ComponentMetadata, ComponentSelection,
    ComponentValueSet, Concept, ConceptScheme, ConstraintModel, ConstraintRole, CubeKeyValue,
    CubeKeyValues, CubeRegion, CubeRegionKey, CubeRegions, DataComponentSelection,
    DataComponentValue, DataComponentValueSet, DataComponentValues, DataConstraint,
    DataConstraintAttachment, DataKey, DataKeySet, DataKeyValue, DataKeys,
    DataStructureDefinition, DataStructureRefs, Dataflow, DataflowRefs, Dimension,
    DimensionConstraint, DimensionList, DimensionRef, DimensionRefs, Error, FixedInclude,
    Granularity, Group, GroupDimensions, GroupId, IdentifiableArtefact, IdentifiableMetadata,
    ItemScheme, KeyValueSelection, Link, LocalisedString, LocalisedText, MaintainableMetadata,
    Measure, MeasureList, MeasureRelationship, MemberValue, MemberValues,
    MetadataAttributeUsage, NameableArtefact, NameableMetadata, ObservationalTimePeriod,
    ProvisionAgreementRefs, QueryableDataSource, ReleaseCalendar, SdmxDateTime, SdmxDecimal,
    SdmxDuration, SdmxInteger, SdmxTimePeriod, SdmxTimePeriodKind, SdmxTimeRange, SdmxVersion,
    SimpleComponentValue, SimpleComponentValues, SimpleDataSources, SimpleKeyValues,
    TimeDimension, TimePeriodRange, TimeRange, TimeRangeKind, Usage, VersionDisplay,
    VersionRef, VersionableMetadata, WildcardPosition,
};

#[test]
fn client_crate_exports_are_accessible() {
    std::hint::black_box(());
}

#[test]
fn client_builder_interfaces_compile() {
    std::hint::black_box(std::mem::size_of::<Error>());
}

#[test]
fn crate_compiles() {
    core::hint::black_box(());
}

#[test]
fn facade_re_exports_core_types() {
    std::hint::black_box(std::mem::size_of::<LocalisedString>());
}

#[test]
fn facade_compiles_with_feature_combinations() {
    core::hint::black_box(());
}

#[test]
fn public_surface_constructs_in_no_std() {
    let names = LocalisedString::new(vec![LocalisedText {
        language: Some(String::from("en")),
        text: String::from("Currency"),
    }])
    .unwrap();
    let identifiable =
        IdentifiableMetadata::new(String::from("CL_CURRENCY"), None, None, Vec::new(), Vec::new())
            .unwrap();
    let nameable = NameableMetadata::new(identifiable, names, None);
    assert_eq!(nameable.id(), "CL_CURRENCY");
    assert_eq!(nameable.names().first(), "Currency");
}

#[test]
fn send_sync_helper_executes_at_runtime() {
    assert_send_sync::<Annotation>();
}

#[test]
fn every_public_type_is_send_and_sync() {
    assert_send_sync::<Annotation>();
    assert_send_sync::<AnnotationUrl>();
    assert_send_sync::<Link>();
    assert_send_sync::<Attribute>();
    assert_send_sync::<AttributeListMember>();
    assert_send_sync::<AttributeRelationship>();
    assert_send_sync::<DimensionRef>();
    assert_send_sync::<DimensionRefs>();
    assert_send_sync::<GroupId>();
    assert_send_sync::<MeasureRelationship>();
    assert_send_sync::<MetadataAttributeUsage>();
    assert_send_sync::<Cascade>();
    assert_send_sync::<Code>();
    assert_send_sync::<CodeSelection>();
    assert_send_sync::<Codelist>();
    assert_send_sync::<CodelistExtension>();
    assert_send_sync::<MemberValue>();
    assert_send_sync::<MemberValues>();
    assert_send_sync::<ComponentMetadata>();
    assert_send_sync::<Usage>();
    assert_send_sync::<Concept>();
    assert_send_sync::<ConceptScheme>();
    assert_send_sync::<AvailabilityConstraint>();
    assert_send_sync::<AvailabilityConstraintAttachment>();
    assert_send_sync::<ComponentSelection>();
    assert_send_sync::<ComponentValueSet>();
    assert_send_sync::<ConstraintModel>();
    assert_send_sync::<ConstraintRole>();
    assert_send_sync::<CubeKeyValue>();
    assert_send_sync::<CubeKeyValues>();
    assert_send_sync::<CubeRegion>();
    assert_send_sync::<CubeRegionKey>();
    assert_send_sync::<CubeRegions>();
    assert_send_sync::<DataComponentSelection>();
    assert_send_sync::<DataComponentValue>();
    assert_send_sync::<DataComponentValueSet>();
    assert_send_sync::<DataComponentValues>();
    assert_send_sync::<DataConstraint>();
    assert_send_sync::<DataConstraintAttachment>();
    assert_send_sync::<DataKey>();
    assert_send_sync::<DataKeySet>();
    assert_send_sync::<DataKeyValue>();
    assert_send_sync::<DataKeys>();
    assert_send_sync::<DataStructureRefs>();
    assert_send_sync::<DataflowRefs>();
    assert_send_sync::<KeyValueSelection>();
    assert_send_sync::<ProvisionAgreementRefs>();
    assert_send_sync::<QueryableDataSource>();
    assert_send_sync::<ReleaseCalendar>();
    assert_send_sync::<SimpleComponentValue>();
    assert_send_sync::<SimpleComponentValues>();
    assert_send_sync::<SimpleDataSources>();
    assert_send_sync::<SimpleKeyValues>();
    assert_send_sync::<TimePeriodRange>();
    assert_send_sync::<TimeRange>();
    assert_send_sync::<TimeRangeKind>();
    assert_send_sync::<DataStructureDefinition>();
    assert_send_sync::<Dataflow>();
    assert_send_sync::<DimensionConstraint>();
    assert_send_sync::<AttributeList>();
    assert_send_sync::<DimensionList>();
    assert_send_sync::<Group>();
    assert_send_sync::<GroupDimensions>();
    assert_send_sync::<MeasureList>();
    assert_send_sync::<Dimension>();
    assert_send_sync::<TimeDimension>();
    assert_send_sync::<Error>();
    assert_send_sync::<FixedInclude>();
    assert_send_sync::<Granularity>();
    assert_send_sync::<ObservationalTimePeriod>();
    assert_send_sync::<SdmxDateTime>();
    assert_send_sync::<SdmxDecimal>();
    assert_send_sync::<SdmxDuration>();
    assert_send_sync::<SdmxInteger>();
    assert_send_sync::<SdmxTimePeriod>();
    assert_send_sync::<SdmxTimePeriodKind>();
    assert_send_sync::<SdmxTimeRange>();
    assert_send_sync::<SdmxVersion>();
    assert_send_sync::<VersionDisplay<'static>>();
    assert_send_sync::<VersionRef>();
    assert_send_sync::<WildcardPosition>();
    assert_send_sync::<LocalisedString>();
    assert_send_sync::<LocalisedText>();
    assert_send_sync::<Measure>();
    assert_send_sync::<IdentifiableMetadata>();
    assert_send_sync::<MaintainableMetadata>();
    assert_send_sync::<NameableMetadata>();
    assert_send_sync::<VersionableMetadata>();
    assert_send_sync::<ItemScheme<Code>>();
}

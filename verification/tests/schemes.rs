use sdmx_types::{
    Annotation, AnnotationUrl, Attribute, AttributeList, AttributeListMember,
    AttributeRelationship, Cascade, Code, CodeSelection, Codelist, CodelistExtension,
    CodelistReference, ComponentMetadata, ConceptReference, DataStructureDefinition,
    DataStructureReference, DataType, Dataflow, Dimension, DimensionConstraint, DimensionList,
    Error, Group, GroupDimensions, IdentifiableArtefact, IdentifiableMetadata, ItemScheme, Link,
    LocalisedString, LocalisedText, MaintainableArtefact, MaintainableMetadata, Measure,
    MeasureList, MemberValue, MemberValues, NameableArtefact, NameableMetadata, Representation,
    RepresentationChoice, SdmxDateTime, SdmxVersion, TextFormat, TimeDimension,
    VersionableArtefact, VersionableMetadata,
};

fn names(text: &str) -> LocalisedString {
    LocalisedString::new(vec![LocalisedText { language: Some("en".into()), text: text.into() }])
        .unwrap()
}

fn maintainable_named(id: &str, agency: &str, name: &str) -> MaintainableMetadata {
    let identifiable = IdentifiableMetadata::new(id.into(), None, None, vec![], vec![]).unwrap();
    let versionable =
        VersionableMetadata::new(NameableMetadata::new(identifiable, names(name), None), None, None, None);
    MaintainableMetadata::new(versionable, agency.into(), None, None, None, None).unwrap()
}

fn metadata(id: &str) -> MaintainableMetadata {
    maintainable_named(id, "SDMX", "Frequency")
}

fn code(id: &str) -> Code {
    let identifiable = IdentifiableMetadata::new(id.into(), None, None, vec![], vec![]).unwrap();
    Code { metadata: NameableMetadata::new(identifiable, names(id), None), parent_id: None }
}

fn annotation() -> Annotation {
    Annotation {
        id: Some("a1".into()),
        annotation_type: None,
        annotation_title: None,
        annotation_urls: vec![AnnotationUrl {
            url: "https://example.com".into(),
            lang: Some("en".into()),
        }],
        annotation_value: None,
        texts: None,
    }
}

fn link() -> Link {
    Link { rel: "self".into(), url: "https://example.com/x".into(), urn: None, link_type: None }
}

fn full_nameable(id: &str, name: &str) -> NameableMetadata {
    let identifiable = IdentifiableMetadata::new(
        id.into(),
        Some("uri".into()),
        Some("urn:x".into()),
        vec![annotation()],
        vec![link()],
    )
    .unwrap();
    NameableMetadata::new(identifiable, names(name), Some(names("How often")))
}

fn full_maintainable(id: &str, agency: &str, name: &str) -> (MaintainableMetadata, SdmxDateTime) {
    let version = SdmxVersion::new("1.2.3".into()).unwrap();
    let valid_from = SdmxDateTime::new("2024-01-01T00:00:00+00:00".into()).unwrap();
    let metadata = MaintainableMetadata::new(
        VersionableMetadata::new(full_nameable(id, name), Some(version), Some(valid_from.clone()), None),
        agency.into(),
        Some(true),
        Some(true),
        Some("https://service".into()),
        Some("https://structure".into()),
    )
    .unwrap();
    (metadata, valid_from)
}

// ---- codelist ----

#[test]
fn codelist_delegation_matrix_forwards_every_accessor() {
    let (metadata, valid_from) = full_maintainable("CL_FREQ", "ESTAT", "Frequency");
    let codelist = Codelist::new(metadata, Some(true)).unwrap();
    assert_eq!(codelist.id(), "CL_FREQ");
    assert_eq!(codelist.urn(), Some("urn:x"));
    assert_eq!(codelist.uri(), Some("uri"));
    assert_eq!(codelist.annotations().len(), 1);
    assert_eq!(codelist.links().len(), 1);
    assert_eq!(codelist.names().first(), "Frequency");
    assert_eq!(codelist.descriptions().map(LocalisedString::first), Some("How often"));
    assert_eq!(codelist.version().map(|v| v.to_string()).as_deref(), Some("1.2.3"));
    assert_eq!(codelist.valid_from(), Some(&valid_from));
    assert_eq!(codelist.valid_to(), None);
    assert_eq!(codelist.agency(), "ESTAT");
    assert!(codelist.is_partial_language());
    assert!(codelist.is_external_reference());
    assert_eq!(codelist.service_url(), Some("https://service"));
    assert_eq!(codelist.structure_url(), Some("https://structure"));

    let carrier = Code { metadata: full_nameable("A", "Frequency"), parent_id: Some("ROOT".into()) };
    assert_eq!(carrier.id(), "A");
    assert_eq!(carrier.urn(), Some("urn:x"));
    assert_eq!(carrier.uri(), Some("uri"));
    assert_eq!(carrier.annotations().len(), 1);
    assert_eq!(carrier.links().len(), 1);
    assert_eq!(carrier.names().first(), "Frequency");
    assert_eq!(carrier.descriptions().map(LocalisedString::first), Some("How often"));
}

#[test]
fn new_validates_scheme_id_as_ncname() {
    assert!(Codelist::new(metadata("CL_FREQ"), None).is_ok());
    assert_eq!(
        Codelist::new(metadata("9FREQ"), None).unwrap_err(),
        Error::InvalidNcNameIdentifier("9FREQ".into())
    );
}

#[test]
fn forwards_item_access_and_partial_view() {
    let mut codelist = Codelist::new(metadata("CL_FREQ"), Some(true)).unwrap();
    codelist.push(code("A"));
    codelist.push(code("M"));
    assert_eq!(codelist.get("A").map(|c| c.id()), Some("A"));
    assert_eq!(codelist.iter().count(), 2);
    assert!(codelist.is_partial());
    assert_eq!(codelist.agency(), "SDMX");
}

#[test]
fn codelist_get_is_first_match_and_absent_partial_is_false() {
    let mut codelist = Codelist::new(metadata("CL_FREQ"), None).unwrap();
    assert!(codelist.get("A").is_none());
    codelist.push(code("A"));
    codelist.push(code("A"));
    let first = codelist.get("A").unwrap();
    assert!(std::ptr::eq(first, codelist.iter().next().unwrap()));
    assert!(!codelist.is_partial());
    assert!(codelist.extensions.is_empty());
}

#[test]
fn member_values_rejects_empty() {
    assert_eq!(MemberValues::new(vec![]).unwrap_err(), Error::EmptyMemberValues);
    let ok = MemberValues::new(vec![MemberValue { value: "A".into(), cascade: None }]).unwrap();
    assert_eq!(ok.as_slice().len(), 1);
}

#[test]
fn extension_carries_its_selection() {
    let extension = CodelistExtension {
        codelist: CodelistReference {
            agency: "SDMX".into(),
            id: "CL_BASE".into(),
            version: "1.0.0".parse().unwrap(),
        },
        selection: Some(CodeSelection::Inclusive(
            MemberValues::new(vec![MemberValue {
                value: "A".into(),
                cascade: Some(Cascade::IncludeChildren),
            }])
            .unwrap(),
        )),
        prefix: Some("X_".into()),
    };
    match &extension.selection {
        Some(CodeSelection::Inclusive(values)) => {
            assert_eq!(values.as_slice()[0].cascade, Some(Cascade::IncludeChildren))
        },
        _ => panic!("expected an inclusive selection"),
    }
}

#[test]
fn member_values_try_from_rejects_empty() {
    assert_eq!(MemberValues::try_from(vec![]).unwrap_err(), Error::EmptyMemberValues);
}

#[test]
fn member_values_into_inner_and_from() {
    let v = vec![MemberValue { value: "V".to_string(), cascade: None }];
    assert_eq!(MemberValues::new(v.clone()).unwrap().into_inner(), v);
    assert_eq!(Vec::from(MemberValues::new(v.clone()).unwrap()), v);
}

#[test]
fn item_scheme_push_get_and_parts() {
    let mut scheme: ItemScheme<Code> = ItemScheme::new(metadata("CL_X"), Some(false));
    assert!(scheme.get("A").is_none());
    scheme.push(code("A"));
    scheme.push(code("B"));
    assert_eq!(scheme.get("B").map(|c| c.id()), Some("B"));
    assert_eq!(scheme.items().len(), 2);
    assert_eq!(scheme.stated_is_partial(), Some(false));
    assert!(!scheme.is_partial());
    let (meta, partial, items) = scheme.into_parts();
    assert_eq!(meta.id(), "CL_X");
    assert_eq!(partial, Some(false));
    assert_eq!(items.len(), 2);
}

// ---- dataflow ----

fn dsd_reference() -> DataStructureReference {
    DataStructureReference { agency: "ECB".into(), id: "ECB_EXR".into(), version: "1.0.0".parse().unwrap() }
}

#[test]
fn dimension_constraint_rejects_empty() {
    assert_eq!(DimensionConstraint::new(vec!["FREQ".into()]).unwrap().as_slice().len(), 1);
    assert_eq!(DimensionConstraint::new(Vec::new()).unwrap_err(), Error::EmptyDimensionConstraint);
}

#[test]
fn dataflow_artefact_hierarchy_forwards_every_accessor() {
    let (metadata, _) = full_maintainable("ECB_EXR_FLOW", "ECB", "Exchange rates");
    let dataflow = Dataflow { metadata, dsd: Some(dsd_reference()), dimension_constraint: None };
    assert_eq!(dataflow.id(), "ECB_EXR_FLOW");
    assert_eq!(dataflow.urn(), Some("urn:x"));
    assert_eq!(dataflow.uri(), Some("uri"));
    assert_eq!(dataflow.annotations().len(), 1);
    assert_eq!(dataflow.links().len(), 1);
    assert_eq!(dataflow.names().first(), "Exchange rates");
    assert_eq!(dataflow.descriptions().map(LocalisedString::first), Some("How often"));
    assert_eq!(dataflow.version().map(|v| v.to_string()).as_deref(), Some("1.2.3"));
    assert!(dataflow.valid_from().is_some());
    assert_eq!(dataflow.valid_to(), None);
    assert_eq!(dataflow.agency(), "ECB");
    assert!(dataflow.is_partial_language());
    assert!(dataflow.is_external_reference());
    assert_eq!(dataflow.service_url(), Some("https://service"));
    assert_eq!(dataflow.structure_url(), Some("https://structure"));
}

#[test]
fn dataflow_with_dsd_reference_exposes_its_artefact_identity() {
    let dataflow = Dataflow {
        metadata: maintainable_named("ECB_EXR_FLOW", "ECB", "Exchange rates"),
        dsd: Some(dsd_reference()),
        dimension_constraint: Some(DimensionConstraint::new(vec!["FREQ".into()]).unwrap()),
    };
    assert_eq!(dataflow.id(), "ECB_EXR_FLOW");
    assert_eq!(dataflow.names().first(), "Exchange rates");
    assert_eq!(dataflow.agency(), "ECB");
    assert_eq!(dataflow.dsd.as_ref().unwrap().id, "ECB_EXR");
}

#[test]
fn dimension_constraint_try_from_rejects_empty() {
    assert_eq!(DimensionConstraint::try_from(vec![]).unwrap_err(), Error::EmptyDimensionConstraint);
}

#[test]
fn dimension_constraint_into_inner_and_from() {
    let v = vec!["FREQ".to_string()];
    assert_eq!(DimensionConstraint::new(v.clone()).unwrap().into_inner(), v);
    assert_eq!(Vec::from(DimensionConstraint::new(v.clone()).unwrap()), v);
}

// ---- data structure ----

fn concept(id: &str) -> ConceptReference {
    ConceptReference {
        agency: String::from("SDMX"),
        scheme_id: String::from("CS"),
        version: "1.0.0".parse().unwrap(),
        id: id.into(),
    }
}

fn component_metadata(id: &str) -> ComponentMetadata {
    ComponentMetadata::new(Some(id.into()), None, None, Vec::new(), Vec::new()).unwrap()
}

fn dimension(id: &str) -> Dimension {
    Dimension::new(component_metadata(id), concept(id), None, None).unwrap()
}

fn time_dimension() -> TimeDimension {
    let representation = Representation {
        choice: RepresentationChoice::TextFormat(TextFormat {
            text_type: Some(DataType::ObservationalTimePeriod),
            ..TextFormat::default()
        }),
        min_occurs: None,
        max_occurs: None,
    };
    TimeDimension::new(component_metadata("TIME_PERIOD"), concept("TIME"), representation).unwrap()
}

fn complete_dsd() -> DataStructureDefinition {
    let dimension_list = DimensionList::new(
        None,
        vec![dimension("FREQ"), dimension("CURRENCY")],
        Some(time_dimension()),
        Vec::new(),
        Vec::new(),
        None,
    )
    .unwrap();
    let attribute_list = AttributeList::new(
        None,
        vec![AttributeListMember::Attribute(
            Attribute::new(
                component_metadata("OBS_STATUS"),
                concept("OBS_STATUS"),
                Vec::new(),
                None,
                AttributeRelationship::Observation,
                None,
                None,
            )
            .unwrap(),
        )],
        Vec::new(),
        Vec::new(),
        None,
    )
    .unwrap();
    let measure_list = MeasureList::new(
        None,
        vec![Measure::new(component_metadata("OBS_VALUE"), concept("OBS_VALUE"), None, None).unwrap()],
        Vec::new(),
        Vec::new(),
        None,
    )
    .unwrap();
    let group = Group {
        metadata: IdentifiableMetadata::new(String::from("SIBLING"), None, None, Vec::new(), Vec::new())
            .unwrap(),
        dimensions: GroupDimensions::new(vec![String::from("CURRENCY")]).unwrap(),
    };
    DataStructureDefinition {
        metadata: maintainable_named("ECB_EXR", "ECB", "Exchange rates"),
        dimension_list,
        groups: vec![group],
        attribute_list: Some(attribute_list),
        measure_list: Some(measure_list),
        evolving_structure: None,
    }
}

#[test]
fn data_structure_artefact_hierarchy_forwards_every_accessor() {
    let dimension_list =
        DimensionList::new(None, vec![dimension("FREQ")], None, Vec::new(), Vec::new(), None).unwrap();
    let (metadata, _) = full_maintainable("ECB_EXR", "ECB", "Exchange rates");
    let dsd = DataStructureDefinition {
        metadata,
        dimension_list,
        groups: Vec::new(),
        attribute_list: None,
        measure_list: None,
        evolving_structure: None,
    };
    assert_eq!(dsd.id(), "ECB_EXR");
    assert_eq!(dsd.urn(), Some("urn:x"));
    assert_eq!(dsd.uri(), Some("uri"));
    assert_eq!(dsd.annotations().len(), 1);
    assert_eq!(dsd.links().len(), 1);
    assert_eq!(dsd.names().first(), "Exchange rates");
    assert_eq!(dsd.descriptions().map(LocalisedString::first), Some("How often"));
    assert_eq!(dsd.version().map(|v| v.to_string()).as_deref(), Some("1.2.3"));
    assert!(dsd.valid_from().is_some());
    assert_eq!(dsd.valid_to(), None);
    assert_eq!(dsd.agency(), "ECB");
    assert!(dsd.is_partial_language());
    assert!(dsd.is_external_reference());
    assert_eq!(dsd.service_url(), Some("https://service"));
    assert_eq!(dsd.structure_url(), Some("https://structure"));
}

#[test]
fn complete_dsd_constructs_and_exposes_its_artefact_identity() {
    let dsd = complete_dsd();
    assert_eq!(dsd.id(), "ECB_EXR");
    assert_eq!(dsd.names().first(), "Exchange rates");
    assert_eq!(dsd.agency(), "ECB");
    assert_eq!(dsd.dimension_list.dimensions().len(), 2);
    assert!(dsd.dimension_list.time_dimension.is_some());
    assert_eq!(dsd.attribute_list.as_ref().unwrap().attributes().len(), 1);
    assert_eq!(dsd.measure_list.as_ref().unwrap().iter().count(), 1);
}

#[test]
fn get_group_is_a_first_match_view() {
    let dsd = complete_dsd();
    assert_eq!(dsd.get_group("SIBLING").map(|g| g.id()), Some("SIBLING"));
    assert!(dsd.get_group("MISSING").is_none());
}

#[test]
fn measure_less_dsd_has_no_measure_list() {
    let mut dsd = complete_dsd();
    dsd.measure_list = None;
    assert!(dsd.measure_list.is_none());
    assert_eq!(dsd.clone(), dsd);
}

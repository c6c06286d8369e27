use sdmx_types::{
    Annotation, AvailabilityConstraint, AvailabilityConstraintAttachment, Cascade,
    ComponentSelection, ComponentValueSet, ConstraintModel, ConstraintRole, CubeKeyValue,
    CubeKeyValues, CubeRegion, CubeRegionKey, CubeRegions, DataComponentSelection,
    DataComponentValue, DataComponentValueSet, DataComponentValues, DataConstraint,
    DataConstraintAttachment, DataKey, DataKeySet, DataKeyValue, DataKeys, DataProviderReference,
    DataStructureReference, DataStructureRefs, DataflowReference, DataflowRefs, Error,
    FixedInclude, IdentifiableArtefact, IdentifiableMetadata, KeyValueSelection, Link,
    LocalisedString, LocalisedText, MaintainableArtefact, MaintainableMetadata, NameableArtefact,
    NameableMetadata, ProvisionAgreementReference, ProvisionAgreementRefs, QueryableDataSource,
    ReleaseCalendar, SdmxDateTime, SdmxTimePeriod, SdmxVersion, SimpleComponentValue,
    SimpleComponentValues, SimpleDataSources, SimpleKeyValues, TimePeriodRange, TimeRange,
    TimeRangeKind, VersionableArtefact, VersionableMetadata,
};

fn period(p: &str) -> TimePeriodRange {
    TimePeriodRange { period: p.parse().unwrap(), inclusive: None }
}

fn cube_key(id: &str, value: &str) -> CubeRegionKey {
    let v = CubeKeyValue { value: value.to_string(), cascade: None, valid_from: None, valid_to: None };
    CubeRegionKey::new(
        id.to_string(),
        KeyValueSelection::Values(CubeKeyValues::new(vec![v]).unwrap()),
        None,
        None,
        None,
        None,
    )
    .unwrap()
}

fn empty_region() -> CubeRegion {
    CubeRegion { key_values: Vec::new(), components: Vec::new(), included: None, annotations: Vec::new() }
}

fn data_key_value(id: &str, value: &str) -> DataKeyValue {
    DataKeyValue::new(
        id.to_string(),
        SimpleKeyValues::new(vec![value.to_string()]).unwrap(),
        FixedInclude::new(None).unwrap(),
        None,
    )
    .unwrap()
}

fn dsd_ref(id: &str) -> DataStructureReference {
    DataStructureReference { agency: String::from("SDMX"), id: id.to_string(), version: "1.0.0".parse().unwrap() }
}

fn dataflow_ref(id: &str) -> DataflowReference {
    DataflowReference { agency: String::from("ECB"), id: id.to_string(), version: "1.0.0".parse().unwrap() }
}

fn agreement_ref(id: &str) -> ProvisionAgreementReference {
    ProvisionAgreementReference {
        agency: String::from("ECB"),
        id: id.to_string(),
        version: "1.0.0".parse().unwrap(),
    }
}

fn names(text: &str) -> LocalisedString {
    LocalisedString::new(vec![LocalisedText { language: Some(String::from("en")), text: String::from(text) }])
        .unwrap()
}

fn constraint_metadata(id: &str) -> MaintainableMetadata {
    let identifiable = IdentifiableMetadata::new(id.to_string(), None, None, Vec::new(), Vec::new()).unwrap();
    let versionable =
        VersionableMetadata::new(NameableMetadata::new(identifiable, names("A constraint"), None), None, None, None);
    MaintainableMetadata::new(versionable, String::from("SDMX"), None, None, None, None).unwrap()
}

fn data_key_set() -> DataKeySet {
    DataKeySet {
        keys: DataKeys::new(vec![DataKey {
            key_values: vec![data_key_value("FREQ", "A")],
            components: Vec::new(),
            included: FixedInclude::new(None).unwrap(),
            annotations: Vec::new(),
            valid_from: None,
            valid_to: None,
        }])
        .unwrap(),
        is_included: true,
    }
}

fn cube_region() -> CubeRegion {
    CubeRegion { key_values: vec![cube_key("FREQ", "A")], components: Vec::new(), included: None, annotations: Vec::new() }
}

#[test]
fn cube_key_values_rejects_empty() {
    assert_eq!(CubeKeyValues::new(Vec::new()).unwrap_err(), Error::EmptyCubeKeyValues);
    let value = CubeKeyValue { value: String::from("A"), cascade: None, valid_from: None, valid_to: None };
    assert_eq!(CubeKeyValues::new(vec![value]).unwrap().as_slice().len(), 1);
}

#[test]
fn simple_component_values_rejects_empty() {
    assert_eq!(SimpleComponentValues::new(Vec::new()).unwrap_err(), Error::EmptySimpleComponentValues);
    let value = SimpleComponentValue {
        value: String::from("EUR"),
        cascade: None,
        lang: None,
        valid_from: None,
        valid_to: None,
    };
    assert_eq!(SimpleComponentValues::new(vec![value]).unwrap().as_slice().len(), 1);
}

#[test]
fn time_period_range_effective_is_inclusive_applies_default() {
    assert!(period("2024").effective_is_inclusive());
    assert!(TimePeriodRange { period: "2024".parse().unwrap(), inclusive: Some(true) }.effective_is_inclusive());
    assert!(!TimePeriodRange { period: "2024".parse().unwrap(), inclusive: Some(false) }.effective_is_inclusive());
}

#[test]
fn include_flags_effective_is_included_apply_default() {
    assert!(cube_key("FREQ", "A").effective_is_included());
    assert!(ComponentValueSet::new(String::from("OBS_STATUS"), ComponentSelection::Empty, None, None)
        .unwrap()
        .effective_is_included());
    assert!(empty_region().effective_is_included());
    assert!(DataComponentValueSet::new(
        String::from("TIME_PERIOD"),
        DataComponentSelection::TimeRange(TimeRange {
            kind: TimeRangeKind::Before(period("2024")),
            valid_from: None,
            valid_to: None,
        }),
        None,
        None,
    )
    .unwrap()
    .effective_is_included());
    assert!(!CubeRegion { included: Some(false), ..empty_region() }.effective_is_included());
}

#[test]
fn cube_region_key_validates_the_single_ncname_grammar() {
    let key = cube_key("FREQ", "A");
    assert_eq!(key.id(), "FREQ");
    for bad in ["", "1BAD", "@X", "EUR$", "A.B"] {
        assert_eq!(
            CubeRegionKey::new(
                String::from(bad),
                KeyValueSelection::TimeRange(TimeRange {
                    kind: TimeRangeKind::After(period("2020")),
                    valid_from: None,
                    valid_to: None,
                }),
                None,
                None,
                None,
                None,
            )
            .unwrap_err(),
            Error::InvalidNcNameIdentifier(String::from(bad))
        );
    }
}

#[test]
fn cube_region_key_accessors_expose_stated_fields() {
    let selection = KeyValueSelection::TimeRange(TimeRange {
        kind: TimeRangeKind::After(period("2020")),
        valid_from: None,
        valid_to: None,
    });
    let from = SdmxTimePeriod::new(String::from("2019")).unwrap();
    let to = SdmxTimePeriod::new(String::from("2024")).unwrap();
    let key = CubeRegionKey::new(
        String::from("FREQ"),
        selection.clone(),
        Some(false),
        Some(true),
        Some(from.clone()),
        Some(to.clone()),
    )
    .unwrap();
    assert_eq!(key.id(), "FREQ");
    assert_eq!(key.selection(), &selection);
    assert_eq!(key.included(), Some(false));
    assert_eq!(key.remove_prefix(), Some(true));
    assert_eq!(key.valid_from(), Some(&from));
    assert_eq!(key.valid_to(), Some(&to));
    assert!(!key.effective_is_included());
}

#[test]
fn component_selection_empty_is_distinct_from_values() {
    let value = SimpleComponentValue {
        value: String::from("EUR"),
        cascade: None,
        lang: None,
        valid_from: None,
        valid_to: None,
    };
    let values = ComponentSelection::Values(SimpleComponentValues::new(vec![value]).unwrap());
    assert_ne!(values, ComponentSelection::Empty);
}

#[test]
fn component_value_set_validates_the_nested_ncname_grammar() {
    for ok in ["STREET", "CONTACT.ADDRESS.STREET"] {
        assert_eq!(
            ComponentValueSet::new(String::from(ok), ComponentSelection::Empty, None, None).unwrap().id(),
            ok
        );
    }
    for bad in ["", "1BAD", ".A", "A.", "A..B", "A.1B", "@X"] {
        assert_eq!(
            ComponentValueSet::new(String::from(bad), ComponentSelection::Empty, None, None).unwrap_err(),
            Error::InvalidNestedNcNameIdentifier(String::from(bad))
        );
    }
}

#[test]
fn component_value_set_accessors_expose_stated_fields() {
    let selection = ComponentSelection::Empty;
    let set = ComponentValueSet::new(
        String::from("CONTACT.ADDRESS.STREET"),
        selection.clone(),
        Some(false),
        Some(true),
    )
    .unwrap();
    assert_eq!(set.id(), "CONTACT.ADDRESS.STREET");
    assert_eq!(set.selection(), &selection);
    assert_eq!(set.included(), Some(false));
    assert_eq!(set.remove_prefix(), Some(true));
    assert!(!set.effective_is_included());
}

#[test]
fn cube_region_annotations_empty_maps_absent() {
    assert!(empty_region().annotations.is_empty());
}

#[test]
fn cube_regions_rejects_more_than_two() {
    assert!(CubeRegions::new(Vec::new()).unwrap().as_slice().is_empty());
    assert_eq!(CubeRegions::new(vec![empty_region(), empty_region()]).unwrap().as_slice().len(), 2);
    assert_eq!(
        CubeRegions::new(vec![empty_region(), empty_region(), empty_region()]).unwrap_err(),
        Error::TooManyCubeRegions
    );
}

#[test]
fn data_component_values_rejects_empty() {
    assert_eq!(DataComponentValues::new(Vec::new()).unwrap_err(), Error::EmptyDataComponentValues);
    let value = DataComponentValue { value: String::from("EUR"), cascade: None, lang: None };
    assert_eq!(DataComponentValues::new(vec![value]).unwrap().as_slice().len(), 1);
}

#[test]
fn simple_key_values_rejects_empty() {
    assert_eq!(SimpleKeyValues::new(Vec::new()).unwrap_err(), Error::EmptySimpleKeyValues);
    let ok = SimpleKeyValues::new(vec![String::from("A")]).unwrap();
    assert_eq!(ok.as_slice().len(), 1);
}

#[test]
fn data_keys_rejects_empty() {
    assert_eq!(DataKeys::new(Vec::new()).unwrap_err(), Error::EmptyDataKeys);
    let key = DataKey {
        key_values: vec![data_key_value("FREQ", "A")],
        components: Vec::new(),
        included: FixedInclude::new(None).unwrap(),
        annotations: Vec::new(),
        valid_from: None,
        valid_to: None,
    };
    assert_eq!(DataKeys::new(vec![key]).unwrap().as_slice().len(), 1);
}

#[test]
fn data_key_value_carries_3_1_multi_value_superset() {
    let multi = DataKeyValue::new(
        String::from("FREQ"),
        SimpleKeyValues::new(vec![String::from("A"), String::from("M"), String::from("Q")]).unwrap(),
        FixedInclude::new(Some(true)).unwrap(),
        None,
    )
    .unwrap();
    assert_eq!(multi.values().as_slice().len(), 3);
}

#[test]
fn data_key_value_validates_the_single_ncname_grammar() {
    let key = data_key_value("FREQ", "A");
    assert_eq!(key.id(), "FREQ");
    for bad in ["", "1BAD", "@X", "EUR$", "A.B"] {
        assert_eq!(
            DataKeyValue::new(
                String::from(bad),
                SimpleKeyValues::new(vec![String::from("A")]).unwrap(),
                FixedInclude::new(None).unwrap(),
                None,
            )
            .unwrap_err(),
            Error::InvalidNcNameIdentifier(String::from(bad))
        );
    }
}

#[test]
fn data_key_value_accessors_expose_stated_fields() {
    let values = SimpleKeyValues::new(vec![String::from("A")]).unwrap();
    let included_flag = FixedInclude::new(Some(true)).unwrap();
    let key = DataKeyValue::new(String::from("FREQ"), values.clone(), included_flag, Some(true)).unwrap();
    assert_eq!(key.id(), "FREQ");
    assert_eq!(key.values(), &values);
    assert_eq!(key.included(), included_flag);
    assert_eq!(key.remove_prefix(), Some(true));
}

#[test]
fn data_component_selection_empty_is_distinct_from_values() {
    let values = DataComponentSelection::Values(
        DataComponentValues::new(vec![DataComponentValue { value: String::from("EUR"), cascade: None, lang: None }])
            .unwrap(),
    );
    assert_ne!(values, DataComponentSelection::Empty);
}

#[test]
fn data_component_value_set_validates_the_nested_ncname_grammar() {
    for ok in ["STREET", "CONTACT.ADDRESS.STREET"] {
        assert_eq!(
            DataComponentValueSet::new(String::from(ok), DataComponentSelection::Empty, None, None)
                .unwrap()
                .id(),
            ok
        );
    }
    for bad in ["", "1BAD", ".A", "A.", "A..B", "A.1B", "@X"] {
        assert_eq!(
            DataComponentValueSet::new(String::from(bad), DataComponentSelection::Empty, None, None)
                .unwrap_err(),
            Error::InvalidNestedNcNameIdentifier(String::from(bad))
        );
    }
}

#[test]
fn data_component_value_set_accessors_expose_stated_fields() {
    let selection = DataComponentSelection::Empty;
    let set = DataComponentValueSet::new(
        String::from("CONTACT.ADDRESS.STREET"),
        selection.clone(),
        Some(false),
        Some(true),
    )
    .unwrap();
    assert_eq!(set.id(), "CONTACT.ADDRESS.STREET");
    assert_eq!(set.selection(), &selection);
    assert_eq!(set.included(), Some(false));
    assert_eq!(set.remove_prefix(), Some(true));
    assert!(!set.effective_is_included());
}

#[test]
fn data_component_value_set_values_arm_and_cascade() {
    let set = DataComponentValueSet::new(
        String::from("CURRENCY"),
        DataComponentSelection::Values(
            DataComponentValues::new(vec![DataComponentValue {
                value: String::from("EUR"),
                cascade: Some(Cascade::IncludeChildren),
                lang: Some(String::from("en")),
            }])
            .unwrap(),
        ),
        None,
        None,
    )
    .unwrap();
    match set.selection() {
        DataComponentSelection::Values(v) => assert_eq!(v.as_slice()[0].lang.as_deref(), Some("en")),
        _ => panic!("expected values"),
    }
}

#[test]
fn attachment_ref_newtypes_reject_empty_and_expose_their_slice() {
    assert_eq!(DataStructureRefs::new(Vec::new()).unwrap_err(), Error::EmptyDataStructureRefs);
    assert_eq!(DataflowRefs::new(Vec::new()).unwrap_err(), Error::EmptyDataflowRefs);
    assert_eq!(ProvisionAgreementRefs::new(Vec::new()).unwrap_err(), Error::EmptyProvisionAgreementRefs);
    assert_eq!(SimpleDataSources::new(Vec::new()).unwrap_err(), Error::EmptySimpleDataSources);

    assert_eq!(DataStructureRefs::new(vec![dsd_ref("ECB_EXR1")]).unwrap().as_slice().len(), 1);
    assert_eq!(DataflowRefs::new(vec![dataflow_ref("EXR")]).unwrap().as_slice().len(), 1);
    assert_eq!(ProvisionAgreementRefs::new(vec![agreement_ref("PA_EXR")]).unwrap().as_slice().len(), 1);
    assert_eq!(
        SimpleDataSources::new(vec![String::from("https://example.com/data")]).unwrap().as_slice().len(),
        1
    );
}

#[test]
fn data_constraint_forwards_every_artefact_accessor() {
    let version = SdmxVersion::new(String::from("1.2.3")).unwrap();
    let valid_from = SdmxDateTime::new(String::from("2024-01-01T00:00:00+00:00")).unwrap();
    let annotation = Annotation {
        id: Some(String::from("a1")),
        annotation_type: None,
        annotation_title: None,
        annotation_urls: Vec::new(),
        annotation_value: None,
        texts: None,
    };
    let link = Link { rel: String::from("self"), url: String::from("https://example.com/x"), urn: None, link_type: None };
    let identifiable = IdentifiableMetadata::new(
        String::from("CR_EXR"),
        Some(String::from("uri")),
        Some(String::from("urn:x")),
        vec![annotation],
        vec![link],
    )
    .unwrap();
    let versionable = VersionableMetadata::new(
        NameableMetadata::new(identifiable, names("Constraint"), Some(names("How much"))),
        Some(version),
        Some(valid_from.clone()),
        None,
    );
    let metadata = MaintainableMetadata::new(
        versionable,
        String::from("ESTAT"),
        Some(true),
        Some(true),
        Some(String::from("https://service")),
        Some(String::from("https://structure")),
    )
    .unwrap();
    let constraint = DataConstraint {
        metadata,
        role: None,
        attachment: None,
        release_calendar: None,
        key_sets: Vec::new(),
        regions: CubeRegions::new(Vec::new()).unwrap(),
    };

    assert_eq!(constraint.id(), "CR_EXR");
    assert_eq!(constraint.urn(), Some("urn:x"));
    assert_eq!(constraint.uri(), Some("uri"));
    assert_eq!(constraint.annotations().len(), 1);
    assert_eq!(constraint.links().len(), 1);
    assert_eq!(constraint.names().first(), "Constraint");
    assert_eq!(constraint.descriptions().map(LocalisedString::first), Some("How much"));
    assert_eq!(constraint.version().map(|v| v.to_string()).as_deref(), Some("1.2.3"));
    assert_eq!(constraint.valid_from(), Some(&valid_from));
    assert_eq!(constraint.valid_to(), None);
    assert_eq!(constraint.agency(), "ESTAT");
    assert!(constraint.is_partial_language());
    assert!(constraint.is_external_reference());
    assert_eq!(constraint.service_url(), Some("https://service"));
    assert_eq!(constraint.structure_url(), Some("https://structure"));
}

#[test]
fn data_constraint_is_constructible_key_set_only_region_only_both_and_neither() {
    let with = |key_sets: Vec<DataKeySet>, regions: Vec<CubeRegion>| DataConstraint {
        metadata: constraint_metadata("CR_EXR"),
        role: None,
        attachment: None,
        release_calendar: None,
        key_sets,
        regions: CubeRegions::new(regions).unwrap(),
    };
    let key_set_only = with(vec![data_key_set()], Vec::new());
    let region_only = with(Vec::new(), vec![cube_region()]);
    let both = with(vec![data_key_set()], vec![cube_region(), cube_region()]);
    let neither = with(Vec::new(), Vec::new());
    for constraint in [key_set_only, region_only, both, neither] {
        assert_eq!(constraint.id(), "CR_EXR");
        assert!(constraint.regions.as_slice().len() <= 2);
    }
}

#[test]
fn constraint_model_holds_both_arms() {
    let data = ConstraintModel::Data(DataConstraint {
        metadata: constraint_metadata("CR_EXR"),
        role: Some(ConstraintRole::Allowed),
        attachment: Some(DataConstraintAttachment::DataProvider(DataProviderReference {
            agency: String::from("SDMX"),
            scheme_id: String::from("DATA_PROVIDERS"),
            version: "1.0.0".parse().unwrap(),
            id: String::from("ECB"),
        })),
        release_calendar: Some(ReleaseCalendar {
            periodicity: String::from("P1M"),
            offset: String::from("P0D"),
            tolerance: String::from("P7D"),
        }),
        key_sets: vec![data_key_set()],
        regions: CubeRegions::new(vec![cube_region()]).unwrap(),
    });
    let availability = ConstraintModel::Availability(AvailabilityConstraint {
        attachment: AvailabilityConstraintAttachment::Dataflow(dataflow_ref("EXR")),
        region: cube_region(),
        annotations: Vec::new(),
        series_count: Some(42),
        obs_count: Some(-1),
    });
    assert!(matches!(data, ConstraintModel::Data(_)));
    assert!(matches!(availability, ConstraintModel::Availability(_)));
    let queryable = QueryableDataSource {
        data_url: String::from("https://example.com/sdmx"),
        wsdl_url: None,
        wadl_url: None,
        is_rest_data_source: true,
        is_web_service_data_source: false,
    };
    let arm = DataConstraintAttachment::DataStructure {
        refs: DataStructureRefs::new(vec![dsd_ref("ECB_EXR1"), dsd_ref("ECB_EXR2")]).unwrap(),
        queryable: vec![queryable],
    };
    assert!(matches!(arm, DataConstraintAttachment::DataStructure { .. }));
}

#[test]
fn cube_key_values_try_from_rejects_empty() {
    assert_eq!(CubeKeyValues::try_from(Vec::new()).unwrap_err(), Error::EmptyCubeKeyValues);
}

#[test]
fn simple_component_values_try_from_rejects_empty() {
    assert_eq!(SimpleComponentValues::try_from(Vec::new()).unwrap_err(), Error::EmptySimpleComponentValues);
}

#[test]
fn data_component_values_try_from_rejects_empty() {
    assert_eq!(DataComponentValues::try_from(Vec::new()).unwrap_err(), Error::EmptyDataComponentValues);
}

#[test]
fn simple_key_values_try_from_rejects_empty() {
    assert_eq!(SimpleKeyValues::try_from(Vec::new()).unwrap_err(), Error::EmptySimpleKeyValues);
}

#[test]
fn data_keys_try_from_rejects_empty() {
    assert_eq!(DataKeys::try_from(Vec::new()).unwrap_err(), Error::EmptyDataKeys);
}

#[test]
fn data_structure_refs_try_from_rejects_empty() {
    assert_eq!(DataStructureRefs::try_from(Vec::new()).unwrap_err(), Error::EmptyDataStructureRefs);
}

#[test]
fn dataflow_refs_try_from_rejects_empty() {
    assert_eq!(DataflowRefs::try_from(Vec::new()).unwrap_err(), Error::EmptyDataflowRefs);
}

#[test]
fn provision_agreement_refs_try_from_rejects_empty() {
    assert_eq!(ProvisionAgreementRefs::try_from(Vec::new()).unwrap_err(), Error::EmptyProvisionAgreementRefs);
}

#[test]
fn simple_data_sources_try_from_rejects_empty() {
    assert_eq!(SimpleDataSources::try_from(Vec::new()).unwrap_err(), Error::EmptySimpleDataSources);
}

#[test]
fn cube_regions_try_from_rejects_more_than_two() {
    assert_eq!(
        CubeRegions::try_from(vec![empty_region(), empty_region(), empty_region()]).unwrap_err(),
        Error::TooManyCubeRegions
    );
}

#[test]
fn collection_newtype_into_inner_and_from() {
    let ckv = vec![CubeKeyValue { value: String::from("A"), cascade: None, valid_from: None, valid_to: None }];
    assert_eq!(CubeKeyValues::new(ckv.clone()).unwrap().into_inner(), ckv);
    assert_eq!(Vec::from(CubeKeyValues::new(ckv.clone()).unwrap()), ckv);

    let scv = vec![SimpleComponentValue {
        value: String::from("EUR"),
        cascade: None,
        lang: None,
        valid_from: None,
        valid_to: None,
    }];
    assert_eq!(SimpleComponentValues::new(scv.clone()).unwrap().into_inner(), scv);
    assert_eq!(Vec::from(SimpleComponentValues::new(scv.clone()).unwrap()), scv);

    let cr = vec![empty_region()];
    assert_eq!(CubeRegions::new(cr.clone()).unwrap().into_inner(), cr);
    assert_eq!(Vec::from(CubeRegions::new(cr.clone()).unwrap()), cr);

    let dcv = vec![DataComponentValue { value: String::from("EUR"), cascade: None, lang: None }];
    assert_eq!(DataComponentValues::new(dcv.clone()).unwrap().into_inner(), dcv);
    assert_eq!(Vec::from(DataComponentValues::new(dcv.clone()).unwrap()), dcv);

    let skv = vec![String::from("A")];
    assert_eq!(SimpleKeyValues::new(skv.clone()).unwrap().into_inner(), skv);
    assert_eq!(Vec::from(SimpleKeyValues::new(skv.clone()).unwrap()), skv);

    let dk = vec![DataKey {
        key_values: vec![data_key_value("FREQ", "A")],
        components: Vec::new(),
        included: FixedInclude::new(None).unwrap(),
        annotations: Vec::new(),
        valid_from: None,
        valid_to: None,
    }];
    assert_eq!(DataKeys::new(dk.clone()).unwrap().into_inner(), dk);
    assert_eq!(Vec::from(DataKeys::new(dk.clone()).unwrap()), dk);

    let dsr = vec![dsd_ref("DSD")];
    assert_eq!(DataStructureRefs::new(dsr.clone()).unwrap().into_inner(), dsr);
    assert_eq!(Vec::from(DataStructureRefs::new(dsr.clone()).unwrap()), dsr);

    let dfr = vec![dataflow_ref("DF")];
    assert_eq!(DataflowRefs::new(dfr.clone()).unwrap().into_inner(), dfr);
    assert_eq!(Vec::from(DataflowRefs::new(dfr.clone()).unwrap()), dfr);

    let par = vec![ProvisionAgreementReference {
        agency: String::from("A"),
        id: String::from("P"),
        version: "1.0".parse().unwrap(),
    }];
    assert_eq!(ProvisionAgreementRefs::new(par.clone()).unwrap().into_inner(), par);
    assert_eq!(Vec::from(ProvisionAgreementRefs::new(par.clone()).unwrap()), par);

    let sds = vec![String::from("http://example.com")];
    assert_eq!(SimpleDataSources::new(sds.clone()).unwrap().into_inner(), sds);
    assert_eq!(Vec::from(SimpleDataSources::new(sds.clone()).unwrap()), sds);
}

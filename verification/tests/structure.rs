use sdmx_types::{
    Annotation, AnnotationUrl, ComponentMetadata, Concept, ConceptReference, ConceptScheme,
    DataType, Error, FixedInclude, IdentifiableArtefact, IdentifiableMetadata, Link,
    LocalisedString, LocalisedText, MaintainableArtefact, MaintainableMetadata, Measure,
    NameableArtefact, NameableMetadata, Representation, RepresentationChoice, SdmxDateTime,
    SdmxVersion, TextFormat, Usage, VersionableArtefact, VersionableMetadata,
};

fn entry(language: Option<&str>, text: &str) -> LocalisedText {
    LocalisedText { language: language.map(String::from), text: text.to_string() }
}

fn names() -> LocalisedString {
    LocalisedString::new(vec![entry(Some("en"), "Frequency")]).unwrap()
}

fn nameable(id: &str) -> NameableMetadata {
    let identifiable = IdentifiableMetadata::new(id.into(), None, None, vec![], vec![]).unwrap();
    NameableMetadata::new(identifiable, names(), None)
}

fn identifiable(id: &str) -> Result<IdentifiableMetadata, Error> {
    IdentifiableMetadata::new(id.into(), None, None, vec![], vec![])
}

fn scheme_metadata(id: &str) -> MaintainableMetadata {
    MaintainableMetadata::new(
        VersionableMetadata::new(nameable(id), None, None, None),
        "SDMX".into(),
        None,
        None,
        None,
        None,
    )
    .unwrap()
}

fn text_format(text_type: DataType) -> Representation {
    Representation {
        choice: RepresentationChoice::TextFormat(TextFormat {
            text_type: Some(text_type),
            is_sequence: None,
            interval: None,
            start_value: None,
            end_value: None,
            time_interval: None,
            start_time: None,
            end_time: None,
            min_length: None,
            max_length: None,
            min_value: None,
            max_value: None,
            decimals: None,
            pattern: None,
            is_multi_lingual: None,
        }),
        min_occurs: None,
        max_occurs: None,
    }
}

fn concept_ref(id: &str) -> ConceptReference {
    ConceptReference {
        agency: "SDMX".into(),
        scheme_id: "CS".into(),
        version: "1.0.0".parse().unwrap(),
        id: id.into(),
    }
}

fn component(id: Option<&str>) -> ComponentMetadata {
    ComponentMetadata::new(id.map(Into::into), None, None, vec![], vec![]).unwrap()
}

fn annotation() -> Annotation {
    Annotation {
        id: Some("a1".into()),
        annotation_type: None,
        annotation_title: None,
        annotation_urls: vec![AnnotationUrl {
            url: "https://example.com".into(),
            lang: Some("en".into()),
        }],
        annotation_value: None,
        texts: None,
    }
}

fn link() -> Link {
    Link { rel: "self".into(), url: "https://example.com/x".into(), urn: None, link_type: None }
}

fn full_nameable(id: &str) -> NameableMetadata {
    let descriptions = LocalisedString::new(vec![entry(Some("en"), "How often")]).unwrap();
    let identifiable = IdentifiableMetadata::new(
        id.into(),
        Some("uri".into()),
        Some("urn:x".into()),
        vec![annotation()],
        vec![link()],
    )
    .unwrap();
    NameableMetadata::new(identifiable, names(), Some(descriptions))
}

// ---- annotation ----

#[test]
fn annotation_default_is_all_absent() {
    let note = Annotation::default();
    assert!(note.id.is_none());
    assert!(note.annotation_type.is_none());
    assert!(note.annotation_title.is_none());
    assert!(note.annotation_urls.is_empty());
    assert!(note.annotation_value.is_none());
    assert!(note.texts.is_none());

    let with_value = Annotation { annotation_value: Some("x".into()), ..Default::default() };
    assert_eq!(with_value.annotation_value.as_deref(), Some("x"));
    assert!(with_value.id.is_none());
}

// ---- fixed ----

#[test]
fn accepts_omitted_and_stated_true() {
    assert_eq!(FixedInclude::new(None).unwrap().stated(), None);
    assert_eq!(FixedInclude::new(Some(true)).unwrap().stated(), Some(true));
}

#[test]
fn rejects_stated_false() {
    assert_eq!(
        FixedInclude::new(Some(false)),
        Err(Error::FixedAttributeMismatch {
            attribute: String::from("include"),
            value: String::from("false")
        })
    );
}

#[test]
fn effective_is_always_true() {
    assert!(FixedInclude::new(None).unwrap().effective_is_included());
    assert!(FixedInclude::new(Some(true)).unwrap().effective_is_included());
}

// ---- localised ----

fn sample() -> LocalisedString {
    LocalisedString::new(vec![
        entry(Some("en"), "Name"),
        entry(Some("fr"), "Nom"),
        entry(None, "Untagged"),
    ])
    .unwrap()
}

#[test]
fn rejects_empty_entry_list() {
    assert_eq!(LocalisedString::new(Vec::new()), Err(Error::EmptyLocalisation));
}

#[test]
fn get_matches_stated_language() {
    let ls = sample();
    assert_eq!(ls.get("en"), Some("Name"));
    assert_eq!(ls.get("fr"), Some("Nom"));
    assert_eq!(ls.get("de"), None);
}

#[test]
fn tagless_entry_has_effective_en() {
    let only_untagged = LocalisedString::new(vec![entry(None, "Fallback")]).unwrap();
    assert_eq!(only_untagged.get("en"), Some("Fallback"));
}

#[test]
fn first_is_wire_first() {
    assert_eq!(sample().first(), "Name");
}

#[test]
fn get_returns_first_match_for_duplicate_effective_language() {
    let ls = LocalisedString::new(vec![
        entry(Some("en"), "First"),
        entry(None, "Second"),
        entry(Some("en"), "Third"),
    ])
    .unwrap();
    assert_eq!(ls.get("en"), Some("First"));
}

#[test]
fn iter_and_slice_expose_raw_entries_languages_applies_default() {
    let ls = sample();
    let expected = [entry(Some("en"), "Name"), entry(Some("fr"), "Nom"), entry(None, "Untagged")];
    let iterated: Vec<&LocalisedText> = ls.iter().collect();
    assert_eq!(iterated, expected.iter().collect::<Vec<_>>());
    assert_eq!(ls.as_slice(), &expected);
    let effective: Vec<String> = ls.languages();
    assert_eq!(effective, vec!["en", "fr", "en"]);
    assert_eq!(ls.len(), 3);
}

#[test]
fn localised_string_try_from_rejects_empty() {
    assert_eq!(LocalisedString::try_from(Vec::new()).unwrap_err(), Error::EmptyLocalisation);
}

#[test]
fn localised_string_into_inner_and_from() {
    let v = vec![LocalisedText { language: None, text: "T".to_string() }];
    assert_eq!(LocalisedString::new(v.clone()).unwrap().into_inner(), v);
    assert_eq!(Vec::from(LocalisedString::new(v.clone()).unwrap()), v);
}

// ---- component ----

#[test]
fn new_validates_stated_id_as_ncname() {
    assert!(ComponentMetadata::new(Some("OBS_VALUE".into()), None, None, vec![], vec![]).is_ok());
    assert_eq!(
        ComponentMetadata::new(Some("a.b".into()), None, None, vec![], vec![]).unwrap_err(),
        Error::InvalidNcNameIdentifier("a.b".into())
    );
}

#[test]
fn absent_id_skips_validation_and_reads_as_none() {
    let meta = ComponentMetadata::new(None, None, None, vec![], vec![]).unwrap();
    assert_eq!(meta.stated_id(), None);
}

// ---- metadata ----

#[test]
fn identifiable_validates_id_tier() {
    assert!(identifiable("FREQ").is_ok());
    assert!(identifiable("EUR$").is_ok());
    assert_eq!(identifiable("a.b").unwrap_err(), Error::InvalidIdentifier("a.b".into()));
}

#[test]
fn delegation_climbs_the_hierarchy() {
    let nameable = NameableMetadata::new(identifiable("FREQ").unwrap(), names(), None);
    let versionable = VersionableMetadata::new(
        nameable,
        Some(SdmxVersion::new("1.0.0".into()).unwrap()),
        None,
        None,
    );
    let maintainable =
        MaintainableMetadata::new(versionable, "ESTAT".into(), None, None, None, None).unwrap();
    assert_eq!(maintainable.id(), "FREQ");
    assert_eq!(maintainable.names().first(), "Frequency");
    assert_eq!(maintainable.version().map(|v| v.to_string()).as_deref(), Some("1.0.0"));
    assert_eq!(maintainable.agency(), "ESTAT");
}

#[test]
fn maintainable_validates_agency_as_nested_ncname() {
    let versionable = VersionableMetadata::new(
        NameableMetadata::new(identifiable("FREQ").unwrap(), names(), None),
        None,
        None,
        None,
    );
    assert!(MaintainableMetadata::new(versionable.clone(), "ORG.SUB".into(), None, None, None, None)
        .is_ok());
    assert_eq!(
        MaintainableMetadata::new(versionable, "1ORG".into(), None, None, None, None).unwrap_err(),
        Error::InvalidAgencyIdentifier("1ORG".into())
    );
}

#[test]
fn external_reference_defaults_are_effective_views() {
    let versionable = VersionableMetadata::new(
        NameableMetadata::new(identifiable("FREQ").unwrap(), names(), None),
        None,
        None,
        None,
    );
    let m = MaintainableMetadata::new(versionable, "ESTAT".into(), None, None, None, None).unwrap();
    assert!(!m.is_partial_language());
    assert!(!m.is_external_reference());
}

#[test]
fn delegation_matrix_forwards_every_accessor_on_every_leaf() {
    let version = SdmxVersion::new("1.2.3".into()).unwrap();
    let valid_from = SdmxDateTime::new("2024-01-01T00:00:00+00:00".into()).unwrap();
    let nameable = full_nameable("FREQ");
    let versionable =
        VersionableMetadata::new(nameable.clone(), Some(version), Some(valid_from.clone()), None);
    let maintainable = MaintainableMetadata::new(
        versionable.clone(),
        "ESTAT".into(),
        Some(true),
        Some(true),
        Some("https://service".into()),
        Some("https://structure".into()),
    )
    .unwrap();

    for leaf in [
        &nameable as &dyn IdentifiableArtefact,
        &versionable as &dyn IdentifiableArtefact,
        &maintainable as &dyn IdentifiableArtefact,
    ] {
        assert_eq!(leaf.id(), "FREQ");
        assert_eq!(leaf.urn(), Some("urn:x"));
        assert_eq!(leaf.uri(), Some("uri"));
        assert_eq!(leaf.annotations().len(), 1);
        assert_eq!(leaf.links().len(), 1);
    }
    for leaf in [&versionable as &dyn NameableArtefact, &maintainable as &dyn NameableArtefact] {
        assert_eq!(leaf.names().first(), "Frequency");
        assert_eq!(leaf.descriptions().map(LocalisedString::first), Some("How often"));
    }
    for leaf in
        [&versionable as &dyn VersionableArtefact, &maintainable as &dyn VersionableArtefact]
    {
        assert_eq!(leaf.version().map(|v| v.to_string()).as_deref(), Some("1.2.3"));
        assert_eq!(leaf.valid_from(), Some(&valid_from));
        assert_eq!(leaf.valid_to(), None);
        assert_eq!(leaf.version_display().to_string(), "1.2.3");
    }
    assert_eq!(maintainable.agency(), "ESTAT");
    assert!(maintainable.is_partial_language());
    assert!(maintainable.is_external_reference());
    assert_eq!(maintainable.service_url(), Some("https://service"));
    assert_eq!(maintainable.structure_url(), Some("https://structure"));
}

#[test]
fn version_display_renders_unversioned_when_absent() {
    let versionable = VersionableMetadata::new(
        NameableMetadata::new(identifiable("FREQ").unwrap(), names(), None),
        None,
        None,
        None,
    );
    assert_eq!(versionable.version_display().to_string(), "<unversioned>");
}

// ---- concept ----

#[test]
fn concept_new_validates_id_as_ncname() {
    assert!(Concept::new(nameable("FREQ"), None, None).is_ok());
    assert_eq!(
        Concept::new(nameable("1FREQ"), None, None).unwrap_err(),
        Error::InvalidNcNameIdentifier("1FREQ".into())
    );
}

#[test]
fn concept_new_validates_core_representation_at_basic_tier() {
    assert!(Concept::new(nameable("FREQ"), None, Some(text_format(DataType::String))).is_ok());
    assert_eq!(
        Concept::new(nameable("FREQ"), None, Some(text_format(DataType::KeyValues))).unwrap_err(),
        Error::InvalidTextTypeForComponent {
            component: "Concept".into(),
            text_type: "KeyValues".into()
        }
    );
}

#[test]
fn concept_exposes_parent_and_core_representation() {
    let concept =
        Concept::new(nameable("FREQ"), Some("PARENT".into()), Some(text_format(DataType::String)))
            .unwrap();
    assert_eq!(concept.parent_id(), Some("PARENT"));
    assert!(concept.core_representation().is_some());
}

#[test]
fn concept_scheme_validates_id_and_forwards() {
    assert!(ConceptScheme::new(scheme_metadata("CS_X"), None).is_ok());
    assert_eq!(
        ConceptScheme::new(scheme_metadata("9CS"), None).unwrap_err(),
        Error::InvalidNcNameIdentifier("9CS".into())
    );

    let mut scheme = ConceptScheme::new(scheme_metadata("CS_X"), None).unwrap();
    scheme.insert(Concept::new(nameable("FREQ"), None, None).unwrap());
    assert_eq!(scheme.get("FREQ").map(|c| c.id()), Some("FREQ"));
    assert_eq!(scheme.iter().count(), 1);
}

#[test]
fn concept_delegation_matrix_forwards_every_accessor() {
    let version = SdmxVersion::new("1.2.3".into()).unwrap();
    let valid_from = SdmxDateTime::new("2024-01-01T00:00:00+00:00".into()).unwrap();
    let metadata = MaintainableMetadata::new(
        VersionableMetadata::new(
            full_nameable("CS_X"),
            Some(version),
            Some(valid_from.clone()),
            None,
        ),
        "ESTAT".into(),
        Some(true),
        Some(true),
        Some("https://service".into()),
        Some("https://structure".into()),
    )
    .unwrap();
    let scheme = ConceptScheme::new(metadata, Some(true)).unwrap();

    assert_eq!(scheme.id(), "CS_X");
    assert_eq!(scheme.urn(), Some("urn:x"));
    assert_eq!(scheme.annotations().len(), 1);
    assert_eq!(scheme.links().len(), 1);
    assert_eq!(scheme.names().first(), "Frequency");
    assert_eq!(scheme.descriptions().map(LocalisedString::first), Some("How often"));
    assert_eq!(scheme.version().map(|v| v.to_string()).as_deref(), Some("1.2.3"));
    assert_eq!(scheme.valid_from(), Some(&valid_from));
    assert_eq!(scheme.valid_to(), None);
    assert_eq!(scheme.agency(), "ESTAT");
    assert!(scheme.is_partial_language());
    assert!(scheme.is_external_reference());
    assert_eq!(scheme.service_url(), Some("https://service"));
    assert_eq!(scheme.structure_url(), Some("https://structure"));
    assert!(scheme.is_partial());

    let concept = Concept::new(full_nameable("FREQ"), None, None).unwrap();
    assert_eq!(concept.id(), "FREQ");
    assert_eq!(concept.urn(), Some("urn:x"));
    assert_eq!(concept.annotations().len(), 1);
    assert_eq!(concept.links().len(), 1);
    assert_eq!(concept.names().first(), "Frequency");
    assert_eq!(concept.descriptions().map(LocalisedString::first), Some("How often"));
}

// ---- measure ----

#[test]
fn measure_id_is_stated_else_inherited() {
    let stated =
        Measure::new(component(Some("OBS_VALUE")), concept_ref("OBS_VALUE"), None, None).unwrap();
    assert_eq!(stated.id(), "OBS_VALUE");
    assert_eq!(stated.stated_id(), Some("OBS_VALUE"));

    let inherited = Measure::new(component(None), concept_ref("CONCEPT_VALUE"), None, None).unwrap();
    assert_eq!(inherited.id(), "CONCEPT_VALUE");
    assert_eq!(inherited.stated_id(), None);
}

#[test]
fn measure_new_validates_the_basic_representation_rule() {
    assert_eq!(
        Measure::new(
            component(Some("OBS_VALUE")),
            concept_ref("OBS_VALUE"),
            Some(text_format(DataType::KeyValues)),
            None,
        )
        .unwrap_err(),
        Error::InvalidTextTypeForComponent {
            component: "Measure".into(),
            text_type: "KeyValues".into()
        }
    );
    assert!(Measure::new(
        component(Some("OBS_VALUE")),
        concept_ref("OBS_VALUE"),
        Some(text_format(DataType::Double)),
        None,
    )
    .is_ok());
}

#[test]
fn measure_usage_default_is_a_layer_two_view() {
    let absent =
        Measure::new(component(Some("OBS_VALUE")), concept_ref("OBS_VALUE"), None, None).unwrap();
    assert_eq!(absent.usage(), None);
    assert_eq!(absent.effective_usage(), Usage::Optional);

    let stated = Measure::new(
        component(Some("OBS_VALUE")),
        concept_ref("OBS_VALUE"),
        None,
        Some(Usage::Mandatory),
    )
    .unwrap();
    assert_eq!(stated.usage(), Some(Usage::Mandatory));
    assert_eq!(stated.effective_usage(), Usage::Mandatory);
}

#[test]
fn measure_exposes_concept_and_representation() {
    let measure = Measure::new(
        component(Some("OBS_VALUE")),
        concept_ref("OBS_VALUE"),
        Some(text_format(DataType::Double)),
        None,
    )
    .unwrap();
    assert_eq!(measure.concept().id, "OBS_VALUE");
    assert!(measure.representation().is_some());
}

#[test]
fn measure_forwards_identifiable_accessors() {
    let full = ComponentMetadata::new(
        Some("OBS_VALUE".into()),
        Some("uri".into()),
        Some("urn:x".into()),
        vec![annotation()],
        vec![link()],
    )
    .unwrap();
    let measure = Measure::new(full, concept_ref("OBS_VALUE"), None, None).unwrap();
    assert_eq!(measure.urn(), Some("urn:x"));
    assert_eq!(measure.annotations().len(), 1);
    assert_eq!(measure.links().len(), 1);
}

use sdmx_types::{Error, IdentifiableMetadata, LocalisedString, SdmxDecimal, SdmxVersion};

#[test]
fn identifier_error_names_the_lexeme_and_the_grammar() {
    let e = IdentifiableMetadata::new(String::from("1 BAD"), None, None, Vec::new(), Vec::new())
        .unwrap_err();
    assert_eq!(e, Error::InvalidIdentifier(String::from("1 BAD")));
    assert_eq!(e.message(), "Invalid artefact identifier: `1 BAD`. Must match SDMX IDType format.");
}

#[test]
fn lexeme_errors_quote_the_rejected_text() {
    let e = SdmxDecimal::new(String::from("1.2.3")).unwrap_err();
    assert_eq!(e.message(), "Invalid xs:decimal value: 1.2.3.");
    let e = SdmxVersion::new(String::from("01.0")).unwrap_err();
    assert_eq!(
        e.message(),
        "Invalid SDMX version: 01.0. Must match VersionType (semantic major.minor.patch[-ext] or legacy major[.minor])."
    );
}

#[test]
fn empty_localisation_message_is_fixed_text() {
    let e = LocalisedString::new(Vec::new()).unwrap_err();
    assert_eq!(e, Error::EmptyLocalisation);
    assert_eq!(
        e.message(),
        "Empty localised string. Artefact name or description must contain at least one language variant."
    );
}

#[test]
fn structured_errors_render_every_field() {
    let e = Error::ProhibitedRepresentationFacet {
        component: String::from("Dimension"),
        facet: String::from("isMultiLingual"),
    };
    assert_eq!(
        e.message(),
        "Invalid representation for Dimension: facet 'isMultiLingual' is prohibited at this position."
    );
    let e = Error::FixedAttributeMismatch { attribute: String::from("id"), value: String::from("X") };
    assert_eq!(
        e.message(),
        "Invalid fixed attribute id: stated value 'X' differs from the schema-fixed value."
    );
    let e = Error::InvalidReferenceUrn { urn: String::from("urn:x"), class: "codelist.Codelist" };
    assert_eq!(e.message(), "Invalid SDMX reference URN for codelist.Codelist: urn:x");
    let e = Error::InvalidTextTypeForComponent {
        component: String::from("Concept"),
        text_type: String::from("KeyValues"),
    };
    assert_eq!(
        e.message(),
        "Invalid representation for Concept: textType 'KeyValues' is outside this position's allowed subset."
    );
}

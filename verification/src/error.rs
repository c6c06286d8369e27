//! The crate-wide [`Error`] type: one variant per schema-mechanical rejection.
use crate::chars::{append_str, owned};
use vstd::prelude::*;

verus! {

/// Errors returned by the fallible constructors and validators of this crate.
///
/// Every variant corresponds to input an XSD validator could itself reject (an off-pattern
/// identifier, a malformed lexeme, a missing-but-required element, a value that contradicts a
/// schema-fixed one). Each carries the rejected lexeme (or names the site) so a caller can
/// report it.
#[derive(Clone, Debug, PartialEq, Eq, Hash)]
pub enum Error {
    /// An identifier failed the SDMX `IDType` grammar (`[A-Za-z0-9_@$\-]+`).
    InvalidIdentifier(String),
    /// An `agencyID` failed the SDMX `NestedNCNameIDType` grammar (dotted `NCName`).
    InvalidAgencyIdentifier(String),
    /// A component reference failed the SDMX `NestedNCNameIDType` grammar (dotted `NCName`).
    InvalidNestedNcNameIdentifier(String),
    /// An identifier failed the SDMX `NCNameIDType` grammar (`[A-Za-z][A-Za-z0-9_\-]*`).
    InvalidNcNameIdentifier(String),
    /// A value failed the `xs:decimal` lexical grammar.
    InvalidDecimal(String),
    /// A value failed the `xs:integer` lexical grammar.
    InvalidInteger(String),
    /// A value failed the SDMX `VersionType` grammar.
    InvalidVersion(String),
    /// A value failed the SDMX `WildcardVersionType` reference grammar.
    InvalidVersionReference(String),
    /// A value failed the SDMX `StandardTimePeriodType` grammar.
    InvalidTimePeriod(String),
    /// A value failed the SDMX `TimeRangeType` grammar.
    InvalidTimeRange(String),
    /// A value failed the SDMX `ObservationalTimePeriodType` union grammar.
    InvalidObservationalTimePeriod(String),
    /// A value failed the `xs:dateTime` grammar.
    InvalidDateTime(String),
    /// A value failed the `xs:duration` lexical grammar.
    InvalidDuration(String),
    /// A string failed a reference type's URN grammar for the named class.
    InvalidReferenceUrn {
        /// The rejected input.
        urn: String,
        /// The URN class the parse expected (for example `codelist.Codelist`).
        class: &'static str,
    },
    /// A localised string was constructed with an empty entry list.
    EmptyLocalisation,
    /// A codelist-extension code selection was constructed with no member value.
    EmptyMemberValues,
    /// A cube-region dimension selection was constructed with no value.
    EmptyCubeKeyValues,
    /// A cube-region component selection was constructed with no value.
    EmptySimpleComponentValues,
    /// A cube-region list was constructed with more than two regions.
    TooManyCubeRegions,
    /// A key-set component selection was constructed with no value.
    EmptyDataComponentValues,
    /// A data-key dimension selection was constructed with no value.
    EmptySimpleKeyValues,
    /// A data key set was constructed with no key.
    EmptyDataKeys,
    /// A data-structure attachment was constructed with no reference.
    EmptyDataStructureRefs,
    /// A dataflow attachment was constructed with no reference.
    EmptyDataflowRefs,
    /// A provision-agreement attachment was constructed with no reference.
    EmptyProvisionAgreementRefs,
    /// A simple-data-source attachment was constructed with no URL.
    EmptySimpleDataSources,
    /// An attribute's dimension relationship was constructed with no dimension.
    EmptyAttributeDimensions,
    /// A measure relationship was constructed with no measure.
    EmptyMeasureRelationship,
    /// A dimension list was constructed with no dimension.
    EmptyDimensionList,
    /// A group was constructed with no dimension.
    EmptyGroupDimensions,
    /// A present attribute list was constructed with no member.
    EmptyAttributeList,
    /// A present measure list was constructed with no measure.
    EmptyMeasureList,
    /// A dimension constraint was constructed with no dimension.
    EmptyDimensionConstraint,
    /// A component's representation states a `textType` outside its position's subset.
    InvalidTextTypeForComponent {
        /// The component kind whose position sets the subset (for example `Concept`).
        component: String,
        /// The offending `textType`.
        text_type: String,
    },
    /// A dimension's representation uses a `ValueList` enumeration (codelist-only position).
    ValueListEnumerationNotAllowed(String),
    /// A time dimension's representation uses an enumeration (`TextFormat`-only position).
    EnumerationNotAllowed(String),
    /// A component's representation sets a facet its position prohibits.
    ProhibitedRepresentationFacet {
        /// The component kind whose position prohibits the facet.
        component: String,
        /// The prohibited facet (for example `isMultiLingual`).
        facet: String,
    },
    /// A stated value contradicts an XSD `fixed` value.
    FixedAttributeMismatch {
        /// The fixed attribute or site (for example `id`, `include`).
        attribute: String,
        /// The offending stated value.
        value: String,
    },
}

/// The diagnostic text of an error, naming the rejected lexeme or site.
pub open spec fn error_message(e: Error) -> Seq<char> {
    match e {
        Error::InvalidIdentifier(s) => "Invalid artefact identifier: `"@ + s@ + "`. Must match SDMX IDType format."@,
        Error::InvalidAgencyIdentifier(s) => "Invalid agency identifier: `"@ + s@ + "`. Must match SDMX NestedNCNameIDType format."@,
        Error::InvalidNestedNcNameIdentifier(s) => "Invalid nested NCName identifier: `"@ + s@ + "`. Must match SDMX NestedNCNameIDType format."@,
        Error::InvalidNcNameIdentifier(s) => "Invalid NCName identifier: `"@ + s@ + "`. Must match SDMX NCNameIDType format."@,
        Error::InvalidDecimal(s) => "Invalid xs:decimal value: "@ + s@ + "."@,
        Error::InvalidInteger(s) => "Invalid xs:integer value: "@ + s@ + "."@,
        Error::InvalidVersion(s) => "Invalid SDMX version: "@ + s@ + ". Must match VersionType (semantic major.minor.patch[-ext] or legacy major[.minor])."@,
        Error::InvalidVersionReference(s) => "Invalid SDMX version reference: "@ + s@ + ". Must match WildcardVersionType (an exact version, a triple with one + wildcard, or *)."@,
        Error::InvalidTimePeriod(s) => "Invalid SDMX time period: "@ + s@ + ". Must match StandardTimePeriodType."@,
        Error::InvalidTimeRange(s) => "Invalid SDMX time range: "@ + s@ + ". Must match TimeRangeType (start/duration)."@,
        Error::InvalidObservationalTimePeriod(s) => "Invalid SDMX observational time period: "@ + s@ + ". Must match ObservationalTimePeriodType (a standard time period or a time range)."@,
        Error::InvalidDateTime(s) => "Invalid xs:dateTime value: "@ + s@ + "."@,
        Error::InvalidDuration(s) => "Invalid xs:duration value: "@ + s@ + "."@,
        Error::InvalidReferenceUrn { urn, class } => "Invalid SDMX reference URN for "@ + class@ + ": "@ + urn@,
        Error::EmptyLocalisation => "Empty localised string. Artefact name or description must contain at least one language variant."@,
        Error::EmptyMemberValues => "Invalid codelist extension: a code selection must contain at least one member value."@,
        Error::EmptyCubeKeyValues => "Invalid cube region: a dimension value selection must contain at least one value."@,
        Error::EmptySimpleComponentValues => "Invalid cube region: a component value selection must contain at least one value."@,
        Error::TooManyCubeRegions => "Invalid data constraint: a cube-region list may contain at most two regions."@,
        Error::EmptyDataComponentValues => "Invalid data key set: a component value selection must contain at least one value."@,
        Error::EmptySimpleKeyValues => "Invalid data key: a dimension value selection must contain at least one value."@,
        Error::EmptyDataKeys => "Invalid data key set: a DataKeySet must contain at least one key."@,
        Error::EmptyDataStructureRefs => "Invalid constraint attachment: a data structure attachment must reference at least one DSD."@,
        Error::EmptyDataflowRefs => "Invalid constraint attachment: a dataflow attachment must reference at least one dataflow."@,
        Error::EmptyProvisionAgreementRefs => "Invalid constraint attachment: a provision agreement attachment must reference at least one provision agreement."@,
        Error::EmptySimpleDataSources => "Invalid constraint attachment: a simple data source attachment must contain at least one URL."@,
        Error::EmptyAttributeDimensions => "Invalid attribute relationship: an AttributeRelationship::Dimensions must reference at least one dimension id."@,
        Error::EmptyMeasureRelationship => "Invalid measure relationship: a MeasureRelationship must reference at least one measure."@,
        Error::EmptyDimensionList => "Invalid dimension list: a DimensionList must contain at least one dimension."@,
        Error::EmptyGroupDimensions => "Invalid group: a Group must reference at least one dimension."@,
        Error::EmptyAttributeList => "Invalid attribute list: a present AttributeList must contain at least one attribute or metadata attribute usage."@,
        Error::EmptyMeasureList => "Invalid measure list: a present MeasureList must contain at least one measure."@,
        Error::EmptyDimensionConstraint => "Invalid dimension constraint: a DimensionConstraint must reference at least one dimension id."@,
        Error::InvalidTextTypeForComponent { component, text_type } => "Invalid representation for "@ + component@ + ": textType '"@ + text_type@ + "' is outside this position's allowed subset."@,
        Error::ValueListEnumerationNotAllowed(s) => "Invalid representation for "@ + s@ + ": a ValueList enumeration is not allowed at this position (codelist-only)."@,
        Error::EnumerationNotAllowed(s) => "Invalid representation for "@ + s@ + ": an Enumeration is not allowed (TextFormat-only position)."@,
        Error::ProhibitedRepresentationFacet { component, facet } => "Invalid representation for "@ + component@ + ": facet '"@ + facet@ + "' is prohibited at this position."@,
        Error::FixedAttributeMismatch { attribute, value } => "Invalid fixed attribute "@ + attribute@ + ": stated value '"@ + value@ + "' differs from the schema-fixed value."@,
    }
}

impl Error {
    /// The diagnostic text of this error, naming the rejected lexeme or site.
    pub fn message(&self) -> (r: String)
        ensures
            r@ == error_message(*self),
    {
        match self {
            Error::InvalidIdentifier(s) => {
                let mut out = owned("Invalid artefact identifier: `");
                append_str(&mut out, s.as_str());
                append_str(&mut out, "`. Must match SDMX IDType format.");
                out
            },
            Error::InvalidAgencyIdentifier(s) => {
                let mut out = owned("Invalid agency identifier: `");
                append_str(&mut out, s.as_str());
                append_str(&mut out, "`. Must match SDMX NestedNCNameIDType format.");
                out
            },
            Error::InvalidNestedNcNameIdentifier(s) => {
                let mut out = owned("Invalid nested NCName identifier: `");
                append_str(&mut out, s.as_str());
                append_str(&mut out, "`. Must match SDMX NestedNCNameIDType format.");
                out
            },
            Error::InvalidNcNameIdentifier(s) => {
                let mut out = owned("Invalid NCName identifier: `");
                append_str(&mut out, s.as_str());
                append_str(&mut out, "`. Must match SDMX NCNameIDType format.");
                out
            },
            Error::InvalidDecimal(s) => {
                let mut out = owned("Invalid xs:decimal value: ");
                append_str(&mut out, s.as_str());
                append_str(&mut out, ".");
                out
            },
            Error::InvalidInteger(s) => {
                let mut out = owned("Invalid xs:integer value: ");
                append_str(&mut out, s.as_str());
                append_str(&mut out, ".");
                out
            },
            Error::InvalidVersion(s) => {
                let mut out = owned("Invalid SDMX version: ");
                append_str(&mut out, s.as_str());
                append_str(&mut out, ". Must match VersionType (semantic major.minor.patch[-ext] or legacy major[.minor]).");
                out
            },
            Error::InvalidVersionReference(s) => {
                let mut out = owned("Invalid SDMX version reference: ");
                append_str(&mut out, s.as_str());
                append_str(&mut out, ". Must match WildcardVersionType (an exact version, a triple with one + wildcard, or *).");
                out
            },
            Error::InvalidTimePeriod(s) => {
                let mut out = owned("Invalid SDMX time period: ");
                append_str(&mut out, s.as_str());
                append_str(&mut out, ". Must match StandardTimePeriodType.");
                out
            },
            Error::InvalidTimeRange(s) => {
                let mut out = owned("Invalid SDMX time range: ");
                append_str(&mut out, s.as_str());
                append_str(&mut out, ". Must match TimeRangeType (start/duration).");
                out
            },
            Error::InvalidObservationalTimePeriod(s) => {
                let mut out = owned("Invalid SDMX observational time period: ");
                append_str(&mut out, s.as_str());
                append_str(&mut out, ". Must match ObservationalTimePeriodType (a standard time period or a time range).");
                out
            },
            Error::InvalidDateTime(s) => {
                let mut out = owned("Invalid xs:dateTime value: ");
                append_str(&mut out, s.as_str());
                append_str(&mut out, ".");
                out
            },
            Error::InvalidDuration(s) => {
                let mut out = owned("Invalid xs:duration value: ");
                append_str(&mut out, s.as_str());
                append_str(&mut out, ".");
                out
            },
            Error::InvalidReferenceUrn { urn, class } => {
                let mut out = owned("Invalid SDMX reference URN for ");
                append_str(&mut out, class);
                append_str(&mut out, ": ");
                append_str(&mut out, urn.as_str());
                out
            },
            Error::EmptyLocalisation => owned("Empty localised string. Artefact name or description must contain at least one language variant."),
            Error::EmptyMemberValues => owned("Invalid codelist extension: a code selection must contain at least one member value."),
            Error::EmptyCubeKeyValues => owned("Invalid cube region: a dimension value selection must contain at least one value."),
            Error::EmptySimpleComponentValues => owned("Invalid cube region: a component value selection must contain at least one value."),
            Error::TooManyCubeRegions => owned("Invalid data constraint: a cube-region list may contain at most two regions."),
            Error::EmptyDataComponentValues => owned("Invalid data key set: a component value selection must contain at least one value."),
            Error::EmptySimpleKeyValues => owned("Invalid data key: a dimension value selection must contain at least one value."),
            Error::EmptyDataKeys => owned("Invalid data key set: a DataKeySet must contain at least one key."),
            Error::EmptyDataStructureRefs => owned("Invalid constraint attachment: a data structure attachment must reference at least one DSD."),
            Error::EmptyDataflowRefs => owned("Invalid constraint attachment: a dataflow attachment must reference at least one dataflow."),
            Error::EmptyProvisionAgreementRefs => owned("Invalid constraint attachment: a provision agreement attachment must reference at least one provision agreement."),
            Error::EmptySimpleDataSources => owned("Invalid constraint attachment: a simple data source attachment must contain at least one URL."),
            Error::EmptyAttributeDimensions => owned("Invalid attribute relationship: an AttributeRelationship::Dimensions must reference at least one dimension id."),
            Error::EmptyMeasureRelationship => owned("Invalid measure relationship: a MeasureRelationship must reference at least one measure."),
            Error::EmptyDimensionList => owned("Invalid dimension list: a DimensionList must contain at least one dimension."),
            Error::EmptyGroupDimensions => owned("Invalid group: a Group must reference at least one dimension."),
            Error::EmptyAttributeList => owned("Invalid attribute list: a present AttributeList must contain at least one attribute or metadata attribute usage."),
            Error::EmptyMeasureList => owned("Invalid measure list: a present MeasureList must contain at least one measure."),
            Error::EmptyDimensionConstraint => owned("Invalid dimension constraint: a DimensionConstraint must reference at least one dimension id."),
            Error::InvalidTextTypeForComponent { component, text_type } => {
                let mut out = owned("Invalid representation for ");
                append_str(&mut out, component.as_str());
                append_str(&mut out, ": textType '");
                append_str(&mut out, text_type.as_str());
                append_str(&mut out, "' is outside this position's allowed subset.");
                out
            },
            Error::ValueListEnumerationNotAllowed(s) => {
                let mut out = owned("Invalid representation for ");
                append_str(&mut out, s.as_str());
                append_str(&mut out, ": a ValueList enumeration is not allowed at this position (codelist-only).");
                out
            },
            Error::EnumerationNotAllowed(s) => {
                let mut out = owned("Invalid representation for ");
                append_str(&mut out, s.as_str());
                append_str(&mut out, ": an Enumeration is not allowed (TextFormat-only position).");
                out
            },
            Error::ProhibitedRepresentationFacet { component, facet } => {
                let mut out = owned("Invalid representation for ");
                append_str(&mut out, component.as_str());
                append_str(&mut out, ": facet '");
                append_str(&mut out, facet.as_str());
                append_str(&mut out, "' is prohibited at this position.");
                out
            },
            Error::FixedAttributeMismatch { attribute, value } => {
                let mut out = owned("Invalid fixed attribute ");
                append_str(&mut out, attribute.as_str());
                append_str(&mut out, ": stated value '");
                append_str(&mut out, value.as_str());
                append_str(&mut out, "' differs from the schema-fixed value.");
                out
            },
        }
    }
}

} // verus!

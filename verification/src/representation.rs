//! Component representations: a text format or an enumeration (codelist or value list), with
//! occurrence bounds, and the position rules that restrict them by where the component
//! stands (concept, attribute or measure; dimension; time dimension).
use crate::chars::owned;
use crate::error::Error;
use crate::lexical::{SdmxDecimal, SdmxDuration};
use crate::reference::{CodelistReference, ValueListReference};
use crate::time_period::ObservationalTimePeriod;
use vstd::prelude::*;

verus! {

/// The SDMX `DataType` enumeration: the value types a text format's `textType` can name.
#[derive(Clone, Copy, Debug, PartialEq, Eq, Structural, Hash)]
pub enum DataType {
    /// `String`.
    String,
    /// `Alpha`.
    Alpha,
    /// `AlphaNumeric`.
    AlphaNumeric,
    /// `Numeric`.
    Numeric,
    /// `BigInteger`.
    BigInteger,
    /// `Integer`.
    Integer,
    /// `Long`.
    Long,
    /// `Short`.
    Short,
    /// `Decimal`.
    Decimal,
    /// `Float`.
    Float,
    /// `Double`.
    Double,
    /// `Boolean`.
    Boolean,
    /// `URI`.
    URI,
    /// `Count`.
    Count,
    /// `InclusiveValueRange`.
    InclusiveValueRange,
    /// `ExclusiveValueRange`.
    ExclusiveValueRange,
    /// `Incremental`.
    Incremental,
    /// `ObservationalTimePeriod`.
    ObservationalTimePeriod,
    /// `StandardTimePeriod`.
    StandardTimePeriod,
    /// `BasicTimePeriod`.
    BasicTimePeriod,
    /// `GregorianTimePeriod`.
    GregorianTimePeriod,
    /// `GregorianYear`.
    GregorianYear,
    /// `GregorianYearMonth`.
    GregorianYearMonth,
    /// `GregorianDay`.
    GregorianDay,
    /// `ReportingTimePeriod`.
    ReportingTimePeriod,
    /// `ReportingYear`.
    ReportingYear,
    /// `ReportingSemester`.
    ReportingSemester,
    /// `ReportingTrimester`.
    ReportingTrimester,
    /// `ReportingQuarter`.
    ReportingQuarter,
    /// `ReportingMonth`.
    ReportingMonth,
    /// `ReportingWeek`.
    ReportingWeek,
    /// `ReportingDay`.
    ReportingDay,
    /// `DateTime`.
    DateTime,
    /// `TimeRange`.
    TimeRange,
    /// `Month`.
    Month,
    /// `MonthDay`.
    MonthDay,
    /// `Day`.
    Day,
    /// `Time`.
    Time,
    /// `Duration`.
    Duration,
    /// `GeospatialInformation`.
    GeospatialInformation,
    /// `XHTML`.
    XHTML,
    /// `KeyValues`.
    KeyValues,
    /// `IdentifiableReference`.
    IdentifiableReference,
    /// `DataSetReference`.
    DataSetReference,
    /// `AttachmentConstraintReference`.
    AttachmentConstraintReference,
}

/// The schema name of a data type, as written in `textType`.
pub open spec fn data_type_name(d: DataType) -> Seq<char> {
    match d {
        DataType::String => "String"@,
        DataType::Alpha => "Alpha"@,
        DataType::AlphaNumeric => "AlphaNumeric"@,
        DataType::Numeric => "Numeric"@,
        DataType::BigInteger => "BigInteger"@,
        DataType::Integer => "Integer"@,
        DataType::Long => "Long"@,
        DataType::Short => "Short"@,
        DataType::Decimal => "Decimal"@,
        DataType::Float => "Float"@,
        DataType::Double => "Double"@,
        DataType::Boolean => "Boolean"@,
        DataType::URI => "URI"@,
        DataType::Count => "Count"@,
        DataType::InclusiveValueRange => "InclusiveValueRange"@,
        DataType::ExclusiveValueRange => "ExclusiveValueRange"@,
        DataType::Incremental => "Incremental"@,
        DataType::ObservationalTimePeriod => "ObservationalTimePeriod"@,
        DataType::StandardTimePeriod => "StandardTimePeriod"@,
        DataType::BasicTimePeriod => "BasicTimePeriod"@,
        DataType::GregorianTimePeriod => "GregorianTimePeriod"@,
        DataType::GregorianYear => "GregorianYear"@,
        DataType::GregorianYearMonth => "GregorianYearMonth"@,
        DataType::GregorianDay => "GregorianDay"@,
        DataType::ReportingTimePeriod => "ReportingTimePeriod"@,
        DataType::ReportingYear => "ReportingYear"@,
        DataType::ReportingSemester => "ReportingSemester"@,
        DataType::ReportingTrimester => "ReportingTrimester"@,
        DataType::ReportingQuarter => "ReportingQuarter"@,
        DataType::ReportingMonth => "ReportingMonth"@,
        DataType::ReportingWeek => "ReportingWeek"@,
        DataType::ReportingDay => "ReportingDay"@,
        DataType::DateTime => "DateTime"@,
        DataType::TimeRange => "TimeRange"@,
        DataType::Month => "Month"@,
        DataType::MonthDay => "MonthDay"@,
        DataType::Day => "Day"@,
        DataType::Time => "Time"@,
        DataType::Duration => "Duration"@,
        DataType::GeospatialInformation => "GeospatialInformation"@,
        DataType::XHTML => "XHTML"@,
        DataType::KeyValues => "KeyValues"@,
        DataType::IdentifiableReference => "IdentifiableReference"@,
        DataType::DataSetReference => "DataSetReference"@,
        DataType::AttachmentConstraintReference => "AttachmentConstraintReference"@,
    }
}

/// Whether `d` belongs to the time subset (`TimeDataType`).
pub open spec fn is_time_data_type(d: DataType) -> bool {
    ||| d == DataType::ObservationalTimePeriod
    ||| d == DataType::StandardTimePeriod
    ||| d == DataType::BasicTimePeriod
    ||| d == DataType::GregorianTimePeriod
    ||| d == DataType::GregorianYear
    ||| d == DataType::GregorianYearMonth
    ||| d == DataType::GregorianDay
    ||| d == DataType::ReportingTimePeriod
    ||| d == DataType::ReportingYear
    ||| d == DataType::ReportingSemester
    ||| d == DataType::ReportingTrimester
    ||| d == DataType::ReportingQuarter
    ||| d == DataType::ReportingMonth
    ||| d == DataType::ReportingWeek
    ||| d == DataType::ReportingDay
    ||| d == DataType::DateTime
    ||| d == DataType::TimeRange
}

impl DataType {
    /// The schema name of this data type, as written in `textType`.
    pub fn name(&self) -> (r: String)
        ensures
            r@ == data_type_name(*self),
    {
        match self {
            DataType::String => owned("String"),
            DataType::Alpha => owned("Alpha"),
            DataType::AlphaNumeric => owned("AlphaNumeric"),
            DataType::Numeric => owned("Numeric"),
            DataType::BigInteger => owned("BigInteger"),
            DataType::Integer => owned("Integer"),
            DataType::Long => owned("Long"),
            DataType::Short => owned("Short"),
            DataType::Decimal => owned("Decimal"),
            DataType::Float => owned("Float"),
            DataType::Double => owned("Double"),
            DataType::Boolean => owned("Boolean"),
            DataType::URI => owned("URI"),
            DataType::Count => owned("Count"),
            DataType::InclusiveValueRange => owned("InclusiveValueRange"),
            DataType::ExclusiveValueRange => owned("ExclusiveValueRange"),
            DataType::Incremental => owned("Incremental"),
            DataType::ObservationalTimePeriod => owned("ObservationalTimePeriod"),
            DataType::StandardTimePeriod => owned("StandardTimePeriod"),
            DataType::BasicTimePeriod => owned("BasicTimePeriod"),
            DataType::GregorianTimePeriod => owned("GregorianTimePeriod"),
            DataType::GregorianYear => owned("GregorianYear"),
            DataType::GregorianYearMonth => owned("GregorianYearMonth"),
            DataType::GregorianDay => owned("GregorianDay"),
            DataType::ReportingTimePeriod => owned("ReportingTimePeriod"),
            DataType::ReportingYear => owned("ReportingYear"),
            DataType::ReportingSemester => owned("ReportingSemester"),
            DataType::ReportingTrimester => owned("ReportingTrimester"),
            DataType::ReportingQuarter => owned("ReportingQuarter"),
            DataType::ReportingMonth => owned("ReportingMonth"),
            DataType::ReportingWeek => owned("ReportingWeek"),
            DataType::ReportingDay => owned("ReportingDay"),
            DataType::DateTime => owned("DateTime"),
            DataType::TimeRange => owned("TimeRange"),
            DataType::Month => owned("Month"),
            DataType::MonthDay => owned("MonthDay"),
            DataType::Day => owned("Day"),
            DataType::Time => owned("Time"),
            DataType::Duration => owned("Duration"),
            DataType::GeospatialInformation => owned("GeospatialInformation"),
            DataType::XHTML => owned("XHTML"),
            DataType::KeyValues => owned("KeyValues"),
            DataType::IdentifiableReference => owned("IdentifiableReference"),
            DataType::DataSetReference => owned("DataSetReference"),
            DataType::AttachmentConstraintReference => owned("AttachmentConstraintReference"),
        }
    }

    /// Whether this data type belongs to the time subset (`TimeDataType`).
    pub fn is_time(&self) -> (r: bool)
        ensures
            r == is_time_data_type(*self),
    {
        match self {
            DataType::ObservationalTimePeriod
            | DataType::StandardTimePeriod
            | DataType::BasicTimePeriod
            | DataType::GregorianTimePeriod
            | DataType::GregorianYear
            | DataType::GregorianYearMonth
            | DataType::GregorianDay
            | DataType::ReportingTimePeriod
            | DataType::ReportingYear
            | DataType::ReportingSemester
            | DataType::ReportingTrimester
            | DataType::ReportingQuarter
            | DataType::ReportingMonth
            | DataType::ReportingWeek
            | DataType::ReportingDay
            | DataType::DateTime
            | DataType::TimeRange => true,
            _ => false,
        }
    }
}

/// Whether `d` belongs to the Basic subset (`BasicComponentDataType`): every data type but the
/// key, reference and attachment types.
pub open spec fn is_basic_data_type(d: DataType) -> bool {
    &&& d != DataType::KeyValues
    &&& d != DataType::IdentifiableReference
    &&& d != DataType::DataSetReference
    &&& d != DataType::AttachmentConstraintReference
}

/// Whether `d` belongs to the Simple subset a dimension may use (`SimpleDataType`): the Basic
/// subset without `XHTML`.
pub open spec fn is_simple_data_type(d: DataType) -> bool {
    is_basic_data_type(d) && d != DataType::XHTML
}

impl DataType {
    /// Whether this data type belongs to the Basic subset.
    pub fn is_basic(&self) -> (r: bool)
        ensures
            r == is_basic_data_type(*self),
    {
        match self {
            DataType::KeyValues
            | DataType::IdentifiableReference
            | DataType::DataSetReference
            | DataType::AttachmentConstraintReference => false,
            _ => true,
        }
    }

    /// Whether this data type belongs to the Simple subset.
    pub fn is_simple(&self) -> (r: bool)
        ensures
            r == is_simple_data_type(*self),
    {
        match self {
            DataType::XHTML => false,
            _ => self.is_basic(),
        }
    }
}

/// A text format: the optional `textType` and facets of a non-enumerated representation.
#[derive(Clone, Debug, PartialEq, Eq, Hash)]
pub struct TextFormat {
    /// `textType`.
    pub text_type: Option<DataType>,
    /// `isSequence`.
    pub is_sequence: Option<bool>,
    /// `interval`.
    pub interval: Option<SdmxDecimal>,
    /// `startValue`.
    pub start_value: Option<SdmxDecimal>,
    /// `endValue`.
    pub end_value: Option<SdmxDecimal>,
    /// `timeInterval`.
    pub time_interval: Option<SdmxDuration>,
    /// `startTime`.
    pub start_time: Option<ObservationalTimePeriod>,
    /// `endTime`.
    pub end_time: Option<ObservationalTimePeriod>,
    /// `minLength`.
    pub min_length: Option<u64>,
    /// `maxLength`.
    pub max_length: Option<u64>,
    /// `minValue`.
    pub min_value: Option<SdmxDecimal>,
    /// `maxValue`.
    pub max_value: Option<SdmxDecimal>,
    /// `decimals`.
    pub decimals: Option<u64>,
    /// `pattern`.
    pub pattern: Option<String>,
    /// `isMultiLingual`.
    pub is_multi_lingual: Option<bool>,
}

impl Default for TextFormat {
    /// The text format with no facet stated.
    fn default() -> (r: Self)
        ensures
            r.text_type is None,
            r.is_sequence is None,
            r.interval is None,
            r.start_value is None,
            r.end_value is None,
            r.time_interval is None,
            r.start_time is None,
            r.end_time is None,
            r.min_length is None,
            r.max_length is None,
            r.min_value is None,
            r.max_value is None,
            r.decimals is None,
            r.pattern is None,
            r.is_multi_lingual is None,
    {
        TextFormat {
            text_type: None,
            is_sequence: None,
            interval: None,
            start_value: None,
            end_value: None,
            time_interval: None,
            start_time: None,
            end_time: None,
            min_length: None,
            max_length: None,
            min_value: None,
            max_value: None,
            decimals: None,
            pattern: None,
            is_multi_lingual: None,
        }
    }
}

/// The format facets of an enumerated representation.
#[derive(Clone, Debug, PartialEq, Eq, Hash)]
pub struct EnumerationFormat {
    /// `textType`.
    pub text_type: Option<DataType>,
    /// `isSequence`.
    pub is_sequence: Option<bool>,
    /// `interval`.
    pub interval: Option<SdmxDecimal>,
    /// `startValue`.
    pub start_value: Option<SdmxDecimal>,
    /// `endValue`.
    pub end_value: Option<SdmxDecimal>,
    /// `timeInterval`.
    pub time_interval: Option<SdmxDuration>,
    /// `startTime`.
    pub start_time: Option<ObservationalTimePeriod>,
    /// `endTime`.
    pub end_time: Option<ObservationalTimePeriod>,
    /// `minLength`.
    pub min_length: Option<u64>,
    /// `maxLength`.
    pub max_length: Option<u64>,
    /// `minValue`.
    pub min_value: Option<SdmxDecimal>,
    /// `maxValue`.
    pub max_value: Option<SdmxDecimal>,
    /// `decimals`.
    pub decimals: Option<u64>,
    /// `pattern`.
    pub pattern: Option<String>,
}

/// What an enumerated representation draws its values from.
#[derive(Clone, Debug, PartialEq, Eq, Hash)]
pub enum EnumerationReference {
    /// A codelist.
    Codelist(CodelistReference),
    /// A value list.
    ValueList(ValueListReference),
}

/// The upper occurrence bound of a representation.
#[derive(Clone, Copy, Debug, PartialEq, Eq, Structural, Hash)]
pub enum MaxOccurs {
    /// At most this many values.
    Bounded(u64),
    /// No upper bound.
    Unbounded,
}

/// A representation is either a text format or an enumeration with optional format facets.
#[derive(Clone, Debug, PartialEq, Eq, Hash)]
pub enum RepresentationChoice {
    /// A non-enumerated text format.
    TextFormat(TextFormat),
    /// An enumeration, with its optional format facets.
    Enumeration {
        /// The codelist or value list the values come from.
        enumeration: EnumerationReference,
        /// The optional format facets.
        format: Option<EnumerationFormat>,
    },
}

/// A component representation: the format choice and the occurrence bounds.
#[derive(Clone, Debug, PartialEq, Eq, Hash)]
pub struct Representation {
    /// The text format or enumeration.
    pub choice: RepresentationChoice,
    /// `minOccurs`, if stated.
    pub min_occurs: Option<u64>,
    /// `maxOccurs`, if stated.
    pub max_occurs: Option<MaxOccurs>,
}

/// The value behind an optional reference.
pub open spec fn opt_deref<T>(o: Option<&T>) -> Option<T> {
    match o {
        Some(x) => Some(*x),
        None => None,
    }
}

/// Whether a representation passes the dimension position rule.
pub open spec fn dimension_representation_ok(rep: Option<Representation>) -> bool {
    match rep {
        Some(x) => !is_value_list_enumeration(x) && !sets_multi_lingual(x) && simple_text_type_ok(
            x,
        ),
        None => true,
    }
}

/// Whether a representation passes the time-dimension position rule.
pub open spec fn time_representation_ok(rep: Representation) -> bool {
    rep.choice matches RepresentationChoice::TextFormat(tf) && time_text_type_ok(rep)
        && first_prohibited_time_facet(tf) is None
}

/// The `textType` a representation states in its text format, if any.
pub open spec fn stated_text_type(rep: Representation) -> Option<DataType> {
    match rep.choice {
        RepresentationChoice::TextFormat(tf) => tf.text_type,
        RepresentationChoice::Enumeration { .. } => None,
    }
}

/// Whether a representation's stated `textType`, if any, lies in the Basic subset.
pub open spec fn basic_representation_ok(rep: Option<Representation>) -> bool {
    match rep {
        Some(r) => match stated_text_type(r) {
            Some(t) => is_basic_data_type(t),
            None => true,
        },
        None => true,
    }
}

/// Whether a representation draws on a value list.
pub open spec fn is_value_list_enumeration(rep: Representation) -> bool {
    rep.choice matches RepresentationChoice::Enumeration {
        enumeration: EnumerationReference::ValueList(_),
        ..
    }
}

/// Whether a representation's text format sets `isMultiLingual`.
pub open spec fn sets_multi_lingual(rep: Representation) -> bool {
    match rep.choice {
        RepresentationChoice::TextFormat(tf) => tf.is_multi_lingual is Some,
        RepresentationChoice::Enumeration { .. } => false,
    }
}

/// Whether a representation's stated `textType`, if any, lies in the Simple subset.
pub open spec fn simple_text_type_ok(rep: Representation) -> bool {
    match stated_text_type(rep) {
        Some(t) => is_simple_data_type(t),
        None => true,
    }
}

/// Whether a representation's stated `textType`, if any, lies in the time subset.
pub open spec fn time_text_type_ok(rep: Representation) -> bool {
    match stated_text_type(rep) {
        Some(t) => is_time_data_type(t),
        None => true,
    }
}

/// The first facet a time text format may not set, by its schema name, in field order; `None`
/// when it sets only `textType`, `startTime` and `endTime`.
pub open spec fn first_prohibited_time_facet(tf: TextFormat) -> Option<Seq<char>> {
    if tf.is_sequence is Some {
        Some("isSequence"@)
    } else if tf.interval is Some {
        Some("interval"@)
    } else if tf.start_value is Some {
        Some("startValue"@)
    } else if tf.end_value is Some {
        Some("endValue"@)
    } else if tf.time_interval is Some {
        Some("timeInterval"@)
    } else if tf.min_length is Some {
        Some("minLength"@)
    } else if tf.max_length is Some {
        Some("maxLength"@)
    } else if tf.min_value is Some {
        Some("minValue"@)
    } else if tf.max_value is Some {
        Some("maxValue"@)
    } else if tf.decimals is Some {
        Some("decimals"@)
    } else if tf.pattern is Some {
        Some("pattern"@)
    } else if tf.is_multi_lingual is Some {
        Some("isMultiLingual"@)
    } else {
        None
    }
}

/// Whether `e` is `InvalidTextTypeForComponent` for `component` and data type `t`.
pub open spec fn is_text_type_error(e: Error, component: Seq<char>, t: DataType) -> bool {
    e matches Error::InvalidTextTypeForComponent { component: c, text_type: n } && c@ == component
        && n@ == data_type_name(t)
}

/// Whether `e` is `ProhibitedRepresentationFacet` for `component` and facet `facet`.
pub open spec fn is_facet_error(e: Error, component: Seq<char>, facet: Seq<char>) -> bool {
    e matches Error::ProhibitedRepresentationFacet { component: c, facet: f } && c@ == component
        && f@ == facet
}

/// The Basic-tier position rule shared by concepts, attributes and measures: a stated
/// `textType` must lie in the Basic subset. Fails with `InvalidTextTypeForComponent` naming
/// `component` and the offending type.
pub fn validate_basic_representation(component: &str, rep: Option<&Representation>) -> (r: Result<
    (),
    Error,
>)
    ensures
        r is Ok <==> basic_representation_ok(opt_deref(rep)),
        r matches Err(e) ==> (rep matches Some(x) && stated_text_type(*x) matches Some(t)
            && is_text_type_error(e, component@, t)),
{
    if let Some(x) = rep {
        if let RepresentationChoice::TextFormat(tf) = &x.choice {
            if let Some(t) = &tf.text_type {
                if !t.is_basic() {
                    return Err(
                        Error::InvalidTextTypeForComponent {
                            component: owned(component),
                            text_type: t.name(),
                        },
                    );
                }
            }
        }
    }
    Ok(())
}

/// The dimension position rule: no value-list enumeration (a dimension is codelist-only), no
/// `isMultiLingual` facet, and a stated `textType` in the Simple subset, checked in that order.
pub fn validate_dimension_representation(rep: Option<&Representation>) -> (r: Result<(), Error>)
    ensures
        r is Ok <==> dimension_representation_ok(opt_deref(rep)),
        r matches Err(e) ==> (rep matches Some(x) && if is_value_list_enumeration(*x) {
            e matches Error::ValueListEnumerationNotAllowed(c) && c@ == "Dimension"@
        } else if sets_multi_lingual(*x) {
            is_facet_error(e, "Dimension"@, "isMultiLingual"@)
        } else {
            stated_text_type(*x) matches Some(t) && is_text_type_error(e, "Dimension"@, t)
        }),
{
    if let Some(x) = rep {
        match &x.choice {
            RepresentationChoice::Enumeration { enumeration, .. } => {
                if let EnumerationReference::ValueList(_) = enumeration {
                    return Err(Error::ValueListEnumerationNotAllowed(owned("Dimension")));
                }
            },
            RepresentationChoice::TextFormat(tf) => {
                if tf.is_multi_lingual.is_some() {
                    return Err(
                        Error::ProhibitedRepresentationFacet {
                            component: owned("Dimension"),
                            facet: owned("isMultiLingual"),
                        },
                    );
                }
                if let Some(t) = &tf.text_type {
                    if !t.is_simple() {
                        return Err(
                            Error::InvalidTextTypeForComponent {
                                component: owned("Dimension"),
                                text_type: t.name(),
                            },
                        );
                    }
                }
            },
        }
    }
    Ok(())
}

/// The name of the first prohibited time facet `tf` sets, if any.
fn prohibited_time_facet(tf: &TextFormat) -> (r: Option<String>)
    ensures
        match r {
            Some(s) => first_prohibited_time_facet(*tf) == Some(s@),
            None => first_prohibited_time_facet(*tf) is None,
        },
{
    if tf.is_sequence.is_some() {
        Some(owned("isSequence"))
    } else if tf.interval.is_some() {
        Some(owned("interval"))
    } else if tf.start_value.is_some() {
        Some(owned("startValue"))
    } else if tf.end_value.is_some() {
        Some(owned("endValue"))
    } else if tf.time_interval.is_some() {
        Some(owned("timeInterval"))
    } else if tf.min_length.is_some() {
        Some(owned("minLength"))
    } else if tf.max_length.is_some() {
        Some(owned("maxLength"))
    } else if tf.min_value.is_some() {
        Some(owned("minValue"))
    } else if tf.max_value.is_some() {
        Some(owned("maxValue"))
    } else if tf.decimals.is_some() {
        Some(owned("decimals"))
    } else if tf.pattern.is_some() {
        Some(owned("pattern"))
    } else if tf.is_multi_lingual.is_some() {
        Some(owned("isMultiLingual"))
    } else {
        None
    }
}

/// The time-dimension position rule: a text format only (no enumeration), a stated
/// `textType` in the time subset, and no facet but `textType`, `startTime` and `endTime`,
/// checked in that order.
pub fn validate_time_representation(rep: &Representation) -> (r: Result<(), Error>)
    ensures
        r is Ok <==> time_representation_ok(*rep),
        r matches Err(e) ==> match rep.choice {
            RepresentationChoice::Enumeration { .. } => e matches Error::EnumerationNotAllowed(c)
                && c@ == "TimeDimension"@,
            RepresentationChoice::TextFormat(tf) => if !time_text_type_ok(*rep) {
                stated_text_type(*rep) matches Some(t) && is_text_type_error(e, "TimeDimension"@, t)
            } else {
                first_prohibited_time_facet(tf) matches Some(f) && is_facet_error(
                    e,
                    "TimeDimension"@,
                    f,
                )
            },
        },
{
    match &rep.choice {
        RepresentationChoice::Enumeration { .. } => {
            Err(Error::EnumerationNotAllowed(owned("TimeDimension")))
        },
        RepresentationChoice::TextFormat(tf) => {
            if let Some(t) = &tf.text_type {
                if !t.is_time() {
                    return Err(
                        Error::InvalidTextTypeForComponent {
                            component: owned("TimeDimension"),
                            text_type: t.name(),
                        },
                    );
                }
            }
            match prohibited_time_facet(tf) {
                Some(f) => Err(
                    Error::ProhibitedRepresentationFacet {
                        component: owned("TimeDimension"),
                        facet: f,
                    },
                ),
                None => Ok(()),
            }
        },
    }
}

/// The time position accepts a text format that sets no facet but `textType`, `startTime`
/// and `endTime` exactly when its `textType`, if stated, is one of the seventeen time data
/// types: the observational, standard, basic, Gregorian (period, year, year-month, day) and
/// reporting (period, year, semester, trimester, quarter, month, week, day) periods, the
/// date-time and the time range.
pub proof fn lemma_time_position_accepts(tf: TextFormat, min_occurs: Option<u64>, max_occurs: Option<MaxOccurs>)
    requires
        tf.is_sequence is None,
        tf.interval is None,
        tf.start_value is None,
        tf.end_value is None,
        tf.time_interval is None,
        tf.min_length is None,
        tf.max_length is None,
        tf.min_value is None,
        tf.max_value is None,
        tf.decimals is None,
        tf.pattern is None,
        tf.is_multi_lingual is None,
    ensures
        time_representation_ok(
            Representation { choice: RepresentationChoice::TextFormat(tf), min_occurs, max_occurs },
        ) <==> match tf.text_type {
            Some(d) => match d {
                DataType::ObservationalTimePeriod
                | DataType::StandardTimePeriod
                | DataType::BasicTimePeriod
                | DataType::GregorianTimePeriod
                | DataType::GregorianYear
                | DataType::GregorianYearMonth
                | DataType::GregorianDay
                | DataType::ReportingTimePeriod
                | DataType::ReportingYear
                | DataType::ReportingSemester
                | DataType::ReportingTrimester
                | DataType::ReportingQuarter
                | DataType::ReportingMonth
                | DataType::ReportingWeek
                | DataType::ReportingDay
                | DataType::DateTime
                | DataType::TimeRange => true,
                _ => false,
            },
            None => true,
        },
{
}

/// A concept, attribute or measure position accepts a representation exactly when its stated
/// `textType`, if any, is none of the four key, reference and attachment types
/// (`KeyValues`, `IdentifiableReference`, `DataSetReference`, `AttachmentConstraintReference`):
/// every other data type, `Integer` among them, is allowed.
pub proof fn lemma_basic_position_accepts(rep: Representation)
    ensures
        basic_representation_ok(Some(rep)) <==> match stated_text_type(rep) {
            Some(d) => match d {
                DataType::KeyValues
                | DataType::IdentifiableReference
                | DataType::DataSetReference
                | DataType::AttachmentConstraintReference => false,
                _ => true,
            },
            None => true,
        },
{
}

} // verus!

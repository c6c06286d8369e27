//! The constraint model: cube regions (dimension and component value selections, time
//! ranges), data key sets, what a constraint attaches to, and the data and availability
//! constraints. Selection ids are checked at their grammar tier, value lists that the schema
//! requires to be non-empty are non-empty by construction, and the `include` and
//! `isInclusive` defaults (`true`) are effective views over the stated values.
use crate::annotation::{Annotation, Link};
use crate::artefact::{
    IdentifiableArtefact, MaintainableArtefact, NameableArtefact, VersionableArtefact,
};
use crate::codelist::Cascade;
use crate::date_time::SdmxDateTime;
use crate::error::Error;
use crate::fixed::FixedInclude;
use crate::ident::{is_ncname, is_nested_ncname, validate_ncname, validate_nested_ncname};
use crate::localised::LocalisedString;
use crate::metadata::MaintainableMetadata;
use crate::reference::{
    DataProviderReference, DataStructureReference, DataflowReference,
    ProvisionAgreementReference,
};
use crate::representation::opt_deref;
use crate::time_period::{ObservationalTimePeriod, SdmxTimePeriod};
use crate::version::SdmxVersion;
use vstd::prelude::*;

verus! {

/// A stated flag with its schema default `true` applied.
pub open spec fn flag_or_true(f: Option<bool>) -> bool {
    match f {
        Some(b) => b,
        None => true,
    }
}

/// The effective value of a flag whose schema default is `true`.
pub fn effective_flag_or_true(f: Option<bool>) -> (r: bool)
    ensures
        r == flag_or_true(f),
{
    match f {
        Some(b) => b,
        None => true,
    }
}

/// A value of a cube-region dimension selection: the value, its cascade, and its validity
/// window (no language tag at this position).
#[derive(Clone, Debug, PartialEq, Eq, Hash)]
pub struct CubeKeyValue {
    /// The value, kept verbatim.
    pub value: String,
    /// The cascade, if stated.
    pub cascade: Option<Cascade>,
    /// The start of the value's validity, if stated.
    pub valid_from: Option<SdmxTimePeriod>,
    /// The end of the value's validity, if stated.
    pub valid_to: Option<SdmxTimePeriod>,
}

/// A value of a cube-region component selection: the value, its cascade, an optional
/// language tag, and its validity window.
#[derive(Clone, Debug, PartialEq, Eq, Hash)]
pub struct SimpleComponentValue {
    /// The value, kept verbatim.
    pub value: String,
    /// The cascade, if stated.
    pub cascade: Option<Cascade>,
    /// The `xml:lang` tag, if stated.
    pub lang: Option<String>,
    /// The start of the value's validity, if stated.
    pub valid_from: Option<SdmxTimePeriod>,
    /// The end of the value's validity, if stated.
    pub valid_to: Option<SdmxTimePeriod>,
}

/// The values of a cube-region dimension selection: a non-empty list, in wire order.
#[derive(Debug, PartialEq, Eq, Hash)]
pub struct CubeKeyValues(Vec<CubeKeyValue>);

impl View for CubeKeyValues {
    type V = Seq<CubeKeyValue>;

    closed spec fn view(&self) -> Seq<CubeKeyValue> {
        self.0@
    }
}

impl Clone for CubeKeyValues {
    fn clone(&self) -> (r: Self)
        ensures
            r@.len() == self@.len(),
    {
        proof {
            use_type_invariant(self);
        }
        CubeKeyValues(self.0.clone())
    }
}

impl CubeKeyValues {
    #[verifier::type_invariant]
    closed spec fn non_empty(self) -> bool {
        self.0@.len() > 0
    }

    /// Wraps `items`; fails with `EmptyCubeKeyValues` exactly when it is empty.
    pub fn new(items: Vec<CubeKeyValue>) -> (r: Result<Self, Error>)
        ensures
            match r {
                Ok(v) => items@.len() > 0 && v@ == items@,
                Err(e) => items@.len() == 0 && e == Error::EmptyCubeKeyValues,
            },
    {
        if items.len() == 0 {
            return Err(Error::EmptyCubeKeyValues);
        }
        Ok(CubeKeyValues(items))
    }

    /// The items, in wire order (never empty).
    pub fn as_slice(&self) -> (r: &[CubeKeyValue])
        ensures
            r@ == self@,
            r@.len() > 0,
    {
        proof {
            use_type_invariant(self);
        }
        self.0.as_slice()
    }

    /// Consumes the list, returning its items (never empty).
    pub fn into_inner(self) -> (r: Vec<CubeKeyValue>)
        ensures
            r@ == self@,
            r@.len() > 0,
    {
        proof {
            use_type_invariant(&self);
        }
        self.0
    }
}

impl vstd::std_specs::convert::FromSpecImpl<CubeKeyValues> for Vec<CubeKeyValue> {
    open spec fn obeys_from_spec() -> bool {
        true
    }

    closed spec fn from_spec(v: CubeKeyValues) -> Vec<CubeKeyValue> {
        v.0
    }
}

impl From<CubeKeyValues> for Vec<CubeKeyValue> {
    fn from(v: CubeKeyValues) -> (r: Vec<CubeKeyValue>)
        ensures
            r@ == v@,
    {
        v.0
    }
}

impl vstd::std_specs::convert::TryFromSpecImpl<Vec<CubeKeyValue>> for CubeKeyValues {
    open spec fn obeys_try_from_spec() -> bool {
        true
    }

    closed spec fn try_from_spec(items: Vec<CubeKeyValue>) -> Result<Self, Error> {
        if items@.len() == 0 {
            Err(Error::EmptyCubeKeyValues)
        } else {
            Ok(CubeKeyValues(items))
        }
    }
}

impl TryFrom<Vec<CubeKeyValue>> for CubeKeyValues {
    type Error = Error;

    fn try_from(items: Vec<CubeKeyValue>) -> (r: Result<Self, Error>)
        ensures
            match r {
                Ok(v) => items@.len() > 0 && v@ == items@,
                Err(e) => items@.len() == 0 && e == Error::EmptyCubeKeyValues,
            },
    {
        if items.len() == 0 {
            Err(Error::EmptyCubeKeyValues)
        } else {
            Ok(CubeKeyValues(items))
        }
    }
}

/// The values of a cube-region component selection: a non-empty list, in wire order.
#[derive(Debug, PartialEq, Eq, Hash)]
pub struct SimpleComponentValues(Vec<SimpleComponentValue>);

impl View for SimpleComponentValues {
    type V = Seq<SimpleComponentValue>;

    closed spec fn view(&self) -> Seq<SimpleComponentValue> {
        self.0@
    }
}

impl Clone for SimpleComponentValues {
    fn clone(&self) -> (r: Self)
        ensures
            r@.len() == self@.len(),
    {
        proof {
            use_type_invariant(self);
        }
        SimpleComponentValues(self.0.clone())
    }
}

impl SimpleComponentValues {
    #[verifier::type_invariant]
    closed spec fn non_empty(self) -> bool {
        self.0@.len() > 0
    }

    /// Wraps `items`; fails with `EmptySimpleComponentValues` exactly when it is empty.
    pub fn new(items: Vec<SimpleComponentValue>) -> (r: Result<Self, Error>)
        ensures
            match r {
                Ok(v) => items@.len() > 0 && v@ == items@,
                Err(e) => items@.len() == 0 && e == Error::EmptySimpleComponentValues,
            },
    {
        if items.len() == 0 {
            return Err(Error::EmptySimpleComponentValues);
        }
        Ok(SimpleComponentValues(items))
    }

    /// The items, in wire order (never empty).
    pub fn as_slice(&self) -> (r: &[SimpleComponentValue])
        ensures
            r@ == self@,
            r@.len() > 0,
    {
        proof {
            use_type_invariant(self);
        }
        self.0.as_slice()
    }

    /// Consumes the list, returning its items (never empty).
    pub fn into_inner(self) -> (r: Vec<SimpleComponentValue>)
        ensures
            r@ == self@,
            r@.len() > 0,
    {
        proof {
            use_type_invariant(&self);
        }
        self.0
    }
}

impl vstd::std_specs::convert::FromSpecImpl<SimpleComponentValues> for Vec<SimpleComponentValue> {
    open spec fn obeys_from_spec() -> bool {
        true
    }

    closed spec fn from_spec(v: SimpleComponentValues) -> Vec<SimpleComponentValue> {
        v.0
    }
}

impl From<SimpleComponentValues> for Vec<SimpleComponentValue> {
    fn from(v: SimpleComponentValues) -> (r: Vec<SimpleComponentValue>)
        ensures
            r@ == v@,
    {
        v.0
    }
}

impl vstd::std_specs::convert::TryFromSpecImpl<Vec<SimpleComponentValue>> for SimpleComponentValues {
    open spec fn obeys_try_from_spec() -> bool {
        true
    }

    closed spec fn try_from_spec(items: Vec<SimpleComponentValue>) -> Result<Self, Error> {
        if items@.len() == 0 {
            Err(Error::EmptySimpleComponentValues)
        } else {
            Ok(SimpleComponentValues(items))
        }
    }
}

impl TryFrom<Vec<SimpleComponentValue>> for SimpleComponentValues {
    type Error = Error;

    fn try_from(items: Vec<SimpleComponentValue>) -> (r: Result<Self, Error>)
        ensures
            match r {
                Ok(v) => items@.len() > 0 && v@ == items@,
                Err(e) => items@.len() == 0 && e == Error::EmptySimpleComponentValues,
            },
    {
        if items.len() == 0 {
            Err(Error::EmptySimpleComponentValues)
        } else {
            Ok(SimpleComponentValues(items))
        }
    }
}

/// One end of a time range: an observational time period and the stated `isInclusive`
/// (default `true`).
#[derive(Clone, Debug, PartialEq, Eq, Hash)]
pub struct TimePeriodRange {
    /// The period.
    pub period: ObservationalTimePeriod,
    /// `isInclusive`, if stated.
    pub inclusive: Option<bool>,
}

impl TimePeriodRange {
    /// The effective `isInclusive`: the stated value, else `true`.
    pub fn effective_is_inclusive(&self) -> (r: bool)
        ensures
            r == flag_or_true(self.inclusive),
    {
        effective_flag_or_true(self.inclusive)
    }
}

/// The shape of a time range: before a period, after one, or between two.
#[derive(Clone, Debug, PartialEq, Eq, Hash)]
pub enum TimeRangeKind {
    /// Before the period.
    Before(TimePeriodRange),
    /// After the period.
    After(TimePeriodRange),
    /// Between two periods.
    Between {
        /// The start.
        start: TimePeriodRange,
        /// The end.
        end: TimePeriodRange,
    },
}

/// A time-range value: its shape and its own validity window.
#[derive(Clone, Debug, PartialEq, Eq, Hash)]
pub struct TimeRange {
    /// The shape.
    pub kind: TimeRangeKind,
    /// The start of the range's validity, if stated.
    pub valid_from: Option<SdmxTimePeriod>,
    /// The end of the range's validity, if stated.
    pub valid_to: Option<SdmxTimePeriod>,
}

/// What a cube-region dimension selection selects: values or a time range (never nothing).
#[derive(Clone, Debug, PartialEq, Eq, Hash)]
pub enum KeyValueSelection {
    /// A non-empty list of values.
    Values(CubeKeyValues),
    /// A time range.
    TimeRange(TimeRange),
}

/// What a cube-region component selection selects: values, a time range, or nothing.
#[derive(Clone, Debug, PartialEq, Eq, Hash)]
pub enum ComponentSelection {
    /// A non-empty list of values.
    Values(SimpleComponentValues),
    /// A time range.
    TimeRange(TimeRange),
    /// The component is referenced with no values.
    Empty,
}

/// A cube-region dimension selection: an `NCName` dimension id, the selection, the stated
/// `include` (default `true`) and `removePrefix`, and a validity window.
#[derive(Debug, PartialEq, Eq, Hash)]
pub struct CubeRegionKey {
    id: String,
    selection: KeyValueSelection,
    included: Option<bool>,
    remove_prefix: Option<bool>,
    valid_from: Option<SdmxTimePeriod>,
    valid_to: Option<SdmxTimePeriod>,
}

impl Clone for CubeRegionKey {
    fn clone(&self) -> (r: Self)
        ensures
            r.spec_id() == self.spec_id(),
            r.spec_include() == self.spec_include(),
            r.spec_remove_prefix() == self.spec_remove_prefix(),
    {
        proof {
            use_type_invariant(self);
        }
        CubeRegionKey {
            id: self.id.clone(),
            selection: self.selection.clone(),
            included: self.included,
            remove_prefix: self.remove_prefix,
            valid_from: self.valid_from.clone(),
            valid_to: self.valid_to.clone(),
        }
    }
}

impl CubeRegionKey {
    #[verifier::type_invariant]
    closed spec fn well_formed(self) -> bool {
        is_ncname(self.id@)
    }

    /// The dimension id.
    pub closed spec fn spec_id(&self) -> Seq<char> {
        self.id@
    }

    /// The selection.
    pub closed spec fn spec_selection(&self) -> KeyValueSelection {
        self.selection
    }

    /// The stated `include`.
    pub closed spec fn spec_include(&self) -> Option<bool> {
        self.included
    }

    /// The stated `removePrefix`.
    pub closed spec fn spec_remove_prefix(&self) -> Option<bool> {
        self.remove_prefix
    }

    /// The stated start of validity.
    pub closed spec fn spec_valid_from(&self) -> Option<SdmxTimePeriod> {
        self.valid_from
    }

    /// The stated end of validity.
    pub closed spec fn spec_valid_to(&self) -> Option<SdmxTimePeriod> {
        self.valid_to
    }

    /// Builds the selection; fails with `InvalidNcNameIdentifier(id)` exactly when `id` is
    /// not an `NCName`.
    pub fn new(
        id: String,
        selection: KeyValueSelection,
        included: Option<bool>,
        remove_prefix: Option<bool>,
        valid_from: Option<SdmxTimePeriod>,
        valid_to: Option<SdmxTimePeriod>,
    ) -> (r: Result<Self, Error>)
        ensures
            match r {
                Ok(k) => {
                    &&& is_ncname(id@)
                    &&& k.spec_id() == id@
                    &&& k.spec_selection() == selection
                    &&& k.spec_include() == included
                    &&& k.spec_remove_prefix() == remove_prefix
                    &&& k.spec_valid_from() == valid_from
                    &&& k.spec_valid_to() == valid_to
                },
                Err(e) => !is_ncname(id@) && e == Error::InvalidNcNameIdentifier(id),
            },
    {
        match validate_ncname(id.as_str()) {
            Ok(()) => Ok(
                CubeRegionKey { id, selection, included, remove_prefix, valid_from, valid_to },
            ),
            Err(_) => Err(Error::InvalidNcNameIdentifier(id)),
        }
    }

    /// The dimension id (an `NCName`).
    pub fn id(&self) -> (r: &str)
        ensures
            r@ == self.spec_id(),
            is_ncname(r@),
    {
        proof {
            use_type_invariant(self);
        }
        self.id.as_str()
    }

    /// The selection.
    pub fn selection(&self) -> (r: &KeyValueSelection)
        ensures
            *r == self.spec_selection(),
    {
        &self.selection
    }

    /// `include` as the wire carried it.
    pub fn included(&self) -> (r: Option<bool>)
        ensures
            r == self.spec_include(),
    {
        self.included
    }

    /// `removePrefix` as the wire carried it.
    pub fn remove_prefix(&self) -> (r: Option<bool>)
        ensures
            r == self.spec_remove_prefix(),
    {
        self.remove_prefix
    }

    /// The start of validity, if stated.
    pub fn valid_from(&self) -> (r: Option<&SdmxTimePeriod>)
        ensures
            opt_deref(r) == self.spec_valid_from(),
    {
        self.valid_from.as_ref()
    }

    /// The end of validity, if stated.
    pub fn valid_to(&self) -> (r: Option<&SdmxTimePeriod>)
        ensures
            opt_deref(r) == self.spec_valid_to(),
    {
        self.valid_to.as_ref()
    }

    /// The effective `include`: the stated value, else `true`.
    pub fn effective_is_included(&self) -> (r: bool)
        ensures
            r == flag_or_true(self.spec_include()),
    {
        effective_flag_or_true(self.included)
    }
}

/// A cube-region component selection: a dotted-`NCName` component id, the selection, and the stated `include` (default
/// `true`) and `removePrefix`.
#[derive(Debug, PartialEq, Eq, Hash)]
pub struct ComponentValueSet {
    id: String,
    selection: ComponentSelection,
    included: Option<bool>,
    remove_prefix: Option<bool>,
}

impl Clone for ComponentValueSet {
    fn clone(&self) -> (r: Self)
        ensures
            r.spec_id() == self.spec_id(),
            r.spec_include() == self.spec_include(),
            r.spec_remove_prefix() == self.spec_remove_prefix(),
    {
        proof {
            use_type_invariant(self);
        }
        ComponentValueSet {
            id: self.id.clone(),
            selection: self.selection.clone(),
            included: self.included,
            remove_prefix: self.remove_prefix,
        }
    }
}

impl ComponentValueSet {
    #[verifier::type_invariant]
    closed spec fn well_formed(self) -> bool {
        is_nested_ncname(self.id@)
    }

    /// The component id.
    pub closed spec fn spec_id(&self) -> Seq<char> {
        self.id@
    }

    /// The selection.
    pub closed spec fn spec_selection(&self) -> ComponentSelection {
        self.selection
    }

    /// The stated `include`.
    pub closed spec fn spec_include(&self) -> Option<bool> {
        self.included
    }

    /// The stated `removePrefix`.
    pub closed spec fn spec_remove_prefix(&self) -> Option<bool> {
        self.remove_prefix
    }

    /// Builds the selection; fails with `InvalidNestedNcNameIdentifier(id)` exactly when `id`
    /// is not a dotted `NCName` (the `NestedNCNameIDType` grammar).
    pub fn new(
        id: String,
        selection: ComponentSelection,
        included: Option<bool>,
        remove_prefix: Option<bool>,
    ) -> (r: Result<Self, Error>)
        ensures
            match r {
                Ok(c) => {
                    &&& is_nested_ncname(id@)
                    &&& c.spec_id() == id@
                    &&& c.spec_selection() == selection
                    &&& c.spec_include() == included
                    &&& c.spec_remove_prefix() == remove_prefix
                },
                Err(e) => !is_nested_ncname(id@) && e == Error::InvalidNestedNcNameIdentifier(id),
            },
    {
        match validate_nested_ncname(id.as_str()) {
            Ok(()) => Ok(ComponentValueSet { id, selection, included, remove_prefix }),
            Err(_) => Err(Error::InvalidNestedNcNameIdentifier(id)),
        }
    }

    /// The component id (a dotted `NCName`).
    pub fn id(&self) -> (r: &str)
        ensures
            r@ == self.spec_id(),
            is_nested_ncname(r@),
    {
        proof {
            use_type_invariant(self);
        }
        self.id.as_str()
    }

    /// The selection.
    pub fn selection(&self) -> (r: &ComponentSelection)
        ensures
            *r == self.spec_selection(),
    {
        &self.selection
    }

    /// `include` as the wire carried it.
    pub fn included(&self) -> (r: Option<bool>)
        ensures
            r == self.spec_include(),
    {
        self.included
    }

    /// `removePrefix` as the wire carried it.
    pub fn remove_prefix(&self) -> (r: Option<bool>)
        ensures
            r == self.spec_remove_prefix(),
    {
        self.remove_prefix
    }

    /// The effective `include`: the stated value, else `true`.
    pub fn effective_is_included(&self) -> (r: bool)
        ensures
            r == flag_or_true(self.spec_include()),
    {
        effective_flag_or_true(self.included)
    }
}

/// A cube region: dimension selections, component selections, the stated region-level
/// `include` (default `true`), and annotations.
#[derive(Clone, Debug, PartialEq, Eq, Hash)]
pub struct CubeRegion {
    /// The dimension selections, in wire order.
    pub key_values: Vec<CubeRegionKey>,
    /// The component selections, in wire order.
    pub components: Vec<ComponentValueSet>,
    /// `include`, if stated.
    pub included: Option<bool>,
    /// The region's annotations.
    pub annotations: Vec<Annotation>,
}

impl CubeRegion {
    /// The effective `include`: the stated value, else `true`.
    pub fn effective_is_included(&self) -> (r: bool)
        ensures
            r == flag_or_true(self.included),
    {
        effective_flag_or_true(self.included)
    }
}

/// The cube regions of a data constraint: at most two (one included, one excluded).
#[derive(Debug, PartialEq, Eq, Hash)]
pub struct CubeRegions(Vec<CubeRegion>);

impl View for CubeRegions {
    type V = Seq<CubeRegion>;

    closed spec fn view(&self) -> Seq<CubeRegion> {
        self.0@
    }
}

impl Clone for CubeRegions {
    fn clone(&self) -> (r: Self)
        ensures
            r@.len() == self@.len(),
    {
        proof {
            use_type_invariant(self);
        }
        CubeRegions(self.0.clone())
    }
}

impl CubeRegions {
    #[verifier::type_invariant]
    closed spec fn at_most_two(self) -> bool {
        self.0@.len() <= 2
    }

    /// Wraps `regions`; fails with `TooManyCubeRegions` exactly when there are more than two.
    pub fn new(regions: Vec<CubeRegion>) -> (r: Result<Self, Error>)
        ensures
            match r {
                Ok(v) => regions@.len() <= 2 && v@ == regions@,
                Err(e) => regions@.len() > 2 && e == Error::TooManyCubeRegions,
            },
    {
        if regions.len() > 2 {
            return Err(Error::TooManyCubeRegions);
        }
        Ok(CubeRegions(regions))
    }

    /// The regions, in wire order (at most two).
    pub fn as_slice(&self) -> (r: &[CubeRegion])
        ensures
            r@ == self@,
            r@.len() <= 2,
    {
        proof {
            use_type_invariant(self);
        }
        self.0.as_slice()
    }

    /// Consumes the list, returning its regions.
    pub fn into_inner(self) -> (r: Vec<CubeRegion>)
        ensures
            r@ == self@,
    {
        self.0
    }
}

impl vstd::std_specs::convert::FromSpecImpl<CubeRegions> for Vec<CubeRegion> {
    open spec fn obeys_from_spec() -> bool {
        true
    }

    closed spec fn from_spec(v: CubeRegions) -> Vec<CubeRegion> {
        v.0
    }
}

impl From<CubeRegions> for Vec<CubeRegion> {
    fn from(v: CubeRegions) -> (r: Vec<CubeRegion>)
        ensures
            r@ == v@,
    {
        v.0
    }
}

impl vstd::std_specs::convert::TryFromSpecImpl<Vec<CubeRegion>> for CubeRegions {
    open spec fn obeys_try_from_spec() -> bool {
        true
    }

    closed spec fn try_from_spec(regions: Vec<CubeRegion>) -> Result<Self, Error> {
        if regions@.len() > 2 {
            Err(Error::TooManyCubeRegions)
        } else {
            Ok(CubeRegions(regions))
        }
    }
}

impl TryFrom<Vec<CubeRegion>> for CubeRegions {
    type Error = Error;

    fn try_from(regions: Vec<CubeRegion>) -> (r: Result<Self, Error>)
        ensures
            match r {
                Ok(v) => regions@.len() <= 2 && v@ == regions@,
                Err(e) => regions@.len() > 2 && e == Error::TooManyCubeRegions,
            },
    {
        if regions.len() > 2 {
            Err(Error::TooManyCubeRegions)
        } else {
            Ok(CubeRegions(regions))
        }
    }
}

/// A value of a key-set component selection: the value, its cascade, and an optional
/// language tag (no validity window at this position).
#[derive(Clone, Debug, PartialEq, Eq, Hash)]
pub struct DataComponentValue {
    /// The value, kept verbatim.
    pub value: String,
    /// The cascade, if stated.
    pub cascade: Option<Cascade>,
    /// The `xml:lang` tag, if stated.
    pub lang: Option<String>,
}

/// The values of a key-set component selection: a non-empty list, in wire order.
#[derive(Debug, PartialEq, Eq, Hash)]
pub struct DataComponentValues(Vec<DataComponentValue>);

impl View for DataComponentValues {
    type V = Seq<DataComponentValue>;

    closed spec fn view(&self) -> Seq<DataComponentValue> {
        self.0@
    }
}

impl Clone for DataComponentValues {
    fn clone(&self) -> (r: Self)
        ensures
            r@.len() == self@.len(),
    {
        proof {
            use_type_invariant(self);
        }
        DataComponentValues(self.0.clone())
    }
}

impl DataComponentValues {
    #[verifier::type_invariant]
    closed spec fn non_empty(self) -> bool {
        self.0@.len() > 0
    }

    /// Wraps `items`; fails with `EmptyDataComponentValues` exactly when it is empty.
    pub fn new(items: Vec<DataComponentValue>) -> (r: Result<Self, Error>)
        ensures
            match r {
                Ok(v) => items@.len() > 0 && v@ == items@,
                Err(e) => items@.len() == 0 && e == Error::EmptyDataComponentValues,
            },
    {
        if items.len() == 0 {
            return Err(Error::EmptyDataComponentValues);
        }
        Ok(DataComponentValues(items))
    }

    /// The items, in wire order (never empty).
    pub fn as_slice(&self) -> (r: &[DataComponentValue])
        ensures
            r@ == self@,
            r@.len() > 0,
    {
        proof {
            use_type_invariant(self);
        }
        self.0.as_slice()
    }

    /// Consumes the list, returning its items (never empty).
    pub fn into_inner(self) -> (r: Vec<DataComponentValue>)
        ensures
            r@ == self@,
            r@.len() > 0,
    {
        proof {
            use_type_invariant(&self);
        }
        self.0
    }
}

impl vstd::std_specs::convert::FromSpecImpl<DataComponentValues> for Vec<DataComponentValue> {
    open spec fn obeys_from_spec() -> bool {
        true
    }

    closed spec fn from_spec(v: DataComponentValues) -> Vec<DataComponentValue> {
        v.0
    }
}

impl From<DataComponentValues> for Vec<DataComponentValue> {
    fn from(v: DataComponentValues) -> (r: Vec<DataComponentValue>)
        ensures
            r@ == v@,
    {
        v.0
    }
}

impl vstd::std_specs::convert::TryFromSpecImpl<Vec<DataComponentValue>> for DataComponentValues {
    open spec fn obeys_try_from_spec() -> bool {
        true
    }

    closed spec fn try_from_spec(items: Vec<DataComponentValue>) -> Result<Self, Error> {
        if items@.len() == 0 {
            Err(Error::EmptyDataComponentValues)
        } else {
            Ok(DataComponentValues(items))
        }
    }
}

impl TryFrom<Vec<DataComponentValue>> for DataComponentValues {
    type Error = Error;

    fn try_from(items: Vec<DataComponentValue>) -> (r: Result<Self, Error>)
        ensures
            match r {
                Ok(v) => items@.len() > 0 && v@ == items@,
                Err(e) => items@.len() == 0 && e == Error::EmptyDataComponentValues,
            },
    {
        if items.len() == 0 {
            Err(Error::EmptyDataComponentValues)
        } else {
            Ok(DataComponentValues(items))
        }
    }
}

/// What a key-set component selection selects: values, a time range, or nothing.
#[derive(Clone, Debug, PartialEq, Eq, Hash)]
pub enum DataComponentSelection {
    /// A non-empty list of values.
    Values(DataComponentValues),
    /// A time range.
    TimeRange(TimeRange),
    /// The component is referenced with no values.
    Empty,
}

/// A key-set component selection: a dotted-`NCName` component id, the selection, and the stated `include` (default
/// `true`) and `removePrefix`.
#[derive(Debug, PartialEq, Eq, Hash)]
pub struct DataComponentValueSet {
    id: String,
    selection: DataComponentSelection,
    included: Option<bool>,
    remove_prefix: Option<bool>,
}

impl Clone for DataComponentValueSet {
    fn clone(&self) -> (r: Self)
        ensures
            r.spec_id() == self.spec_id(),
            r.spec_include() == self.spec_include(),
            r.spec_remove_prefix() == self.spec_remove_prefix(),
    {
        proof {
            use_type_invariant(self);
        }
        DataComponentValueSet {
            id: self.id.clone(),
            selection: self.selection.clone(),
            included: self.included,
            remove_prefix: self.remove_prefix,
        }
    }
}

impl DataComponentValueSet {
    #[verifier::type_invariant]
    closed spec fn well_formed(self) -> bool {
        is_nested_ncname(self.id@)
    }

    /// The component id.
    pub closed spec fn spec_id(&self) -> Seq<char> {
        self.id@
    }

    /// The selection.
    pub closed spec fn spec_selection(&self) -> DataComponentSelection {
        self.selection
    }

    /// The stated `include`.
    pub closed spec fn spec_include(&self) -> Option<bool> {
        self.included
    }

    /// The stated `removePrefix`.
    pub closed spec fn spec_remove_prefix(&self) -> Option<bool> {
        self.remove_prefix
    }

    /// Builds the selection; fails with `InvalidNestedNcNameIdentifier(id)` exactly when `id`
    /// is not a dotted `NCName` (the `NestedNCNameIDType` grammar).
    pub fn new(
        id: String,
        selection: DataComponentSelection,
        included: Option<bool>,
        remove_prefix: Option<bool>,
    ) -> (r: Result<Self, Error>)
        ensures
            match r {
                Ok(c) => {
                    &&& is_nested_ncname(id@)
                    &&& c.spec_id() == id@
                    &&& c.spec_selection() == selection
                    &&& c.spec_include() == included
                    &&& c.spec_remove_prefix() == remove_prefix
                },
                Err(e) => !is_nested_ncname(id@) && e == Error::InvalidNestedNcNameIdentifier(id),
            },
    {
        match validate_nested_ncname(id.as_str()) {
            Ok(()) => Ok(DataComponentValueSet { id, selection, included, remove_prefix }),
            Err(_) => Err(Error::InvalidNestedNcNameIdentifier(id)),
        }
    }

    /// The component id (a dotted `NCName`).
    pub fn id(&self) -> (r: &str)
        ensures
            r@ == self.spec_id(),
            is_nested_ncname(r@),
    {
        proof {
            use_type_invariant(self);
        }
        self.id.as_str()
    }

    /// The selection.
    pub fn selection(&self) -> (r: &DataComponentSelection)
        ensures
            *r == self.spec_selection(),
    {
        &self.selection
    }

    /// `include` as the wire carried it.
    pub fn included(&self) -> (r: Option<bool>)
        ensures
            r == self.spec_include(),
    {
        self.included
    }

    /// `removePrefix` as the wire carried it.
    pub fn remove_prefix(&self) -> (r: Option<bool>)
        ensures
            r == self.spec_remove_prefix(),
    {
        self.remove_prefix
    }

    /// The effective `include`: the stated value, else `true`.
    pub fn effective_is_included(&self) -> (r: bool)
        ensures
            r == flag_or_true(self.spec_include()),
    {
        effective_flag_or_true(self.included)
    }
}

/// The values of a data-key dimension selection: a non-empty list, in wire order.
#[derive(Debug, PartialEq, Eq, Hash)]
pub struct SimpleKeyValues(Vec<String>);

impl View for SimpleKeyValues {
    type V = Seq<String>;

    closed spec fn view(&self) -> Seq<String> {
        self.0@
    }
}

impl Clone for SimpleKeyValues {
    fn clone(&self) -> (r: Self)
        ensures
            r@.len() == self@.len(),
    {
        proof {
            use_type_invariant(self);
        }
        SimpleKeyValues(self.0.clone())
    }
}

impl SimpleKeyValues {
    #[verifier::type_invariant]
    closed spec fn non_empty(self) -> bool {
        self.0@.len() > 0
    }

    /// Wraps `items`; fails with `EmptySimpleKeyValues` exactly when it is empty.
    pub fn new(items: Vec<String>) -> (r: Result<Self, Error>)
        ensures
            match r {
                Ok(v) => items@.len() > 0 && v@ == items@,
                Err(e) => items@.len() == 0 && e == Error::EmptySimpleKeyValues,
            },
    {
        if items.len() == 0 {
            return Err(Error::EmptySimpleKeyValues);
        }
        Ok(SimpleKeyValues(items))
    }

    /// The items, in wire order (never empty).
    pub fn as_slice(&self) -> (r: &[String])
        ensures
            r@ == self@,
            r@.len() > 0,
    {
        proof {
            use_type_invariant(self);
        }
        self.0.as_slice()
    }

    /// Consumes the list, returning its items (never empty).
    pub fn into_inner(self) -> (r: Vec<String>)
        ensures
            r@ == self@,
            r@.len() > 0,
    {
        proof {
            use_type_invariant(&self);
        }
        self.0
    }
}

impl vstd::std_specs::convert::FromSpecImpl<SimpleKeyValues> for Vec<String> {
    open spec fn obeys_from_spec() -> bool {
        true
    }

    closed spec fn from_spec(v: SimpleKeyValues) -> Vec<String> {
        v.0
    }
}

impl From<SimpleKeyValues> for Vec<String> {
    fn from(v: SimpleKeyValues) -> (r: Vec<String>)
        ensures
            r@ == v@,
    {
        v.0
    }
}

impl vstd::std_specs::convert::TryFromSpecImpl<Vec<String>> for SimpleKeyValues {
    open spec fn obeys_try_from_spec() -> bool {
        true
    }

    closed spec fn try_from_spec(items: Vec<String>) -> Result<Self, Error> {
        if items@.len() == 0 {
            Err(Error::EmptySimpleKeyValues)
        } else {
            Ok(SimpleKeyValues(items))
        }
    }
}

impl TryFrom<Vec<String>> for SimpleKeyValues {
    type Error = Error;

    fn try_from(items: Vec<String>) -> (r: Result<Self, Error>)
        ensures
            match r {
                Ok(v) => items@.len() > 0 && v@ == items@,
                Err(e) => items@.len() == 0 && e == Error::EmptySimpleKeyValues,
            },
    {
        if items.len() == 0 {
            Err(Error::EmptySimpleKeyValues)
        } else {
            Ok(SimpleKeyValues(items))
        }
    }
}

/// A data-key dimension selection: an `NCName` dimension id, its values, the fixed-`true`
/// `include`, and the stated `removePrefix`.
#[derive(Debug, PartialEq, Eq, Hash)]
pub struct DataKeyValue {
    id: String,
    values: SimpleKeyValues,
    included: FixedInclude,
    remove_prefix: Option<bool>,
}

impl Clone for DataKeyValue {
    fn clone(&self) -> (r: Self)
        ensures
            r.spec_id() == self.spec_id(),
            r.spec_include() == self.spec_include(),
            r.spec_remove_prefix() == self.spec_remove_prefix(),
    {
        proof {
            use_type_invariant(self);
        }
        DataKeyValue {
            id: self.id.clone(),
            values: self.values.clone(),
            included: self.included,
            remove_prefix: self.remove_prefix,
        }
    }
}

impl DataKeyValue {
    #[verifier::type_invariant]
    closed spec fn well_formed(self) -> bool {
        is_ncname(self.id@)
    }

    /// The dimension id.
    pub closed spec fn spec_id(&self) -> Seq<char> {
        self.id@
    }

    /// The values.
    pub closed spec fn spec_values(&self) -> Seq<String> {
        self.values@
    }

    /// The stated `include`.
    pub closed spec fn spec_include(&self) -> Option<bool> {
        self.included@
    }

    /// The stated `removePrefix`.
    pub closed spec fn spec_remove_prefix(&self) -> Option<bool> {
        self.remove_prefix
    }

    /// Builds the selection; fails with `InvalidNcNameIdentifier(id)` exactly when `id` is
    /// not an `NCName`.
    pub fn new(
        id: String,
        values: SimpleKeyValues,
        included: FixedInclude,
        remove_prefix: Option<bool>,
    ) -> (r: Result<Self, Error>)
        ensures
            match r {
                Ok(k) => {
                    &&& is_ncname(id@)
                    &&& k.spec_id() == id@
                    &&& k.spec_values() == values@
                    &&& k.spec_include() == included@
                    &&& k.spec_remove_prefix() == remove_prefix
                },
                Err(e) => !is_ncname(id@) && e == Error::InvalidNcNameIdentifier(id),
            },
    {
        match validate_ncname(id.as_str()) {
            Ok(()) => Ok(DataKeyValue { id, values, included, remove_prefix }),
            Err(_) => Err(Error::InvalidNcNameIdentifier(id)),
        }
    }

    /// The dimension id (an `NCName`).
    pub fn id(&self) -> (r: &str)
        ensures
            r@ == self.spec_id(),
            is_ncname(r@),
    {
        proof {
            use_type_invariant(self);
        }
        self.id.as_str()
    }

    /// The values.
    pub fn values(&self) -> (r: &SimpleKeyValues)
        ensures
            r@ == self.spec_values(),
    {
        &self.values
    }

    /// `include` as the wire carried it.
    pub fn included(&self) -> (r: FixedInclude)
        ensures
            r@ == self.spec_include(),
    {
        self.included
    }

    /// `removePrefix` as the wire carried it.
    pub fn remove_prefix(&self) -> (r: Option<bool>)
        ensures
            r == self.spec_remove_prefix(),
    {
        self.remove_prefix
    }
}

/// A data key: dimension selections, component selections, the fixed-`true` `include`,
/// annotations, and a validity window.
#[derive(Clone, Debug, PartialEq, Eq, Hash)]
pub struct DataKey {
    /// The dimension selections, in wire order.
    pub key_values: Vec<DataKeyValue>,
    /// The component selections, in wire order.
    pub components: Vec<DataComponentValueSet>,
    /// `include`.
    pub included: FixedInclude,
    /// The key's annotations.
    pub annotations: Vec<Annotation>,
    /// The start of the key's validity, if stated.
    pub valid_from: Option<SdmxTimePeriod>,
    /// The end of the key's validity, if stated.
    pub valid_to: Option<SdmxTimePeriod>,
}

/// The keys of a data key set: a non-empty list, in wire order.
#[derive(Debug, PartialEq, Eq, Hash)]
pub struct DataKeys(Vec<DataKey>);

impl View for DataKeys {
    type V = Seq<DataKey>;

    closed spec fn view(&self) -> Seq<DataKey> {
        self.0@
    }
}

impl Clone for DataKeys {
    fn clone(&self) -> (r: Self)
        ensures
            r@.len() == self@.len(),
    {
        proof {
            use_type_invariant(self);
        }
        DataKeys(self.0.clone())
    }
}

impl DataKeys {
    #[verifier::type_invariant]
    closed spec fn non_empty(self) -> bool {
        self.0@.len() > 0
    }

    /// Wraps `items`; fails with `EmptyDataKeys` exactly when it is empty.
    pub fn new(items: Vec<DataKey>) -> (r: Result<Self, Error>)
        ensures
            match r {
                Ok(v) => items@.len() > 0 && v@ == items@,
                Err(e) => items@.len() == 0 && e == Error::EmptyDataKeys,
            },
    {
        if items.len() == 0 {
            return Err(Error::EmptyDataKeys);
        }
        Ok(DataKeys(items))
    }

    /// The items, in wire order (never empty).
    pub fn as_slice(&self) -> (r: &[DataKey])
        ensures
            r@ == self@,
            r@.len() > 0,
    {
        proof {
            use_type_invariant(self);
        }
        self.0.as_slice()
    }

    /// Consumes the list, returning its items (never empty).
    pub fn into_inner(self) -> (r: Vec<DataKey>)
        ensures
            r@ == self@,
            r@.len() > 0,
    {
        proof {
            use_type_invariant(&self);
        }
        self.0
    }
}

impl vstd::std_specs::convert::FromSpecImpl<DataKeys> for Vec<DataKey> {
    open spec fn obeys_from_spec() -> bool {
        true
    }

    closed spec fn from_spec(v: DataKeys) -> Vec<DataKey> {
        v.0
    }
}

impl From<DataKeys> for Vec<DataKey> {
    fn from(v: DataKeys) -> (r: Vec<DataKey>)
        ensures
            r@ == v@,
    {
        v.0
    }
}

impl vstd::std_specs::convert::TryFromSpecImpl<Vec<DataKey>> for DataKeys {
    open spec fn obeys_try_from_spec() -> bool {
        true
    }

    closed spec fn try_from_spec(items: Vec<DataKey>) -> Result<Self, Error> {
        if items@.len() == 0 {
            Err(Error::EmptyDataKeys)
        } else {
            Ok(DataKeys(items))
        }
    }
}

impl TryFrom<Vec<DataKey>> for DataKeys {
    type Error = Error;

    fn try_from(items: Vec<DataKey>) -> (r: Result<Self, Error>)
        ensures
            match r {
                Ok(v) => items@.len() > 0 && v@ == items@,
                Err(e) => items@.len() == 0 && e == Error::EmptyDataKeys,
            },
    {
        if items.len() == 0 {
            Err(Error::EmptyDataKeys)
        } else {
            Ok(DataKeys(items))
        }
    }
}

/// A data key set: its keys and whether they are included.
#[derive(Clone, Debug, PartialEq, Eq, Hash)]
pub struct DataKeySet {
    /// The keys (at least one).
    pub keys: DataKeys,
    /// `isIncluded` (required).
    pub is_included: bool,
}

/// A queryable data source: its data URL, optional WSDL and WADL URLs, and its kind flags.
#[derive(Clone, Debug, PartialEq, Eq, Hash)]
pub struct QueryableDataSource {
    /// The data URL.
    pub data_url: String,
    /// The WSDL URL, if any.
    pub wsdl_url: Option<String>,
    /// The WADL URL, if any.
    pub wadl_url: Option<String>,
    /// `isRESTDatasource`.
    pub is_rest_data_source: bool,
    /// `isWebServiceDatasource`.
    pub is_web_service_data_source: bool,
}

/// The data structures a constraint attaches to: a non-empty list, in wire order.
#[derive(Debug, PartialEq, Eq, Hash)]
pub struct DataStructureRefs(Vec<DataStructureReference>);

impl View for DataStructureRefs {
    type V = Seq<DataStructureReference>;

    closed spec fn view(&self) -> Seq<DataStructureReference> {
        self.0@
    }
}

impl Clone for DataStructureRefs {
    fn clone(&self) -> (r: Self)
        ensures
            r@.len() == self@.len(),
    {
        proof {
            use_type_invariant(self);
        }
        DataStructureRefs(self.0.clone())
    }
}

impl DataStructureRefs {
    #[verifier::type_invariant]
    closed spec fn non_empty(self) -> bool {
        self.0@.len() > 0
    }

    /// Wraps `items`; fails with `EmptyDataStructureRefs` exactly when it is empty.
    pub fn new(items: Vec<DataStructureReference>) -> (r: Result<Self, Error>)
        ensures
            match r {
                Ok(v) => items@.len() > 0 && v@ == items@,
                Err(e) => items@.len() == 0 && e == Error::EmptyDataStructureRefs,
            },
    {
        if items.len() == 0 {
            return Err(Error::EmptyDataStructureRefs);
        }
        Ok(DataStructureRefs(items))
    }

    /// The items, in wire order (never empty).
    pub fn as_slice(&self) -> (r: &[DataStructureReference])
        ensures
            r@ == self@,
            r@.len() > 0,
    {
        proof {
            use_type_invariant(self);
        }
        self.0.as_slice()
    }

    /// Consumes the list, returning its items (never empty).
    pub fn into_inner(self) -> (r: Vec<DataStructureReference>)
        ensures
            r@ == self@,
            r@.len() > 0,
    {
        proof {
            use_type_invariant(&self);
        }
        self.0
    }
}

impl vstd::std_specs::convert::FromSpecImpl<DataStructureRefs> for Vec<DataStructureReference> {
    open spec fn obeys_from_spec() -> bool {
        true
    }

    closed spec fn from_spec(v: DataStructureRefs) -> Vec<DataStructureReference> {
        v.0
    }
}

impl From<DataStructureRefs> for Vec<DataStructureReference> {
    fn from(v: DataStructureRefs) -> (r: Vec<DataStructureReference>)
        ensures
            r@ == v@,
    {
        v.0
    }
}

impl vstd::std_specs::convert::TryFromSpecImpl<Vec<DataStructureReference>> for DataStructureRefs {
    open spec fn obeys_try_from_spec() -> bool {
        true
    }

    closed spec fn try_from_spec(items: Vec<DataStructureReference>) -> Result<Self, Error> {
        if items@.len() == 0 {
            Err(Error::EmptyDataStructureRefs)
        } else {
            Ok(DataStructureRefs(items))
        }
    }
}

impl TryFrom<Vec<DataStructureReference>> for DataStructureRefs {
    type Error = Error;

    fn try_from(items: Vec<DataStructureReference>) -> (r: Result<Self, Error>)
        ensures
            match r {
                Ok(v) => items@.len() > 0 && v@ == items@,
                Err(e) => items@.len() == 0 && e == Error::EmptyDataStructureRefs,
            },
    {
        if items.len() == 0 {
            Err(Error::EmptyDataStructureRefs)
        } else {
            Ok(DataStructureRefs(items))
        }
    }
}

/// The dataflows a constraint attaches to: a non-empty list, in wire order.
#[derive(Debug, PartialEq, Eq, Hash)]
pub struct DataflowRefs(Vec<DataflowReference>);

impl View for DataflowRefs {
    type V = Seq<DataflowReference>;

    closed spec fn view(&self) -> Seq<DataflowReference> {
        self.0@
    }
}

impl Clone for DataflowRefs {
    fn clone(&self) -> (r: Self)
        ensures
            r@.len() == self@.len(),
    {
        proof {
            use_type_invariant(self);
        }
        DataflowRefs(self.0.clone())
    }
}

impl DataflowRefs {
    #[verifier::type_invariant]
    closed spec fn non_empty(self) -> bool {
        self.0@.len() > 0
    }

    /// Wraps `items`; fails with `EmptyDataflowRefs` exactly when it is empty.
    pub fn new(items: Vec<DataflowReference>) -> (r: Result<Self, Error>)
        ensures
            match r {
                Ok(v) => items@.len() > 0 && v@ == items@,
                Err(e) => items@.len() == 0 && e == Error::EmptyDataflowRefs,
            },
    {
        if items.len() == 0 {
            return Err(Error::EmptyDataflowRefs);
        }
        Ok(DataflowRefs(items))
    }

    /// The items, in wire order (never empty).
    pub fn as_slice(&self) -> (r: &[DataflowReference])
        ensures
            r@ == self@,
            r@.len() > 0,
    {
        proof {
            use_type_invariant(self);
        }
        self.0.as_slice()
    }

    /// Consumes the list, returning its items (never empty).
    pub fn into_inner(self) -> (r: Vec<DataflowReference>)
        ensures
            r@ == self@,
            r@.len() > 0,
    {
        proof {
            use_type_invariant(&self);
        }
        self.0
    }
}

impl vstd::std_specs::convert::FromSpecImpl<DataflowRefs> for Vec<DataflowReference> {
    open spec fn obeys_from_spec() -> bool {
        true
    }

    closed spec fn from_spec(v: DataflowRefs) -> Vec<DataflowReference> {
        v.0
    }
}

impl From<DataflowRefs> for Vec<DataflowReference> {
    fn from(v: DataflowRefs) -> (r: Vec<DataflowReference>)
        ensures
            r@ == v@,
    {
        v.0
    }
}

impl vstd::std_specs::convert::TryFromSpecImpl<Vec<DataflowReference>> for DataflowRefs {
    open spec fn obeys_try_from_spec() -> bool {
        true
    }

    closed spec fn try_from_spec(items: Vec<DataflowReference>) -> Result<Self, Error> {
        if items@.len() == 0 {
            Err(Error::EmptyDataflowRefs)
        } else {
            Ok(DataflowRefs(items))
        }
    }
}

impl TryFrom<Vec<DataflowReference>> for DataflowRefs {
    type Error = Error;

    fn try_from(items: Vec<DataflowReference>) -> (r: Result<Self, Error>)
        ensures
            match r {
                Ok(v) => items@.len() > 0 && v@ == items@,
                Err(e) => items@.len() == 0 && e == Error::EmptyDataflowRefs,
            },
    {
        if items.len() == 0 {
            Err(Error::EmptyDataflowRefs)
        } else {
            Ok(DataflowRefs(items))
        }
    }
}

/// The provision agreements a constraint attaches to: a non-empty list, in wire order.
#[derive(Debug, PartialEq, Eq, Hash)]
pub struct ProvisionAgreementRefs(Vec<ProvisionAgreementReference>);

impl View for ProvisionAgreementRefs {
    type V = Seq<ProvisionAgreementReference>;

    closed spec fn view(&self) -> Seq<ProvisionAgreementReference> {
        self.0@
    }
}

impl Clone for ProvisionAgreementRefs {
    fn clone(&self) -> (r: Self)
        ensures
            r@.len() == self@.len(),
    {
        proof {
            use_type_invariant(self);
        }
        ProvisionAgreementRefs(self.0.clone())
    }
}

impl ProvisionAgreementRefs {
    #[verifier::type_invariant]
    closed spec fn non_empty(self) -> bool {
        self.0@.len() > 0
    }

    /// Wraps `items`; fails with `EmptyProvisionAgreementRefs` exactly when it is empty.
    pub fn new(items: Vec<ProvisionAgreementReference>) -> (r: Result<Self, Error>)
        ensures
            match r {
                Ok(v) => items@.len() > 0 && v@ == items@,
                Err(e) => items@.len() == 0 && e == Error::EmptyProvisionAgreementRefs,
            },
    {
        if items.len() == 0 {
            return Err(Error::EmptyProvisionAgreementRefs);
        }
        Ok(ProvisionAgreementRefs(items))
    }

    /// The items, in wire order (never empty).
    pub fn as_slice(&self) -> (r: &[ProvisionAgreementReference])
        ensures
            r@ == self@,
            r@.len() > 0,
    {
        proof {
            use_type_invariant(self);
        }
        self.0.as_slice()
    }

    /// Consumes the list, returning its items (never empty).
    pub fn into_inner(self) -> (r: Vec<ProvisionAgreementReference>)
        ensures
            r@ == self@,
            r@.len() > 0,
    {
        proof {
            use_type_invariant(&self);
        }
        self.0
    }
}

impl vstd::std_specs::convert::FromSpecImpl<ProvisionAgreementRefs> for Vec<ProvisionAgreementReference> {
    open spec fn obeys_from_spec() -> bool {
        true
    }

    closed spec fn from_spec(v: ProvisionAgreementRefs) -> Vec<ProvisionAgreementReference> {
        v.0
    }
}

impl From<ProvisionAgreementRefs> for Vec<ProvisionAgreementReference> {
    fn from(v: ProvisionAgreementRefs) -> (r: Vec<ProvisionAgreementReference>)
        ensures
            r@ == v@,
    {
        v.0
    }
}

impl vstd::std_specs::convert::TryFromSpecImpl<Vec<ProvisionAgreementReference>> for ProvisionAgreementRefs {
    open spec fn obeys_try_from_spec() -> bool {
        true
    }

    closed spec fn try_from_spec(items: Vec<ProvisionAgreementReference>) -> Result<Self, Error> {
        if items@.len() == 0 {
            Err(Error::EmptyProvisionAgreementRefs)
        } else {
            Ok(ProvisionAgreementRefs(items))
        }
    }
}

impl TryFrom<Vec<ProvisionAgreementReference>> for ProvisionAgreementRefs {
    type Error = Error;

    fn try_from(items: Vec<ProvisionAgreementReference>) -> (r: Result<Self, Error>)
        ensures
            match r {
                Ok(v) => items@.len() > 0 && v@ == items@,
                Err(e) => items@.len() == 0 && e == Error::EmptyProvisionAgreementRefs,
            },
    {
        if items.len() == 0 {
            Err(Error::EmptyProvisionAgreementRefs)
        } else {
            Ok(ProvisionAgreementRefs(items))
        }
    }
}

/// The simple data source URLs a constraint attaches to: a non-empty list, in wire order.
#[derive(Debug, PartialEq, Eq, Hash)]
pub struct SimpleDataSources(Vec<String>);

impl View for SimpleDataSources {
    type V = Seq<String>;

    closed spec fn view(&self) -> Seq<String> {
        self.0@
    }
}

impl Clone for SimpleDataSources {
    fn clone(&self) -> (r: Self)
        ensures
            r@.len() == self@.len(),
    {
        proof {
            use_type_invariant(self);
        }
        SimpleDataSources(self.0.clone())
    }
}

impl SimpleDataSources {
    #[verifier::type_invariant]
    closed spec fn non_empty(self) -> bool {
        self.0@.len() > 0
    }

    /// Wraps `items`; fails with `EmptySimpleDataSources` exactly when it is empty.
    pub fn new(items: Vec<String>) -> (r: Result<Self, Error>)
        ensures
            match r {
                Ok(v) => items@.len() > 0 && v@ == items@,
                Err(e) => items@.len() == 0 && e == Error::EmptySimpleDataSources,
            },
    {
        if items.len() == 0 {
            return Err(Error::EmptySimpleDataSources);
        }
        Ok(SimpleDataSources(items))
    }

    /// The items, in wire order (never empty).
    pub fn as_slice(&self) -> (r: &[String])
        ensures
            r@ == self@,
            r@.len() > 0,
    {
        proof {
            use_type_invariant(self);
        }
        self.0.as_slice()
    }

    /// Consumes the list, returning its items (never empty).
    pub fn into_inner(self) -> (r: Vec<String>)
        ensures
            r@ == self@,
            r@.len() > 0,
    {
        proof {
            use_type_invariant(&self);
        }
        self.0
    }
}

impl vstd::std_specs::convert::FromSpecImpl<SimpleDataSources> for Vec<String> {
    open spec fn obeys_from_spec() -> bool {
        true
    }

    closed spec fn from_spec(v: SimpleDataSources) -> Vec<String> {
        v.0
    }
}

impl From<SimpleDataSources> for Vec<String> {
    fn from(v: SimpleDataSources) -> (r: Vec<String>)
        ensures
            r@ == v@,
    {
        v.0
    }
}

impl vstd::std_specs::convert::TryFromSpecImpl<Vec<String>> for SimpleDataSources {
    open spec fn obeys_try_from_spec() -> bool {
        true
    }

    closed spec fn try_from_spec(items: Vec<String>) -> Result<Self, Error> {
        if items@.len() == 0 {
            Err(Error::EmptySimpleDataSources)
        } else {
            Ok(SimpleDataSources(items))
        }
    }
}

impl TryFrom<Vec<String>> for SimpleDataSources {
    type Error = Error;

    fn try_from(items: Vec<String>) -> (r: Result<Self, Error>)
        ensures
            match r {
                Ok(v) => items@.len() > 0 && v@ == items@,
                Err(e) => items@.len() == 0 && e == Error::EmptySimpleDataSources,
            },
    {
        if items.len() == 0 {
            Err(Error::EmptySimpleDataSources)
        } else {
            Ok(SimpleDataSources(items))
        }
    }
}

/// What a data constraint attaches to.
#[derive(Clone, Debug, PartialEq, Eq, Hash)]
pub enum DataConstraintAttachment {
    /// A data provider.
    DataProvider(DataProviderReference),
    /// Simple data sources.
    SimpleDataSource(SimpleDataSources),
    /// Data structures, with their queryable sources.
    DataStructure {
        /// The data structures.
        refs: DataStructureRefs,
        /// The queryable data sources.
        queryable: Vec<QueryableDataSource>,
    },
    /// Dataflows, with their queryable sources.
    Dataflow {
        /// The dataflows.
        refs: DataflowRefs,
        /// The queryable data sources.
        queryable: Vec<QueryableDataSource>,
    },
    /// Provision agreements, with their queryable sources.
    ProvisionAgreement {
        /// The provision agreements.
        refs: ProvisionAgreementRefs,
        /// The queryable data sources.
        queryable: Vec<QueryableDataSource>,
    },
}

/// What an availability constraint attaches to.
#[derive(Clone, Debug, PartialEq, Eq, Hash)]
pub enum AvailabilityConstraintAttachment {
    /// A data structure.
    DataStructure(DataStructureReference),
    /// A dataflow.
    Dataflow(DataflowReference),
    /// A provision agreement.
    ProvisionAgreement(ProvisionAgreementReference),
}

/// Whether a constraint states what is allowed or what actually exists.
#[derive(Clone, Copy, Debug, PartialEq, Eq, Structural, Hash)]
pub enum ConstraintRole {
    /// What is allowed.
    Allowed,
    /// What actually exists.
    Actual,
}

/// A release calendar: periodicity, offset and tolerance, kept verbatim.
#[derive(Clone, Debug, PartialEq, Eq, Hash)]
pub struct ReleaseCalendar {
    /// The periodicity.
    pub periodicity: String,
    /// The offset.
    pub offset: String,
    /// The tolerance.
    pub tolerance: String,
}

/// A data constraint: a maintainable artefact with a role, an attachment, a release
/// calendar, data key sets and at most two cube regions.
#[derive(Clone, Debug, PartialEq, Eq, Hash)]
pub struct DataConstraint {
    /// The constraint's metadata.
    pub metadata: MaintainableMetadata,
    /// The role, if stated.
    pub role: Option<ConstraintRole>,
    /// The attachment, if stated.
    pub attachment: Option<DataConstraintAttachment>,
    /// The release calendar, if stated.
    pub release_calendar: Option<ReleaseCalendar>,
    /// The data key sets, in wire order.
    pub key_sets: Vec<DataKeySet>,
    /// The cube regions (at most two).
    pub regions: CubeRegions,
}

impl IdentifiableArtefact for DataConstraint {
    open spec fn spec_id(&self) -> Seq<char> {
        self.metadata.spec_id()
    }

    open spec fn spec_urn(&self) -> Option<Seq<char>> {
        self.metadata.spec_urn()
    }

    open spec fn spec_uri(&self) -> Option<Seq<char>> {
        self.metadata.spec_uri()
    }

    open spec fn spec_annotations(&self) -> Seq<Annotation> {
        self.metadata.spec_annotations()
    }

    open spec fn spec_links(&self) -> Seq<Link> {
        self.metadata.spec_links()
    }

    fn id(&self) -> (r: &str) {
        self.metadata.id()
    }

    fn urn(&self) -> (r: Option<&str>) {
        self.metadata.urn()
    }

    fn uri(&self) -> (r: Option<&str>) {
        self.metadata.uri()
    }

    fn annotations(&self) -> (r: &[Annotation]) {
        self.metadata.annotations()
    }

    fn links(&self) -> (r: &[Link]) {
        self.metadata.links()
    }
}

impl NameableArtefact for DataConstraint {
    open spec fn spec_names(&self) -> LocalisedString {
        self.metadata.spec_names()
    }

    open spec fn spec_descriptions(&self) -> Option<LocalisedString> {
        self.metadata.spec_descriptions()
    }

    fn names(&self) -> (r: &LocalisedString) {
        self.metadata.names()
    }

    fn descriptions(&self) -> (r: Option<&LocalisedString>) {
        self.metadata.descriptions()
    }
}

impl VersionableArtefact for DataConstraint {
    open spec fn spec_version(&self) -> Option<SdmxVersion> {
        self.metadata.spec_version()
    }

    open spec fn spec_valid_from(&self) -> Option<SdmxDateTime> {
        self.metadata.spec_valid_from()
    }

    open spec fn spec_valid_to(&self) -> Option<SdmxDateTime> {
        self.metadata.spec_valid_to()
    }

    fn version(&self) -> (r: Option<&SdmxVersion>) {
        self.metadata.version()
    }

    fn valid_from(&self) -> (r: Option<&SdmxDateTime>) {
        self.metadata.valid_from()
    }

    fn valid_to(&self) -> (r: Option<&SdmxDateTime>) {
        self.metadata.valid_to()
    }
}

impl MaintainableArtefact for DataConstraint {
    open spec fn spec_agency(&self) -> Seq<char> {
        self.metadata.spec_agency()
    }

    open spec fn spec_is_partial_language(&self) -> bool {
        self.metadata.spec_is_partial_language()
    }

    open spec fn spec_is_external_reference(&self) -> bool {
        self.metadata.spec_is_external_reference()
    }

    open spec fn spec_service_url(&self) -> Option<Seq<char>> {
        self.metadata.spec_service_url()
    }

    open spec fn spec_structure_url(&self) -> Option<Seq<char>> {
        self.metadata.spec_structure_url()
    }

    fn agency(&self) -> (r: &str) {
        self.metadata.agency()
    }

    fn is_partial_language(&self) -> (r: bool) {
        self.metadata.is_partial_language()
    }

    fn is_external_reference(&self) -> (r: bool) {
        self.metadata.is_external_reference()
    }

    fn service_url(&self) -> (r: Option<&str>) {
        self.metadata.service_url()
    }

    fn structure_url(&self) -> (r: Option<&str>) {
        self.metadata.structure_url()
    }
}

/// An availability constraint: what it attaches to, one cube region, annotations, and the
/// stated series and observation counts.
#[derive(Clone, Debug, PartialEq, Eq, Hash)]
pub struct AvailabilityConstraint {
    /// The attachment.
    pub attachment: AvailabilityConstraintAttachment,
    /// The region.
    pub region: CubeRegion,
    /// The annotations.
    pub annotations: Vec<Annotation>,
    /// The series count, if stated.
    pub series_count: Option<i32>,
    /// The observation count, if stated.
    pub obs_count: Option<i32>,
}

/// A constraint: a data constraint or an availability constraint.
#[derive(Clone, Debug, PartialEq, Eq, Hash)]
pub enum ConstraintModel {
    /// A data constraint.
    Data(DataConstraint),
    /// An availability constraint.
    Availability(AvailabilityConstraint),
}

} // verus!

//! The component lists of a data structure: the dimension list (with the optional time
//! dimension), the attribute list (attributes and metadata-attribute usages, interleaved in
//! wire order), the measure list, and groups of dimensions. Each list's id is optional with a
//! schema-fixed value, each holds at least one member when built, and each lookup by id is a
//! first-match view in wire order.
use crate::annotation::{Annotation, Link};
use crate::artefact::{opt_as_str, opt_chars, opt_str_chars, IdentifiableArtefact};
use crate::attribute::{Attribute, AttributeListMember, MetadataAttributeUsage};
use crate::dimension::{Dimension, TimeDimension};
use crate::error::Error;
use crate::ident::{str_eq, validate_fixed};
use crate::lookup::{find_by_id, first_id_index, first_with_id, lemma_first_id_index};
use crate::measure::Measure;
use crate::metadata::IdentifiableMetadata;
use vstd::prelude::*;

verus! {

/// The dimension ids of a group: a non-empty list, in wire order.
#[derive(Debug, PartialEq, Eq, Hash)]
pub struct GroupDimensions(Vec<String>);

impl View for GroupDimensions {
    type V = Seq<String>;

    closed spec fn view(&self) -> Seq<String> {
        self.0@
    }
}

impl Clone for GroupDimensions {
    fn clone(&self) -> (r: Self)
        ensures
            r@.len() == self@.len(),
    {
        proof {
            use_type_invariant(self);
        }
        GroupDimensions(self.0.clone())
    }
}

impl GroupDimensions {
    #[verifier::type_invariant]
    closed spec fn non_empty(self) -> bool {
        self.0@.len() > 0
    }

    /// Wraps `items`; fails with `EmptyGroupDimensions` exactly when it is empty.
    pub fn new(items: Vec<String>) -> (r: Result<Self, Error>)
        ensures
            match r {
                Ok(v) => items@.len() > 0 && v@ == items@,
                Err(e) => items@.len() == 0 && e == Error::EmptyGroupDimensions,
            },
    {
        if items.len() == 0 {
            return Err(Error::EmptyGroupDimensions);
        }
        Ok(GroupDimensions(items))
    }

    /// The items, in wire order (never empty).
    pub fn as_slice(&self) -> (r: &[String])
        ensures
            r@ == self@,
            r@.len() > 0,
    {
        proof {
            use_type_invariant(self);
        }
        self.0.as_slice()
    }

    /// Consumes the list, returning its items (never empty).
    pub fn into_inner(self) -> (r: Vec<String>)
        ensures
            r@ == self@,
            r@.len() > 0,
    {
        proof {
            use_type_invariant(&self);
        }
        self.0
    }
}

impl vstd::std_specs::convert::FromSpecImpl<GroupDimensions> for Vec<String> {
    open spec fn obeys_from_spec() -> bool {
        true
    }

    closed spec fn from_spec(v: GroupDimensions) -> Vec<String> {
        v.0
    }
}

impl From<GroupDimensions> for Vec<String> {
    fn from(v: GroupDimensions) -> (r: Vec<String>)
        ensures
            r@ == v@,
    {
        v.0
    }
}

impl vstd::std_specs::convert::TryFromSpecImpl<Vec<String>> for GroupDimensions {
    open spec fn obeys_try_from_spec() -> bool {
        true
    }

    closed spec fn try_from_spec(items: Vec<String>) -> Result<Self, Error> {
        if items@.len() == 0 {
            Err(Error::EmptyGroupDimensions)
        } else {
            Ok(GroupDimensions(items))
        }
    }
}

impl TryFrom<Vec<String>> for GroupDimensions {
    type Error = Error;

    fn try_from(items: Vec<String>) -> (r: Result<Self, Error>)
        ensures
            match r {
                Ok(v) => items@.len() > 0 && v@ == items@,
                Err(e) => items@.len() == 0 && e == Error::EmptyGroupDimensions,
            },
    {
        if items.len() == 0 {
            Err(Error::EmptyGroupDimensions)
        } else {
            Ok(GroupDimensions(items))
        }
    }
}

/// A group of dimensions: its identifiable metadata and the ids of its dimensions.
#[derive(Clone, Debug, PartialEq, Eq, Hash)]
pub struct Group {
    /// The group's metadata.
    pub metadata: IdentifiableMetadata,
    /// The ids of the dimensions in the group.
    pub dimensions: GroupDimensions,
}

impl IdentifiableArtefact for Group {
    open spec fn spec_id(&self) -> Seq<char> {
        self.metadata.spec_id()
    }

    open spec fn spec_urn(&self) -> Option<Seq<char>> {
        self.metadata.spec_urn()
    }

    open spec fn spec_uri(&self) -> Option<Seq<char>> {
        self.metadata.spec_uri()
    }

    open spec fn spec_annotations(&self) -> Seq<Annotation> {
        self.metadata.spec_annotations()
    }

    open spec fn spec_links(&self) -> Seq<Link> {
        self.metadata.spec_links()
    }

    fn id(&self) -> (r: &str) {
        self.metadata.id()
    }

    fn urn(&self) -> (r: Option<&str>) {
        self.metadata.urn()
    }

    fn uri(&self) -> (r: Option<&str>) {
        self.metadata.uri()
    }

    fn annotations(&self) -> (r: &[Annotation]) {
        self.metadata.annotations()
    }

    fn links(&self) -> (r: &[Link]) {
        self.metadata.links()
    }
}

/// Whether an optional stated id agrees with a schema-fixed one: absent, or equal to it.
pub open spec fn fixed_id_ok(id: Option<String>, fixed: Seq<char>) -> bool {
    id matches Some(s) ==> s@ == fixed
}

/// Whether `e` is the mismatch error for a stated id that differs from the fixed one.
pub open spec fn is_fixed_id_error(e: Error, id: Option<String>) -> bool {
    e matches Error::FixedAttributeMismatch { attribute, value } && attribute@ == "id"@ && (
    id matches Some(s) && value@ == s@)
}

/// The dimension list: the dimensions of the ordered key in wire order, the optional time
/// dimension, and the list's own identity members.
#[derive(Clone, Debug, PartialEq, Eq, Hash)]
pub struct DimensionList {
    id: Option<String>,
    /// The list's annotations.
    pub annotations: Vec<Annotation>,
    /// The list's links.
    pub links: Vec<Link>,
    /// The list's URN, if any.
    pub urn: Option<String>,
    dimensions: Vec<Dimension>,
    /// The time dimension, if any.
    pub time_dimension: Option<TimeDimension>,
}

impl DimensionList {
    /// The list's annotations, in wire order.
    pub closed spec fn spec_annotations(&self) -> Seq<Annotation> {
        self.annotations@
    }

    /// The list's links, in wire order.
    pub closed spec fn spec_links(&self) -> Seq<Link> {
        self.links@
    }

    /// The list's URN, if any.
    pub closed spec fn spec_urn(&self) -> Option<Seq<char>> {
        opt_chars(self.urn)
    }

    /// The stated id, if any.
    pub closed spec fn spec_stated_id(&self) -> Option<Seq<char>> {
        opt_chars(self.id)
    }

    /// The dimensions, in wire order.
    pub closed spec fn spec_dimensions(&self) -> Seq<Dimension> {
        self.dimensions@
    }

    /// The time dimension, if any.
    pub closed spec fn spec_time_dimension(&self) -> Option<TimeDimension> {
        self.time_dimension
    }

    /// Builds the list. A stated id other than `DimensionDescriptor` fails with
    /// `FixedAttributeMismatch`; otherwise an empty `dimensions` fails with
    /// `EmptyDimensionList`.
    pub fn new(
        id: Option<String>,
        dimensions: Vec<Dimension>,
        time_dimension: Option<TimeDimension>,
        annotations: Vec<Annotation>,
        links: Vec<Link>,
        urn: Option<String>,
    ) -> (r: Result<Self, Error>)
        ensures
            match r {
                Ok(l) => {
                    &&& fixed_id_ok(id, "DimensionDescriptor"@)
                    &&& dimensions@.len() > 0
                    &&& l.spec_stated_id() == opt_chars(id)
                    &&& l.spec_dimensions() == dimensions@
                    &&& l.spec_time_dimension() == time_dimension
                    &&& l.spec_annotations() == annotations@
                    &&& l.spec_links() == links@
                    &&& l.spec_urn() == opt_chars(urn)
                },
                Err(e) => if !fixed_id_ok(id, "DimensionDescriptor"@) {
                    is_fixed_id_error(e, id)
                } else {
                    dimensions@.len() == 0 && e == Error::EmptyDimensionList
                },
            },
    {
        match validate_fixed("id", opt_as_str(&id), "DimensionDescriptor") {
            Ok(()) => {},
            Err(e) => {
                return Err(e);
            },
        }
        if dimensions.len() == 0 {
            return Err(Error::EmptyDimensionList);
        }
        Ok(DimensionList { id, annotations, links, urn, dimensions, time_dimension })
    }

    /// The id as the wire carried it (the fixed `DimensionDescriptor` when stated).
    pub fn stated_id(&self) -> (r: Option<&str>)
        ensures
            opt_str_chars(r) == self.spec_stated_id(),
    {
        opt_as_str(&self.id)
    }

    /// The dimensions, in wire order.
    pub fn dimensions(&self) -> (r: &[Dimension])
        ensures
            r@ == self.spec_dimensions(),
    {
        self.dimensions.as_slice()
    }

    /// Appends a dimension, keeping wire order.
    pub fn push(&mut self, dimension: Dimension)
        ensures
            final(self).spec_dimensions() == old(self).spec_dimensions().push(dimension),
            final(self).spec_stated_id() == old(self).spec_stated_id(),
            final(self).spec_time_dimension() == old(self).spec_time_dimension(),
            final(self).spec_annotations() == old(self).spec_annotations(),
            final(self).spec_links() == old(self).spec_links(),
            final(self).spec_urn() == old(self).spec_urn(),
    {
        self.dimensions.push(dimension);
    }

    /// The first dimension whose effective id is `id`, in wire order.
    pub fn get(&self, id: &str) -> (r: Option<&Dimension>)
        ensures
            match r {
                Some(x) => first_with_id(self.spec_dimensions(), id@) == Some(*x),
                None => first_with_id(self.spec_dimensions(), id@) is None,
            },
    {
        find_by_id(self.dimensions.as_slice(), id)
    }

    /// An iterator over the dimensions, in wire order.
    pub fn iter(&self) -> (r: core::slice::Iter<'_, Dimension>)
        ensures
            vstd::std_specs::iter::IteratorSpec::remaining(&r) == self.spec_dimensions().as_ref(),
    {
        broadcast use vstd::std_specs::slice::group_slice_axioms;
        self.dimensions.as_slice().iter()
    }
}

/// The attributes among attribute-list members, in order.
pub open spec fn attributes_of(members: Seq<AttributeListMember>) -> Seq<Attribute>
    decreases members.len(),
{
    if members.len() == 0 {
        Seq::empty()
    } else {
        let rest = attributes_of(members.drop_last());
        match members.last() {
            AttributeListMember::Attribute(a) => rest.push(a),
            AttributeListMember::MetadataAttributeUsage(_) => rest,
        }
    }
}

/// The metadata-attribute usages among attribute-list members, in order.
pub open spec fn usages_of(members: Seq<AttributeListMember>) -> Seq<MetadataAttributeUsage>
    decreases members.len(),
{
    if members.len() == 0 {
        Seq::empty()
    } else {
        let rest = usages_of(members.drop_last());
        match members.last() {
            AttributeListMember::MetadataAttributeUsage(u) => rest.push(u),
            AttributeListMember::Attribute(_) => rest,
        }
    }
}

/// The attribute list: attributes and metadata-attribute usages interleaved in wire order,
/// and the list's own identity members.
#[derive(Clone, Debug, PartialEq, Eq, Hash)]
pub struct AttributeList {
    id: Option<String>,
    /// The list's annotations.
    pub annotations: Vec<Annotation>,
    /// The list's links.
    pub links: Vec<Link>,
    /// The list's URN, if any.
    pub urn: Option<String>,
    members: Vec<AttributeListMember>,
}

impl AttributeList {
    /// The list's annotations, in wire order.
    pub closed spec fn spec_annotations(&self) -> Seq<Annotation> {
        self.annotations@
    }

    /// The list's links, in wire order.
    pub closed spec fn spec_links(&self) -> Seq<Link> {
        self.links@
    }

    /// The list's URN, if any.
    pub closed spec fn spec_urn(&self) -> Option<Seq<char>> {
        opt_chars(self.urn)
    }

    /// The stated id, if any.
    pub closed spec fn spec_stated_id(&self) -> Option<Seq<char>> {
        opt_chars(self.id)
    }

    /// The members, in wire order.
    pub closed spec fn spec_members(&self) -> Seq<AttributeListMember> {
        self.members@
    }

    /// Builds the list. A stated id other than `AttributeDescriptor` fails with
    /// `FixedAttributeMismatch`; otherwise an empty `members` fails with
    /// `EmptyAttributeList`.
    pub fn new(
        id: Option<String>,
        members: Vec<AttributeListMember>,
        annotations: Vec<Annotation>,
        links: Vec<Link>,
        urn: Option<String>,
    ) -> (r: Result<Self, Error>)
        ensures
            match r {
                Ok(l) => {
                    &&& fixed_id_ok(id, "AttributeDescriptor"@)
                    &&& members@.len() > 0
                    &&& l.spec_stated_id() == opt_chars(id)
                    &&& l.spec_members() == members@
                    &&& l.spec_annotations() == annotations@
                    &&& l.spec_links() == links@
                    &&& l.spec_urn() == opt_chars(urn)
                },
                Err(e) => if !fixed_id_ok(id, "AttributeDescriptor"@) {
                    is_fixed_id_error(e, id)
                } else {
                    members@.len() == 0 && e == Error::EmptyAttributeList
                },
            },
    {
        match validate_fixed("id", opt_as_str(&id), "AttributeDescriptor") {
            Ok(()) => {},
            Err(e) => {
                return Err(e);
            },
        }
        if members.len() == 0 {
            return Err(Error::EmptyAttributeList);
        }
        Ok(AttributeList { id, annotations, links, urn, members })
    }

    /// The id as the wire carried it (the fixed `AttributeDescriptor` when stated).
    pub fn stated_id(&self) -> (r: Option<&str>)
        ensures
            opt_str_chars(r) == self.spec_stated_id(),
    {
        opt_as_str(&self.id)
    }

    /// The members, in wire order.
    pub fn members(&self) -> (r: &[AttributeListMember])
        ensures
            r@ == self.spec_members(),
    {
        self.members.as_slice()
    }

    /// Appends a member, keeping wire order.
    pub fn push(&mut self, member: AttributeListMember)
        ensures
            final(self).spec_members() == old(self).spec_members().push(member),
            final(self).spec_stated_id() == old(self).spec_stated_id(),
            final(self).spec_annotations() == old(self).spec_annotations(),
            final(self).spec_links() == old(self).spec_links(),
            final(self).spec_urn() == old(self).spec_urn(),
    {
        self.members.push(member);
    }

    /// The attributes among the members, in wire order.
    pub fn attributes(&self) -> (r: Vec<&Attribute>)
        ensures
            r@.len() == attributes_of(self.spec_members()).len(),
            forall|i: int|
                0 <= i < r@.len() ==> *(#[trigger] r@[i]) == attributes_of(self.spec_members())[i],
    {
        let mut out: Vec<&Attribute> = Vec::new();
        let mut i: usize = 0;
        while i < self.members.len()
            invariant
                i <= self.members@.len(),
                out@.len() == attributes_of(self.members@.take(i as int)).len(),
                forall|k: int|
                    0 <= k < out@.len() ==> *(#[trigger] out@[k]) == attributes_of(
                        self.members@.take(i as int),
                    )[k],
            decreases self.members@.len() - i,
        {
            assert(self.members@.take(i + 1).drop_last() =~= self.members@.take(i as int));
            match &self.members[i] {
                AttributeListMember::Attribute(a) => {
                    out.push(a);
                },
                AttributeListMember::MetadataAttributeUsage(_) => {},
            }
            i = i + 1;
        }
        assert(self.members@.take(self.members@.len() as int) =~= self.members@);
        out
    }

    /// The metadata-attribute usages among the members, in wire order.
    pub fn usages(&self) -> (r: Vec<&MetadataAttributeUsage>)
        ensures
            r@.len() == usages_of(self.spec_members()).len(),
            forall|i: int|
                0 <= i < r@.len() ==> *(#[trigger] r@[i]) == usages_of(self.spec_members())[i],
    {
        let mut out: Vec<&MetadataAttributeUsage> = Vec::new();
        let mut i: usize = 0;
        while i < self.members.len()
            invariant
                i <= self.members@.len(),
                out@.len() == usages_of(self.members@.take(i as int)).len(),
                forall|k: int|
                    0 <= k < out@.len() ==> *(#[trigger] out@[k]) == usages_of(
                        self.members@.take(i as int),
                    )[k],
            decreases self.members@.len() - i,
        {
            assert(self.members@.take(i + 1).drop_last() =~= self.members@.take(i as int));
            match &self.members[i] {
                AttributeListMember::MetadataAttributeUsage(u) => {
                    out.push(u);
                },
                AttributeListMember::Attribute(_) => {},
            }
            i = i + 1;
        }
        assert(self.members@.take(self.members@.len() as int) =~= self.members@);
        out
    }

    /// The first attribute (not metadata-attribute usage) whose effective id is `id`, in wire
    /// order.
    pub fn get(&self, id: &str) -> (r: Option<&Attribute>)
        ensures
            match r {
                Some(x) => first_with_id(attributes_of(self.spec_members()), id@) == Some(*x),
                None => first_with_id(attributes_of(self.spec_members()), id@) is None,
            },
    {
        let attrs = self.attributes();
        let ghost s = attributes_of(self.spec_members());
        proof {
            lemma_first_id_index(s, id@, 0);
        }
        let mut i: usize = 0;
        while i < attrs.len()
            invariant
                s == attributes_of(self.spec_members()),
                attrs@.len() == s.len(),
                forall|k: int| 0 <= k < attrs@.len() ==> *(#[trigger] attrs@[k]) == s[k],
                i <= s.len(),
                first_id_index(s, id@, 0) == first_id_index(s, id@, i as int),
            decreases s.len() - i,
        {
            let a: &Attribute = attrs[i];
            assert(*a == s[i as int]);
            if str_eq(a.id(), id) {
                assert(first_id_index(s, id@, i as int) == i);
                return Some(a);
            }
            i = i + 1;
        }
        None
    }
}

/// The measure list: the measures in wire order and the list's own identity members.
#[derive(Clone, Debug, PartialEq, Eq, Hash)]
pub struct MeasureList {
    id: Option<String>,
    /// The list's annotations.
    pub annotations: Vec<Annotation>,
    /// The list's links.
    pub links: Vec<Link>,
    /// The list's URN, if any.
    pub urn: Option<String>,
    measures: Vec<Measure>,
}

impl MeasureList {
    /// The list's annotations, in wire order.
    pub closed spec fn spec_annotations(&self) -> Seq<Annotation> {
        self.annotations@
    }

    /// The list's links, in wire order.
    pub closed spec fn spec_links(&self) -> Seq<Link> {
        self.links@
    }

    /// The list's URN, if any.
    pub closed spec fn spec_urn(&self) -> Option<Seq<char>> {
        opt_chars(self.urn)
    }

    /// The stated id, if any.
    pub closed spec fn spec_stated_id(&self) -> Option<Seq<char>> {
        opt_chars(self.id)
    }

    /// The measures, in wire order.
    pub closed spec fn spec_measures(&self) -> Seq<Measure> {
        self.measures@
    }

    /// Builds the list. A stated id other than `MeasureDescriptor` fails with
    /// `FixedAttributeMismatch`; otherwise an empty `measures` fails with `EmptyMeasureList`.
    pub fn new(
        id: Option<String>,
        measures: Vec<Measure>,
        annotations: Vec<Annotation>,
        links: Vec<Link>,
        urn: Option<String>,
    ) -> (r: Result<Self, Error>)
        ensures
            match r {
                Ok(l) => {
                    &&& fixed_id_ok(id, "MeasureDescriptor"@)
                    &&& measures@.len() > 0
                    &&& l.spec_stated_id() == opt_chars(id)
                    &&& l.spec_measures() == measures@
                    &&& l.spec_annotations() == annotations@
                    &&& l.spec_links() == links@
                    &&& l.spec_urn() == opt_chars(urn)
                },
                Err(e) => if !fixed_id_ok(id, "MeasureDescriptor"@) {
                    is_fixed_id_error(e, id)
                } else {
                    measures@.len() == 0 && e == Error::EmptyMeasureList
                },
            },
    {
        match validate_fixed("id", opt_as_str(&id), "MeasureDescriptor") {
            Ok(()) => {},
            Err(e) => {
                return Err(e);
            },
        }
        if measures.len() == 0 {
            return Err(Error::EmptyMeasureList);
        }
        Ok(MeasureList { id, annotations, links, urn, measures })
    }

    /// The id as the wire carried it (the fixed `MeasureDescriptor` when stated).
    pub fn stated_id(&self) -> (r: Option<&str>)
        ensures
            opt_str_chars(r) == self.spec_stated_id(),
    {
        opt_as_str(&self.id)
    }

    /// The measures, in wire order.
    pub fn measures(&self) -> (r: &[Measure])
        ensures
            r@ == self.spec_measures(),
    {
        self.measures.as_slice()
    }

    /// Appends a measure, keeping wire order.
    pub fn push(&mut self, measure: Measure)
        ensures
            final(self).spec_measures() == old(self).spec_measures().push(measure),
            final(self).spec_stated_id() == old(self).spec_stated_id(),
            final(self).spec_annotations() == old(self).spec_annotations(),
            final(self).spec_links() == old(self).spec_links(),
            final(self).spec_urn() == old(self).spec_urn(),
    {
        self.measures.push(measure);
    }

    /// The first measure whose effective id is `id`, in wire order.
    pub fn get(&self, id: &str) -> (r: Option<&Measure>)
        ensures
            match r {
                Some(x) => first_with_id(self.spec_measures(), id@) == Some(*x),
                None => first_with_id(self.spec_measures(), id@) is None,
            },
    {
        find_by_id(self.measures.as_slice(), id)
    }

    /// An iterator over the measures, in wire order.
    pub fn iter(&self) -> (r: core::slice::Iter<'_, Measure>)
        ensures
            vstd::std_specs::iter::IteratorSpec::remaining(&r) == self.spec_measures().as_ref(),
    {
        broadcast use vstd::std_specs::slice::group_slice_axioms;
        self.measures.as_slice().iter()
    }
}

} // verus!

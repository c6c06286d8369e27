//! Cross-artefact references: the agency, id and version (and, for an item, its scheme) that
//! name a maintained artefact or an item within one. They are structural references, carried
//! verbatim; resolving them is a registry's concern.
use crate::version_ref::VersionRef;
use vstd::prelude::*;

verus! {

/// A reference to a codelist.
#[derive(Clone, Debug, PartialEq, Eq, Hash)]
pub struct CodelistReference {
    /// The maintenance agency id.
    pub agency: String,
    /// The codelist id.
    pub id: String,
    /// The referenced version (possibly wildcarded).
    pub version: VersionRef,
}

/// A reference to a value list.
#[derive(Clone, Debug, PartialEq, Eq, Hash)]
pub struct ValueListReference {
    /// The maintenance agency id.
    pub agency: String,
    /// The value list id.
    pub id: String,
    /// The referenced version (possibly wildcarded).
    pub version: VersionRef,
}

/// A reference to a concept: the concept scheme that holds it, and the concept's id there.
#[derive(Clone, Debug, PartialEq, Eq, Hash)]
pub struct ConceptReference {
    /// The maintenance agency of the concept scheme.
    pub agency: String,
    /// The concept scheme id.
    pub scheme_id: String,
    /// The referenced concept scheme version (possibly wildcarded).
    pub version: VersionRef,
    /// The concept's id within the scheme.
    pub id: String,
}

/// A reference to a data structure definition.
#[derive(Clone, Debug, PartialEq, Eq, Hash)]
pub struct DataStructureReference {
    /// The maintenance agency id.
    pub agency: String,
    /// The data structure id.
    pub id: String,
    /// The referenced version (possibly wildcarded).
    pub version: VersionRef,
}

/// A reference to a dataflow.
#[derive(Clone, Debug, PartialEq, Eq, Hash)]
pub struct DataflowReference {
    /// The maintenance agency id.
    pub agency: String,
    /// The dataflow id.
    pub id: String,
    /// The referenced version (possibly wildcarded).
    pub version: VersionRef,
}

/// A reference to a provision agreement.
#[derive(Clone, Debug, PartialEq, Eq, Hash)]
pub struct ProvisionAgreementReference {
    /// The maintenance agency id.
    pub agency: String,
    /// The provision agreement id.
    pub id: String,
    /// The referenced version (possibly wildcarded).
    pub version: VersionRef,
}

/// A reference to a data provider: the data provider scheme that holds it, and the
/// provider's id there.
#[derive(Clone, Debug, PartialEq, Eq, Hash)]
pub struct DataProviderReference {
    /// The maintenance agency of the data provider scheme.
    pub agency: String,
    /// The data provider scheme id.
    pub scheme_id: String,
    /// The data provider scheme version (possibly wildcarded).
    pub version: VersionRef,
    /// The data provider's id within the scheme.
    pub id: String,
}

} // verus!

//! Annotations and links: the free-form notes and typed associations every identifiable
//! artefact may carry. All fields are public and unconstrained, so each type mirrors its
//! wire form one to one.
use crate::localised::LocalisedString;
use vstd::prelude::*;

verus! {

/// An `AnnotationURL`: one URL with at most one language tag. Both are kept verbatim.
#[derive(Clone, Debug, PartialEq, Eq, Hash)]
pub struct AnnotationUrl {
    /// The URL payload (`xs:anyURI` content), not validated.
    pub url: String,
    /// The `xml:lang` tag, if stated, not validated.
    pub lang: Option<String>,
}

/// An `Annotation`: an optional id, type, title and value, any number of URLs, and optional
/// localised text. Every field may be absent, so there is no construction invariant.
#[derive(Clone, Debug, PartialEq, Eq, Hash)]
pub struct Annotation {
    /// The optional `id` attribute.
    pub id: Option<String>,
    /// The optional free-form type label (`AnnotationType`).
    pub annotation_type: Option<String>,
    /// The optional title (`AnnotationTitle`).
    pub annotation_title: Option<String>,
    /// The associated URLs (`AnnotationURL`); empty when absent.
    pub annotation_urls: Vec<AnnotationUrl>,
    /// The optional non-localised value (`AnnotationValue`).
    pub annotation_value: Option<String>,
    /// The optional localised text (`AnnotationText`).
    pub texts: Option<LocalisedString>,
}

impl Default for Annotation {
    /// The annotation with every field absent and no URL.
    fn default() -> (r: Self)
        ensures
            r.id is None,
            r.annotation_type is None,
            r.annotation_title is None,
            r.annotation_urls@.len() == 0,
            r.annotation_value is None,
            r.texts is None,
    {
        Annotation {
            id: None,
            annotation_type: None,
            annotation_title: None,
            annotation_urls: Vec::new(),
            annotation_value: None,
            texts: None,
        }
    }
}

/// A `Link`: a typed association to another resource, with an optional URN of the target and
/// an optional format hint. Every field is kept verbatim.
#[derive(Clone, Debug, PartialEq, Eq, Hash)]
pub struct Link {
    /// The kind of object linked to (the required `rel` attribute).
    pub rel: String,
    /// The target URL (the required `url` attribute).
    pub url: String,
    /// The registry URN of the target, if stated.
    pub urn: Option<String>,
    /// The format hint (the `type` attribute), if stated.
    pub link_type: Option<String>,
}

} // verus!

//! Pending-call descriptions and payload assembly.
//!
//! A `SignatureRequest` is the immutable description of one outbound call
//! as the signing layer sees it: method, path, the serialized payload
//! text, and a caller-assigned request id.  The payload of the note
//! detail endpoint is assembled here as an ordered list of tagged fields;
//! the shell turns that list into the JSON body it sends.

use vstd::prelude::*;
use crate::fingerprint::{fingerprint, spec_fingerprint};
use vstd::utf8::encode_utf8;

verus! {

/// HTTP method of an outbound call.
#[derive(Clone, Copy, PartialEq, Eq, Structural, Debug)]
pub enum HttpMethod {
    Get,
    Post,
}

/// The byte that distinguishes the method inside a fingerprint.
pub open spec fn spec_method_tag(m: HttpMethod) -> u8 {
    match m {
        HttpMethod::Get => 1,
        HttpMethod::Post => 2,
    }
}

/// An immutable description of one pending outbound call.
pub struct SignatureRequest {
    /// Monotonically assigned by the caller; correlates concurrent
    /// engine queries with their responses.
    pub id: u64,
    pub method: HttpMethod,
    /// Request path, such as `/api/sns/web/v1/feed`.
    pub path: String,
    /// The serialized payload text the call will carry.
    pub payload: String,
}

impl SignatureRequest {
    /// The fingerprint that keys the fallback cache for this call.
    pub fn fingerprint(&self) -> (r: u64)
        ensures
            r == spec_fingerprint(
                spec_method_tag(self.method),
                encode_utf8(self.path@),
                encode_utf8(self.payload@),
            ),
    {
        let tag: u8 = match self.method {
            HttpMethod::Get => 1,
            HttpMethod::Post => 2,
        };
        fingerprint(tag, self.path.as_str().as_bytes(), self.payload.as_str().as_bytes())
    }
}

/// One field of a JSON object payload, in the order it is emitted.
pub struct PayloadField {
    pub key: String,
    pub value: FieldValue,
}

/// The value of one payload field.
pub enum FieldValue {
    /// A JSON string.
    Text(String),
    /// A JSON array of strings.
    TextList(Vec<String>),
    /// Already-serialized JSON, spliced in verbatim.
    Raw(String),
}

/// Query parameters of the keyword search endpoints.
pub struct SearchParams {
    pub keyword: String,
}

/// Query parameters of the search filter endpoint.
pub struct SearchFilterParams {
    pub keyword: String,
    pub search_id: String,
}

/// Parameters of the note detail endpoint.
pub struct NoteDetailRequest {
    /// The note to fetch.
    pub source_note_id: String,
    /// Image formats the caller accepts.
    pub image_formats: Vec<String>,
    /// Extra serialized-JSON parameters, spliced into the payload.
    pub extra: Option<String>,
    /// Where the caller came from.
    pub xsec_source: String,
    /// Security token handed out with the note listing.
    pub xsec_token: String,
}

/// The image formats a note detail request asks for when the caller
/// names none: `jpg`, `webp`, `avif`.
pub fn default_image_formats() -> (r: Vec<String>)
    ensures
        r@.len() == 3,
        r@[0]@ == "jpg"@,
        r@[1]@ == "webp"@,
        r@[2]@ == "avif"@,
{
    let mut v: Vec<String> = Vec::new();
    v.push("jpg".to_owned());
    v.push("webp".to_owned());
    v.push("avif".to_owned());
    v
}

/// The `xsec_source` a note detail request carries when the caller names
/// none: `pc_feed`.
pub fn default_xsec_source() -> (r: String)
    ensures
        r@ == "pc_feed"@,
{
    "pc_feed".to_owned()
}

impl NoteDetailRequest {
    /// A request for one note with every optional parameter at its
    /// default.
    pub fn new(source_note_id: String, xsec_token: String) -> (r: NoteDetailRequest)
        ensures
            r.source_note_id == source_note_id,
            r.xsec_token == xsec_token,
            r.image_formats@.len() == 3,
            r.image_formats@[0]@ == "jpg"@,
            r.image_formats@[1]@ == "webp"@,
            r.image_formats@[2]@ == "avif"@,
            r.extra is None,
            r.xsec_source@ == "pc_feed"@,
    {
        NoteDetailRequest {
            source_note_id,
            image_formats: default_image_formats(),
            extra: None,
            xsec_source: default_xsec_source(),
            xsec_token,
        }
    }

    /// The ordered payload fields of the note detail call: the note id,
    /// the accepted image formats, `xsec_source` and `xsec_token`, and —
    /// only when present — the extra parameters.
    pub fn payload_fields(self) -> (r: Vec<PayloadField>)
        ensures
            r@.len() == (if self.extra is Some {
                5int
            } else {
                4int
            }),
            r@[0].key@ == "source_note_id"@,
            r@[0].value matches FieldValue::Text(t) && t == self.source_note_id,
            r@[1].key@ == "image_formats"@,
            r@[1].value matches FieldValue::TextList(l) && l == self.image_formats,
            r@[2].key@ == "xsec_source"@,
            r@[2].value matches FieldValue::Text(t) && t == self.xsec_source,
            r@[3].key@ == "xsec_token"@,
            r@[3].value matches FieldValue::Text(t) && t == self.xsec_token,
            self.extra matches Some(e) ==> (r@[4].key@ == "extra"@ && (r@[4].value
                matches FieldValue::Raw(x) && x == e)),
    {
        let mut fields: Vec<PayloadField> = Vec::new();
        fields.push(
            PayloadField {
                key: "source_note_id".to_owned(),
                value: FieldValue::Text(self.source_note_id),
            },
        );
        fields.push(
            PayloadField {
                key: "image_formats".to_owned(),
                value: FieldValue::TextList(self.image_formats),
            },
        );
        fields.push(
            PayloadField { key: "xsec_source".to_owned(), value: FieldValue::Text(self.xsec_source) },
        );
        fields.push(
            PayloadField { key: "xsec_token".to_owned(), value: FieldValue::Text(self.xsec_token) },
        );
        match self.extra {
            Some(e) => {
                fields.push(PayloadField { key: "extra".to_owned(), value: FieldValue::Raw(e) });
            },
            None => {},
        }
        fields
    }
}

} // verus!

//! Signature header sets and signing results.
//!
//! The remote platform rejects any call that does not carry its
//! anti-tampering headers.  A header set is complete by construction: a
//! `SignatureHeaders` value always holds every required header, so a
//! signing outcome is either a full set or a typed error, never a partial
//! set.

use vstd::prelude::*;

verus! {

/// The complete set of anti-tampering headers attached to one outbound
/// call.  Field names follow the wire header names `x-s`, `x-t` and
/// `x-s-common`.
pub struct SignatureHeaders {
    /// Value of the `x-s` header: the signature proper.
    pub x_s: String,
    /// Value of the `x-t` header: the timestamp the signature covers.
    pub x_t: String,
    /// Value of the `x-s-common` header: the shared environment blob.
    pub x_s_common: String,
}

/// Where a signing result was obtained from.
#[derive(Clone, Copy, PartialEq, Eq, Structural, Debug)]
pub enum SignatureSource {
    /// Computed on demand by the live signing engine.
    Engine,
    /// Served from the fallback cache of last-known-good headers.
    Fallback,
}

/// One signing outcome: a complete header set, its provenance, and the
/// window in which the caller may use it.
pub struct SignatureResult {
    pub headers: SignatureHeaders,
    pub source: SignatureSource,
    /// When the result was produced, in milliseconds.
    pub issued_at_ms: u64,
    /// How long the result stays usable, in milliseconds.
    pub valid_for_ms: u64,
}

/// Two header sets carry the same header values.
pub open spec fn headers_eq(a: SignatureHeaders, b: SignatureHeaders) -> bool {
    a.x_s@ == b.x_s@ && a.x_t@ == b.x_t@ && a.x_s_common@ == b.x_s_common@
}

impl SignatureHeaders {
    /// An independently owned copy carrying the same header values.
    pub fn duplicate(&self) -> (r: SignatureHeaders)
        ensures
            headers_eq(r, *self),
    {
        SignatureHeaders {
            x_s: self.x_s.clone(),
            x_t: self.x_t.clone(),
            x_s_common: self.x_s_common.clone(),
        }
    }
}

} // verus!

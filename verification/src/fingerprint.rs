//! Request fingerprints for the fallback cache.
//!
//! Two outbound calls are "equivalent" for fallback purposes when method,
//! path and serialized payload agree; the fingerprint is a 64-bit FNV-1a
//! hash over those bytes, with a separator byte between the parts so that
//! moving a byte across a boundary changes the input stream.

use vstd::prelude::*;
use vstd::wrapping::u64_specs;

verus! {

/// FNV-1a 64-bit offset basis.
pub const FNV_OFFSET: u64 = 0xcbf29ce484222325;

/// FNV-1a 64-bit prime.
pub const FNV_PRIME: u64 = 0x100000001b3;

/// One FNV-1a step: fold the byte `b` into the running hash `h`.
pub open spec fn spec_fnv_step(h: u64, b: u8) -> u64 {
    u64_specs::wrapping_mul(h ^ (b as u64), FNV_PRIME)
}

/// FNV-1a over a byte sequence, starting from the running hash `h`.
pub open spec fn spec_fnv(h: u64, bytes: Seq<u8>) -> u64
    decreases bytes.len(),
{
    if bytes.len() == 0 {
        h
    } else {
        spec_fnv(spec_fnv_step(h, bytes[0]), bytes.drop_first())
    }
}

/// The fingerprint of one pending call: FNV-1a over the method tag, the
/// path bytes and the payload bytes, each part closed by a zero byte.
pub open spec fn spec_fingerprint(method_tag: u8, path: Seq<u8>, payload: Seq<u8>) -> u64 {
    spec_fnv(
        spec_fnv_step(
            spec_fnv(spec_fnv_step(spec_fnv_step(FNV_OFFSET, method_tag), 0), path),
            0,
        ),
        payload,
    )
}

/// FNV-1a over `bytes`, continuing the running hash `h`.
fn fnv_accumulate(h: u64, bytes: &[u8]) -> (r: u64)
    ensures
        r == spec_fnv(h, bytes@),
{
    let mut acc: u64 = h;
    let mut i: usize = 0;
    proof {
        assert(bytes@.skip(0) =~= bytes@);
    }
    while i < bytes.len()
        invariant
            i <= bytes@.len(),
            spec_fnv(acc, bytes@.skip(i as int)) == spec_fnv(h, bytes@),
        decreases bytes@.len() - i,
    {
        proof {
            assert(bytes@.skip(i as int)[0] == bytes@[i as int]);
            assert(bytes@.skip(i as int).drop_first() =~= bytes@.skip(i as int + 1));
        }
        acc = (acc ^ (bytes[i] as u64)).wrapping_mul(FNV_PRIME);
        i = i + 1;
    }
    proof {
        assert(bytes@.skip(i as int) =~= Seq::<u8>::empty());
    }
    acc
}

/// The fingerprint that keys the fallback cache for one pending call.
pub fn fingerprint(method_tag: u8, path: &[u8], payload: &[u8]) -> (r: u64)
    ensures
        r == spec_fingerprint(method_tag, path@, payload@),
{
    let h0 = (FNV_OFFSET ^ (method_tag as u64)).wrapping_mul(FNV_PRIME);
    let h1 = (h0 ^ 0u64).wrapping_mul(FNV_PRIME);
    let h2 = fnv_accumulate(h1, path);
    let h3 = (h2 ^ 0u64).wrapping_mul(FNV_PRIME);
    fnv_accumulate(h3, payload)
}

} // verus!

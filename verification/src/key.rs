//! The view-dependent key that selects a pipeline variant.

use vstd::prelude::*;

verus! {

/// Number of the lowest bit of the multisample field inside a key.
pub const MSAA_SHIFT_BITS: u32 = 29;

/// Mask of the multisample field once shifted down to bit zero.
pub const MSAA_MASK_BITS: u32 = 7;

/// The multisample field of a key: its three highest bits.
pub open spec fn msaa_field_of(bits: u32) -> u32 {
    (bits >> MSAA_SHIFT_BITS) & MSAA_MASK_BITS
}

/// The sample count that a key's bits encode: two to the power held in the
/// multisample field.
pub open spec fn msaa_samples_of(bits: u32) -> u32 {
    1u32 << msaa_field_of(bits)
}

/// View-dependent flags of a mesh pipeline, as the raw bits of the engine's
/// mesh pipeline key.
#[derive(Clone, Copy, Debug, PartialEq, Eq, Hash)]
pub struct SpecializationKey {
    pub bits: u32,
}

/// Trusted: calls `bevy::pbr::MeshPipelineKey::msaa_samples` on the key rebuilt
/// from `bits` with `from_bits_truncate`. The multisample field is a declared
/// flag group of the key, so truncation keeps it, and the method returns one
/// shifted left by that field.
#[verifier::external_body]
fn key_msaa_samples(bits: u32) -> (n: u32)
    ensures
        n == msaa_samples_of(bits),
{
    bevy::pbr::MeshPipelineKey::from_bits_truncate(bits).msaa_samples()
}

impl SpecializationKey {
    /// The key with exactly these bits.
    pub fn from_bits(bits: u32) -> (key: SpecializationKey)
        ensures
            key.bits == bits,
    {
        SpecializationKey { bits }
    }

    /// The sample count this key asks for.
    pub open spec fn spec_msaa_samples(&self) -> u32 {
        msaa_samples_of(self.bits)
    }

    /// The sample count this key asks for, as the engine reads it.
    pub fn msaa_samples(&self) -> (n: u32)
        ensures
            n == self.spec_msaa_samples(),
    {
        key_msaa_samples(self.bits)
    }
}

/// A key's sample count is a power of two between 1 and 128, and it is 1
/// exactly when the multisample field is zero.
pub proof fn lemma_msaa_samples_by_field(bits: u32)
    ensures
        msaa_field_of(bits) <= 7,
        1 <= msaa_samples_of(bits) <= 128,
        msaa_samples_of(bits) == 1 <==> msaa_field_of(bits) == 0,
{
    let field: u32 = msaa_field_of(bits);
    assert(field <= 7) by (bit_vector)
        requires
            field == (bits >> 29u32) & 7u32,
    ;
    assert(1 <= (1u32 << field) <= 128 && ((1u32 << field) == 1 <==> field == 0)) by (bit_vector)
        requires
            field <= 7,
    ;
}

} // verus!

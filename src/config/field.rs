use vstd::prelude::*;

verus! {

/// `word` with the bits under `mask` replaced by `v` shifted to `shift`.
pub open spec fn spec_with_field(word: u32, mask: u32, shift: u32, v: u32) -> u32 {
    (word & !mask) | (v << shift)
}

/// Replace the bits under `mask` in `word` by `v` shifted to `shift`.
pub fn with_field(word: u32, mask: u32, shift: u32, v: u32) -> (r: u32)
    requires
        shift < 32,
    ensures
        r == spec_with_field(word, mask, shift, v),
{
    (word & !mask) | (v << shift)
}

/// A value that fits its field reads back from the word, and the bits outside
/// the field keep their values.
pub proof fn lemma_with_field(word: u32, mask: u32, shift: u32, v: u32)
    requires
        shift < 32,
        (v << shift) & !mask == 0,
        (v << shift) >> shift == v,
    ensures
        (spec_with_field(word, mask, shift, v) & mask) >> shift == v,
        spec_with_field(word, mask, shift, v) & !mask == word & !mask,
{
    assert(shift < 32 && (v << shift) & !mask == 0 && (v << shift) >> shift == v ==> ((((word & !mask)
        | (v << shift)) & mask) >> shift == v && ((word & !mask) | (v << shift)) & !mask == word
        & !mask)) by (bit_vector);
}

} // verus!

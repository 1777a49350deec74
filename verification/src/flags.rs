//! The status-flags engine.
//!
//! Pure functions computing the status-flag word that results from an
//! operation. Zero, Sign and Parity are derived generically from a result
//! value at a given bit width; Carry, Overflow and Adjust are never derivable
//! from a result alone and are supplied by the operation itself (see
//! `calculate`). Every flag update goes through one contract: the bits of a
//! `flags_to_set` mask are applied (computed from the result for Zero, Sign
//! and Parity; forced on otherwise), the bits of a `flags_to_clear` mask that
//! are not being set are zeroed, and every other bit of the flags word is
//! preserved.

use vstd::prelude::*;

use crate::registers::Width;

verus! {

/// Carry flag: set by an operation whose unsigned result did not fit.
pub const FLAG_CF: u64 = 0x1;

/// Parity flag: set when the low byte of a result has an even number of one
/// bits.
pub const FLAG_PF: u64 = 0x4;

/// Adjust flag: set by an operation that borrowed or carried out of the low
/// nibble.
pub const FLAG_AF: u64 = 0x10;

/// Zero flag: set when a result is zero at its operand width.
pub const FLAG_ZF: u64 = 0x40;

/// Sign flag: set when the highest bit of a result at its operand width is
/// one.
pub const FLAG_SF: u64 = 0x80;

/// Overflow flag: set by an operation whose signed result did not fit.
pub const FLAG_OF: u64 = 0x800;

/// The flags that are computed from a result value rather than forced on.
pub const RESULT_FLAGS: u64 = FLAG_PF | FLAG_ZF | FLAG_SF;

/// Zero iff the result, truncated to the operand width, is zero.
pub open spec fn spec_zf(w: Width, result: u64) -> bool {
    result & w.mask() == 0
}

/// Sign iff the highest bit of the result at the operand width is one.
pub open spec fn spec_sf(w: Width, result: u64) -> bool {
    result & w.sign_mask() != 0
}

/// Parity iff the low byte of the result has an even number of one bits.
pub open spec fn spec_pf(result: u64) -> bool {
    ((result ^ (result >> 1) ^ (result >> 2) ^ (result >> 3) ^ (result >> 4) ^ (result >> 5) ^ (
    result >> 6) ^ (result >> 7)) & 1) == 0
}

/// The Zero, Sign and Parity bits a result gives rise to at width `w`.
pub open spec fn spec_zsp(w: Width, result: u64) -> u64 {
    (if spec_zf(w, result) {
        FLAG_ZF
    } else {
        0
    }) | (if spec_sf(w, result) {
        FLAG_SF
    } else {
        0
    }) | (if spec_pf(result) {
        FLAG_PF
    } else {
        0
    })
}

/// The Zero, Sign and Parity bits that a result contributes, restricted to
/// the bits named in `set`.
pub open spec fn spec_result_flags(w: Width, set: u64, result: u64) -> u64 {
    spec_zsp(w, result) & set
}

/// The flags word after one update.
///
/// Bits in `set` are overwritten: Zero, Sign and Parity with values computed
/// from `result` at width `w`, any other bit with one. Bits in `clear` that
/// are not in `set` are zeroed. Every remaining bit keeps its old value.
pub open spec fn spec_flags_after(old_flags: u64, set: u64, clear: u64, result: u64, w: Width) -> u64 {
    (old_flags & !(clear | set)) | (set & !RESULT_FLAGS) | spec_result_flags(w, set, result)
}

/// Computes even parity of the low byte of `result`.
pub fn parity_even(result: u64) -> (r: bool)
    ensures
        r == spec_pf(result),
{
    let folded: u64 = result ^ (result >> 1) ^ (result >> 2) ^ (result >> 3) ^ (result >> 4) ^ (
    result >> 5) ^ (result >> 6) ^ (result >> 7);
    (folded & 1) == 0
}

/// Computes the Zero, Sign and Parity contribution of a result.
pub fn result_flags(w: Width, set: u64, result: u64) -> (r: u64)
    ensures
        r == spec_result_flags(w, set, result),
{
    let zf: u64 = if (result & w.mask_exec()) == 0 {
        FLAG_ZF
    } else {
        0
    };
    let sf: u64 = if (result & w.sign_mask_exec()) != 0 {
        FLAG_SF
    } else {
        0
    };
    let pf: u64 = if parity_even(result) {
        FLAG_PF
    } else {
        0
    };
    (zf | sf | pf) & set
}

/// Computes one flag-word update, per [`spec_flags_after`].
pub fn flags_after(old_flags: u64, set: u64, clear: u64, result: u64, w: Width) -> (r: u64)
    ensures
        r == spec_flags_after(old_flags, set, clear, result, w),
{
    (old_flags & !(clear | set)) | (set & !RESULT_FLAGS) | result_flags(w, set, result)
}

/// The result-derived flags (Zero, Sign, Parity) and the operation-supplied
/// flags (Carry, Overflow, Adjust) occupy disjoint bits.
pub proof fn lemma_flag_groups_disjoint()
    ensures
        (FLAG_ZF | FLAG_SF | FLAG_PF) & (FLAG_CF | FLAG_OF | FLAG_AF) == 0,
{
    assert(((0x40u64 | 0x80 | 0x4) & (0x1u64 | 0x800 | 0x10)) == 0) by (bit_vector);
}

/// A flag outside both masks of an update keeps its value.
pub proof fn lemma_flags_after_preserves_others(
    old_flags: u64,
    set: u64,
    clear: u64,
    result: u64,
    w: Width,
    flag: u64,
)
    requires
        flag & set == 0,
        flag & clear == 0,
    ensures
        spec_flags_after(old_flags, set, clear, result, w) & flag == old_flags & flag,
{
    let zsp = spec_zsp(w, result);
    assert(((old_flags & !(clear | set)) | (set & !(FLAG_PF | FLAG_ZF | FLAG_SF)) | (zsp & set))
        & flag == old_flags & flag) by (bit_vector)
        requires
            flag & set == 0,
            flag & clear == 0,
    ;
}

} // verus!

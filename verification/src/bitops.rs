//! Small facts about masking that the address decoders lean on.

use vstd::prelude::*;

verus! {

/// Masking can only clear bits, so the result never exceeds the mask.
pub broadcast proof fn lemma_u16_and_le(x: u16, m: u16)
    by (bit_vector)
    ensures
        #[trigger] (x & m) <= m,
{
}

/// Masking can only clear bits, so the result never exceeds the mask.
pub broadcast proof fn lemma_u8_and_le(x: u8, m: u8)
    by (bit_vector)
    ensures
        #[trigger] (x & m) <= m,
{
}

/// A bank index below the bank count keeps its whole window inside
/// `banks * size` bytes.
pub proof fn lemma_bank_window(bank: int, banks: int, size: int)
    by (nonlinear_arith)
    requires
        0 <= bank < banks,
        0 < size,
    ensures
        bank * size + size <= banks * size,
{
}

} // verus!

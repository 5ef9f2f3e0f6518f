//! Facts about setting, clearing and testing single bits of register values.
use vstd::prelude::*;

verus! {

/// The mask of bit `b` of a byte register.
pub open spec fn mask8(b: u8) -> u8 {
    (1u8 << b) as u8
}

/// Whether bit `b` of the byte `v` is set.
pub open spec fn bit8(v: u8, b: u8) -> bool {
    v & mask8(b) != 0
}

/// Whether bit `b` of the word `v` is set.
pub open spec fn bit32(v: u32, b: u32) -> bool {
    v & (1u32 << b) != 0
}

/// Setting bit `b` of a byte sets that bit and leaves every other bit as it was.
pub proof fn lemma_set_bit8(v: u8, b: u8)
    requires
        b < 8,
    ensures
        bit8(v | mask8(b), b),
        forall|c: u8| c < 8 && c != b ==> #[trigger] bit8(v | mask8(b), c) == bit8(v, c),
{
    assert((v | (1u8 << b)) & (1u8 << b) != 0) by (bit_vector)
        requires
            b < 8,
    ;
    assert forall|c: u8| c < 8 && c != b implies #[trigger] bit8(v | mask8(b), c) == bit8(v, c) by {
        assert(((v | (1u8 << b)) & (1u8 << c) != 0) == (v & (1u8 << c) != 0)) by (bit_vector)
            requires
                b < 8,
                c < 8,
                c != b,
        ;
    }
}

/// Clearing bit `b` of a byte clears that bit and leaves every other bit as it was.
pub proof fn lemma_clear_bit8(v: u8, b: u8)
    requires
        b < 8,
    ensures
        !bit8(v & !mask8(b), b),
        forall|c: u8| c < 8 && c != b ==> #[trigger] bit8(v & !mask8(b), c) == bit8(v, c),
{
    assert(v & !(1u8 << b) & (1u8 << b) == 0) by (bit_vector)
        requires
            b < 8,
    ;
    assert forall|c: u8| c < 8 && c != b implies #[trigger] bit8(v & !mask8(b), c) == bit8(v, c) by {
        assert(((v & !(1u8 << b)) & (1u8 << c) != 0) == (v & (1u8 << c) != 0)) by (bit_vector)
            requires
                b < 8,
                c < 8,
                c != b,
        ;
    }
}

/// The masks of the eight bits of a byte.
pub proof fn lemma_mask8_values()
    ensures
        mask8(0) == 1,
        mask8(1) == 2,
        mask8(2) == 4,
        mask8(3) == 8,
        mask8(4) == 16,
        mask8(5) == 32,
        mask8(6) == 64,
        mask8(7) == 128,
{
    assert(1u8 << 0u8 == 1u8 && 1u8 << 1u8 == 2u8 && 1u8 << 2u8 == 4u8 && 1u8 << 3u8 == 8u8
        && 1u8 << 4u8 == 16u8 && 1u8 << 5u8 == 32u8 && 1u8 << 6u8 == 64u8 && 1u8 << 7u8
        == 128u8) by (bit_vector);
}

} // verus!

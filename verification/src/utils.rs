//! Bit and address helpers shared by every component.

use vstd::prelude::*;

verus! {

/// The byte whose only set bit is bit `bit`.
pub open spec fn bit_mask(bit: u8) -> u8 {
    1u8 << bit
}

/// The 16-bit word whose only set bit is bit `bit`.
pub open spec fn bit_mask_u16(bit: u16) -> u16 {
    1u16 << bit
}

/// Whether bit `bit` of `input` is 1.
pub open spec fn bit_set(bit: u8, input: u8) -> bool {
    input & bit_mask(bit) != 0
}

/// `input` with bit `bit` set or cleared.
pub open spec fn with_bit(input: u8, bit: u8, on: bool) -> u8 {
    if on {
        input | bit_mask(bit)
    } else {
        input & !bit_mask(bit)
    }
}

/// The 16-bit word with `hi` as its upper byte and `lo` as its lower byte.
pub open spec fn word(lo: u8, hi: u8) -> u16 {
    (lo as int + 256 * (hi as int)) as u16
}

/// `dest` with the bits that `mask` selects taken from `source`.
pub open spec fn merged(dest: u16, source: u16, mask: u16) -> u16 {
    (dest & !mask) | (source & mask)
}

/// The page (upper byte) of an address.
pub open spec fn page_of(addr: u16) -> int {
    addr as int / 256
}

/// Tests bit `bit` of a byte.
pub fn bit_is_set(bit: u8, input: u8) -> (r: bool)
    requires
        bit < 8,
    ensures
        r == bit_set(bit, input),
{
    (input & (1u8 << bit)) != 0
}

/// Tests bit `bit` of a 16-bit word.
pub fn bit_is_set_u16(bit: u16, input: u16) -> (r: bool)
    requires
        bit < 16,
    ensures
        r == (input & bit_mask_u16(bit) != 0),
{
    (input & (1u16 << bit)) != 0
}

/// Sets bit `bit` of a byte.
pub fn set_bit(bit: u8, input: &mut u8)
    requires
        bit < 8,
    ensures
        *final(input) == *old(input) | bit_mask(bit),
{
    *input = *input | (1u8 << bit);
}

/// Clears bit `bit` of a byte.
pub fn clear_bit(bit: u8, input: &mut u8)
    requires
        bit < 8,
    ensures
        *final(input) == *old(input) & !bit_mask(bit),
{
    *input = *input & !(1u8 << bit);
}

/// Copies bit `bit` of `from` into `output_value`, leaving its other bits alone.
pub fn set_bit_from(bit: u8, from: u8, output_value: &mut u8)
    requires
        bit < 8,
    ensures
        *final(output_value) == (*old(output_value) & !bit_mask(bit)) | (from & bit_mask(bit)),
        *final(output_value) == with_bit(*old(output_value), bit, bit_set(bit, from)),
{
    let ghost before = *output_value;
    if bit_is_set(bit, from) {
        set_bit(bit, output_value);
    } else {
        clear_bit(bit, output_value);
    }
    proof {
        let m = 1u8 << bit;
        assert(from & m != 0 ==> (before | m) == (before & !m) | (from & m)) by (bit_vector)
            requires
                m == 1u8 << bit,
                bit < 8,
        ;
        assert(from & m == 0 ==> (before & !m) == (before & !m) | (from & m)) by (bit_vector);
    }
}

/// Replaces the bits of `dest` selected by `mask` with those of `source`.
pub fn set_bits_from_mask_u16(source: u16, mask: u16, dest: &mut u16)
    ensures
        *final(dest) == merged(*old(dest), source, mask),
{
    *dest = (*dest & !mask) | (source & mask);
}

/// Whether two addresses lie on one page of 256 bytes.
pub fn same_page(addr1: u16, addr2: u16) -> (r: bool)
    ensures
        r == (page_of(addr1) == page_of(addr2)),
{
    let addr1_page: u16 = addr1 / 256u16;
    let addr2_page: u16 = addr2 / 256u16;
    addr1_page == addr2_page
}

/// Assembles a little-endian 16-bit word from its two bytes.
pub fn make_word(lo: u8, hi: u8) -> (r: u16)
    ensures
        r == word(lo, hi),
        r as int == lo as int + 256 * (hi as int),
{
    let r: u16 = ((hi as u16) << 8) | (lo as u16);
    proof {
        assert((((hi as u16) << 8) | (lo as u16)) as int == lo as int + 256 * (hi as int))
            by (bit_vector);
    }
    r
}

} // verus!

//! Facts about bitwise operations on bytes and words, proved by the
//! bit-vector solver and shared by the hardware models.

use vstd::prelude::*;

verus! {

/// Byte addition modulo 256.
pub open spec fn wadd8(x: u8, y: u8) -> u8 {
    if x + y > 0xFF {
        (x + y - 0x100) as u8
    } else {
        (x + y) as u8
    }
}

/// Byte subtraction modulo 256.
pub open spec fn wsub8(x: u8, y: u8) -> u8 {
    if x - y < 0 {
        (x - y + 0x100) as u8
    } else {
        (x - y) as u8
    }
}

/// Word addition modulo 65536.
pub open spec fn wadd16(x: u16, y: u16) -> u16 {
    if x + y > 0xFFFF {
        (x + y - 0x10000) as u16
    } else {
        (x + y) as u16
    }
}

/// Word subtraction modulo 65536.
pub open spec fn wsub16(x: u16, y: u16) -> u16 {
    if x - y < 0 {
        (x - y + 0x10000) as u16
    } else {
        (x - y) as u16
    }
}

/// Masks and shifts of a byte stay within the mask's range.
pub proof fn lemma_u8_masks()
    by (bit_vector)
    ensures
        forall|x: u8| #[trigger] (x & 1) <= 1,
        forall|x: u8| #[trigger] (x & 3) <= 3,
        forall|x: u8| #[trigger] (x & 7) <= 7,
        forall|x: u8| #[trigger] (x & 0x0F) <= 0x0F,
        forall|x: u8| #[trigger] (x & 0x1F) <= 0x1F,
        forall|x: u8| #[trigger] (x & 0x3F) <= 0x3F,
        forall|x: u8| #[trigger] (x & 0x7F) <= 0x7F,
        forall|x: u8, s: u8| #[trigger] ((x >> s) & 1) <= 1,
        forall|x: u8| #[trigger] (x >> 3u8) <= 0x1F,
        forall|x: u8| #[trigger] (x >> 4u8) <= 0x0F,
        forall|x: u8| #[trigger] (x >> 6u8) <= 3,
        (1u8 & 1u8) == 1u8,
        (0u8 & 1u8) == 0u8,
{
}

/// Masks of a word stay within the mask's range.
pub proof fn lemma_u16_masks()
    by (bit_vector)
    ensures
        forall|x: u16| #[trigger] (x & 0x0FFF) <= 0x0FFF,
        forall|x: u16| #[trigger] (x & 0x3FFF) <= 0x3FFF,
        forall|x: u16| #[trigger] (x & 0x1FFF) <= 0x1FFF,
        forall|x: u16| #[trigger] (x & 0x07FF) <= 0x07FF,
        forall|x: u16| #[trigger] (x & 0x001F) <= 0x001F,
        forall|x: u16| #[trigger] (x & 0x0007) <= 0x0007,
        forall|x: u16| #[trigger] (x & 0x00FF) <= 0x00FF,
        forall|x: u16| #[trigger] ((x >> 12u16) & 0x07) <= 0x07,
        forall|x: u16, s: u16| #[trigger] ((x >> s) & 1) <= 1,
        forall|x: u16| #[trigger] (x & 0x0FFF) == x % 0x1000,
        forall|x: u16| #[trigger] (x & 0x3FFF) == x % 0x4000,
        forall|x: u16| #[trigger] (x & 0x1FFF) == x % 0x2000,
        forall|x: u16| #[trigger] (x & 0x07FF) == x % 0x0800,
        forall|x: u16| #[trigger] (x & 0x001F) == x % 0x20,
        forall|x: u16| #[trigger] (x & 0x0007) == x % 8,
        forall|x: u16| #[trigger] (x & 0x00FF) == x % 0x100,
        forall|x: u16| #[trigger] (x & 0xFF00) == x - x % 0x100,
        forall|x: u16| #[trigger] (x >> 8u16) == x / 0x100,
        forall|x: u8| #[trigger] (0x0100u16 | (x as u16)) == 0x0100 + x,
        forall|hi: u8, lo: u8| #[trigger] (((hi as u16) << 8u16) | (lo as u16)) == hi * 0x100 + lo,
        forall|v: u16| (#[trigger] (v & 0x001F)) != 0x001F ==> v < 0xFFFF,
        forall|v: u16| (#[trigger] (v & 0x7000)) != 0x7000 ==> v < 0xF000,
        forall|v: u16| #[trigger] ((v & 0x03E0) >> 5u16) <= 31,
        forall|v: u16| #[trigger] (((v >> 4u16) & 0x04) | (v & 0x02)) <= 6,
{
}

/// Bit `7 - i` of `x` moved to bit `i`: the byte read back to front.
pub open spec fn reverse8(x: u8) -> u8 {
    ((x & 0x01) << 7u8) | ((x & 0x02) << 5u8) | ((x & 0x04) << 3u8) | ((x & 0x08) << 1u8) | ((x
        & 0x10) >> 1u8) | ((x & 0x20) >> 3u8) | ((x & 0x40) >> 5u8) | ((x & 0x80) >> 7u8)
}

/// Reverses the bit order of a byte (bit 0 becomes bit 7).
pub fn reverse_bits(x: u8) -> (r: u8)
    ensures
        r == reverse8(x),
{
    ((x & 0x01) << 7) | ((x & 0x02) << 5) | ((x & 0x04) << 3) | ((x & 0x08) << 1) | ((x & 0x10)
        >> 1) | ((x & 0x20) >> 3) | ((x & 0x40) >> 5) | ((x & 0x80) >> 7)
}

/// Reversing twice gives the byte back, and bit `i` of the reversed
/// byte is bit `7 - i` of the input.
pub proof fn lemma_reverse8(x: u8)
    ensures
        reverse8(reverse8(x)) == x,
        forall|i: u8| i < 8 ==> #[trigger] ((reverse8(x) >> i) & 1) == (x >> (7 - i) as u8) & 1,
{
    let r = reverse8(x);
    assert(r == ((x & 0x01) << 7u8) | ((x & 0x02) << 5u8) | ((x & 0x04) << 3u8) | ((x & 0x08)
        << 1u8) | ((x & 0x10) >> 1u8) | ((x & 0x20) >> 3u8) | ((x & 0x40) >> 5u8) | ((x & 0x80)
        >> 7u8));
    assert(((r & 0x01) << 7u8) | ((r & 0x02) << 5u8) | ((r & 0x04) << 3u8) | ((r & 0x08) << 1u8)
        | ((r & 0x10) >> 1u8) | ((r & 0x20) >> 3u8) | ((r & 0x40) >> 5u8) | ((r & 0x80) >> 7u8)
        == x && forall|i: u8| i < 8 ==> ((r >> i) & 1) == (x >> (7 - i) as u8) & 1) by (bit_vector)
        requires
            r == ((x & 0x01) << 7u8) | ((x & 0x02) << 5u8) | ((x & 0x04) << 3u8) | ((x & 0x08)
                << 1u8) | ((x & 0x10) >> 1u8) | ((x & 0x20) >> 3u8) | ((x & 0x40) >> 5u8) | ((x
                & 0x80) >> 7u8),
    ;
}

} // verus!

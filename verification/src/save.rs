//! Shared save-data machinery: the XOR mask some titles store their SRAM
//! under, the raw byte-sum checksum, and the item types the per-title save
//! views hand out.

use vstd::prelude::*;
use vstd::bytes::spec_u32_from_le_bytes;
use vstd::bytes::lemma_auto_spec_u32_to_from_le_bytes;
use vstd::bytes::u32_from_le_bytes;
use vstd::bytes::u32_to_le_bytes;
use vstd::slice::slice_subrange;

verus! {

/// The sum of a byte string, wrapping at 32 bits.
pub open spec fn spec_byte_sum(s: Seq<u8>) -> u32
    decreases s.len(),
{
    if s.len() == 0 {
        0
    } else {
        spec_byte_sum(s.drop_last()).wrapping_add(s.last() as u32)
    }
}

/// The raw checksum of a save: the sum of every byte, less the sum of the
/// four bytes where the checksum itself is stored.
pub open spec fn spec_save_raw_checksum(s: Seq<u8>, checksum_offset: int) -> u32 {
    spec_byte_sum(s).wrapping_sub(
        spec_byte_sum(s.subrange(checksum_offset, checksum_offset + 4)),
    )
}

/// Computes the wrapping sum of a byte string.
pub fn byte_sum(buf: &[u8]) -> (r: u32)
    ensures
        r == spec_byte_sum(buf@),
{
    let mut sum: u32 = 0;
    let mut i: usize = 0;
    while i < buf.len()
        invariant
            i <= buf@.len(),
            sum == spec_byte_sum(buf@.subrange(0, i as int)),
        decreases buf@.len() - i,
    {
        proof {
            assert(buf@.subrange(0, i + 1).drop_last() =~= buf@.subrange(0, i as int));
            assert(buf@.subrange(0, i + 1).last() == buf@[i as int]);
        }
        sum = sum.wrapping_add(*vstd::slice::slice_index_get(buf, i) as u32);
        i = i + 1;
    }
    proof {
        assert(buf@.subrange(0, buf@.len() as int) =~= buf@);
    }
    sum
}

/// Computes the raw checksum of a save buffer.
pub fn compute_save_raw_checksum(buf: &[u8], checksum_offset: usize) -> (r: u32)
    requires
        checksum_offset + 4 <= buf@.len(),
    ensures
        r == spec_save_raw_checksum(buf@, checksum_offset as int),
{
    let n: usize = buf.len();
    proof {
        assert(n == buf@.len());
    }
    let total = byte_sum(buf);
    let stored = byte_sum(slice_subrange(buf, checksum_offset, checksum_offset + 4));
    total.wrapping_sub(stored)
}

/// A save buffer with the stored XOR mask applied: every byte XOR'd with
/// the mask word's low byte, except the four bytes holding the mask, which
/// stay as they are.
pub open spec fn spec_mask_save(s: Seq<u8>, mask_offset: int) -> Seq<u8> {
    let mask_byte = (spec_u32_from_le_bytes(s.subrange(mask_offset, mask_offset + 4)) as u8);
    Seq::new(
        s.len(),
        |i: int|
            if mask_offset <= i < mask_offset + 4 {
                s[i]
            } else {
                s[i] ^ mask_byte
            },
    )
}

/// Applies the stored XOR mask in place.
pub fn mask_save(buf: &mut Vec<u8>, mask_offset: usize)
    requires
        mask_offset + 4 <= old(buf)@.len(),
    ensures
        final(buf)@ =~= spec_mask_save(old(buf)@, mask_offset as int),
{
    let n: usize = buf.len();
    proof {
        assert(n == buf@.len());
    }
    let mask = u32_from_le_bytes(slice_subrange(buf.as_slice(), mask_offset, mask_offset + 4));
    let mask_byte = mask as u8;
    let mut i: usize = 0;
    while i < buf.len()
        invariant
            i <= buf@.len(),
            buf@.len() == old(buf)@.len(),
            mask == spec_u32_from_le_bytes(old(buf)@.subrange(
                mask_offset as int,
                mask_offset + 4,
            )),
            mask_byte == mask as u8,
            mask_offset + 4 <= buf@.len(),
            forall|j: int| i <= j < buf@.len() ==> #[trigger] buf@[j] == old(buf)@[j],
            forall|j: int| 0 <= j < i ==> #[trigger] buf@[j] == (old(buf)@[j] ^ mask_byte),
        decreases buf@.len() - i,
    {
        let b = buf[i];
        buf.set(i, b ^ mask_byte);
        i = i + 1;
    }
    let masked = u32_to_le_bytes(mask);
    buf.set(mask_offset, masked[0]);
    buf.set(mask_offset + 1, masked[1]);
    buf.set(mask_offset + 2, masked[2]);
    buf.set(mask_offset + 3, masked[3]);
    proof {
        lemma_auto_spec_u32_to_from_le_bytes();
        assert(final(buf)@ =~= spec_mask_save(old(buf)@, mask_offset as int));
    }
}

/// Masking is an involution: applying the stored mask twice gives the
/// original buffer back, which is why one routine serves both reading and
/// writing a masked save.
pub proof fn lemma_mask_save_involution(s: Seq<u8>, mask_offset: int)
    requires
        0 <= mask_offset,
        mask_offset + 4 <= s.len(),
    ensures
        spec_mask_save(spec_mask_save(s, mask_offset), mask_offset) =~= s,
{
    let m1 = spec_mask_save(s, mask_offset);
    assert(m1.subrange(mask_offset, mask_offset + 4) =~= s.subrange(
        mask_offset,
        mask_offset + 4,
    ));
    let mask_byte = (spec_u32_from_le_bytes(s.subrange(mask_offset, mask_offset + 4)) as u8);
    assert forall|i: int| 0 <= i < s.len() implies #[trigger] spec_mask_save(m1, mask_offset)[i]
        == s[i] by {
        if !(mask_offset <= i < mask_offset + 4) {
            let b = s[i];
            assert((b ^ mask_byte) ^ mask_byte == b) by (bit_vector);
        }
    }
}

/// One chip in a folder.
#[derive(PartialEq, Eq, Structural, Clone, Copy, Debug, Hash)]
pub struct Chip {
    pub id: usize,
    pub code: char,
}

/// One modification card and whether it is switched on.
#[derive(PartialEq, Eq, Structural, Clone, Copy, Debug, Hash)]
pub struct Modcard {
    pub id: usize,
    pub enabled: bool,
}

/// One placed part of the navi customizer grid.
#[derive(PartialEq, Eq, Structural, Clone, Copy, Debug, Hash)]
pub struct NavicustPart {
    pub id: usize,
    pub variant: usize,
    pub col: u8,
    pub row: u8,
    pub rot: u8,
    pub compressed: bool,
}

/// A view over the fourth title's modification cards.
pub trait Modcard4sView {
    /// The card in the given slot, if one is set.
    fn modcard(&self, slot: usize) -> Option<Modcard>;
}

/// A view over a title's dark-chip usage tallies.
pub trait DarkAIView {
    /// How often the chip has been used, if it is tracked.
    fn chip_use_count(&self, id: usize) -> Option<u16>;

    /// The secondary tally for the chip, if it is tracked.
    fn secondary_chip_use_count(&self, id: usize) -> Option<u16>;
}

} // verus!

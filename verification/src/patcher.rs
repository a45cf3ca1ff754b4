//! The in-place 4-byte patch: little-endian word access into the image and
//! the overwrite of one table slot, with the laws that the patch changes
//! exactly its own four bytes and that repeating it changes nothing more.

use vstd::prelude::*;
use vstd::bytes::{spec_u32_from_le_bytes, spec_u32_to_le_bytes, u32_from_le_bytes, u32_to_le_bytes};
use vstd::bytes::lemma_auto_spec_u32_to_from_le_bytes;
use vstd::slice::slice_subrange;
use crate::errors::PatchError;

verus! {

/// The image after the 4 bytes at `off` are overwritten with the
/// little-endian encoding of `v`.
pub open spec fn spec_patched(img: Seq<u8>, off: int, v: u32) -> Seq<u8>
    recommends
        0 <= off,
        off + 4 <= img.len(),
{
    img.take(off) + spec_u32_to_le_bytes(v) + img.skip(off + 4)
}

/// The patch is a frame: the image keeps its length, every byte outside
/// `[off, off + 4)` keeps its value, and the patched window reads back as
/// exactly `v`.
pub proof fn lemma_patched_frame(img: Seq<u8>, off: int, v: u32)
    requires
        0 <= off,
        off + 4 <= img.len(),
    ensures
        spec_patched(img, off, v).len() == img.len(),
        forall|j: int|
            0 <= j < img.len() && !(off <= j < off + 4) ==> spec_patched(img, off, v)[j] == img[j],
        spec_patched(img, off, v).subrange(off, off + 4) == spec_u32_to_le_bytes(v),
        spec_u32_from_le_bytes(spec_patched(img, off, v).subrange(off, off + 4)) == v,
{
    lemma_auto_spec_u32_to_from_le_bytes();
    let p = spec_patched(img, off, v);
    assert(p.len() == img.len());
    assert(p.subrange(off, off + 4) =~= spec_u32_to_le_bytes(v));
}

/// Patching a slot twice with the same value is the same as patching it
/// once.
pub proof fn lemma_patch_idempotent(img: Seq<u8>, off: int, v: u32)
    requires
        0 <= off,
        off + 4 <= img.len(),
    ensures
        spec_patched(spec_patched(img, off, v), off, v) == spec_patched(img, off, v),
{
    lemma_auto_spec_u32_to_from_le_bytes();
    let p = spec_patched(img, off, v);
    assert(p.take(off) =~= img.take(off));
    assert(p.skip(off + 4) =~= img.skip(off + 4));
}

/// Whether the 4-byte access for slot `slot` of a table whose first slot
/// begins at file offset `off` lies inside an image of `len` bytes.
pub fn slot_end_within(len: usize, off: u64, slot: u64) -> (b: bool)
    ensures
        b == (off + 4 * slot + 4 <= len),
{
    match slot.checked_mul(4) {
        None => false,
        Some(s4) => match off.checked_add(s4) {
            None => false,
            Some(start) => match start.checked_add(4) {
                None => false,
                Some(end) => end <= len as u64,
            },
        },
    }
}

/// Reads the little-endian 32-bit word at byte offset `pos`.
pub fn read_le32(image: &Vec<u8>, pos: usize) -> (v: u32)
    requires
        pos + 4 <= image@.len(),
    ensures
        v == spec_u32_from_le_bytes(image@.subrange(pos as int, pos as int + 4)),
{
    let n = image.len();
    assert(pos + 4 <= n);
    let w = slice_subrange(image.as_slice(), pos, pos + 4);
    u32_from_le_bytes(w)
}

/// Overwrites the 4 bytes at `pos` with the little-endian encoding of `v`.
pub fn write_le32(image: &mut Vec<u8>, pos: usize, v: u32)
    requires
        pos + 4 <= old(image)@.len(),
    ensures
        final(image)@ == spec_patched(old(image)@, pos as int, v),
        final(image)@.len() == old(image)@.len(),
{
    let n = image.len();
    assert(pos + 4 <= n);
    let bytes = u32_to_le_bytes(v);
    image[pos] = bytes[0];
    image[pos + 1] = bytes[1];
    image[pos + 2] = bytes[2];
    image[pos + 3] = bytes[3];
    proof {
        assert(image@ =~= spec_patched(old(image)@, pos as int, v));
    }
}

/// Overwrites table slot `slot` (4 bytes at `section_offset + 4 * slot`)
/// with the little-endian encoding of `value`, and returns the absolute
/// byte offset written.  This is the only mutation of the image, and it is
/// refused (leaving the image untouched) when the 4-byte window does not
/// lie inside the image.
pub fn patch_slot(image: &mut Vec<u8>, section_offset: u64, slot: u64, value: u32) -> (r: Result<
    u64,
    PatchError,
>)
    ensures
        match r {
            Ok(abs) => {
                &&& abs == section_offset + 4 * slot
                &&& abs + 4 <= old(image)@.len()
                &&& final(image)@ == spec_patched(old(image)@, abs as int, value)
                &&& final(image)@.len() == old(image)@.len()
            },
            Err(e) => {
                &&& e == PatchError::OutOfBounds
                &&& section_offset + 4 * slot + 4 > old(image)@.len()
                &&& final(image)@ == old(image)@
            },
        },
{
    if !slot_end_within(image.len(), section_offset, slot) {
        return Err(PatchError::OutOfBounds);
    }
    let abs = section_offset + slot * 4;
    write_le32(image, abs as usize, value);
    Ok(abs)
}

} // verus!

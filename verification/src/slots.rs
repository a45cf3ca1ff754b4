//! Choosing which 4-byte table slot to overwrite: a user-given index is
//! taken verbatim; otherwise the first slot from index 16 on whose current
//! little-endian value is zero is selected.  Slots 0 to 15 hold the core
//! exception entries and are never auto-selected.

use vstd::prelude::*;
use vstd::bytes::spec_u32_from_le_bytes;
use crate::errors::PatchError;
use crate::patcher::{read_le32, slot_end_within};

verus! {

/// The number of reserved entries before the interrupt part of the table.
pub const RESERVED_SLOTS: u64 = 16;

/// Whether slot `i`'s 4 bytes lie inside the image.
pub open spec fn slot_fits(img: Seq<u8>, off: int, i: int) -> bool {
    off + 4 * i + 4 <= img.len()
}

/// The current little-endian value of slot `i`.
pub open spec fn slot_value(img: Seq<u8>, off: int, i: int) -> u32 {
    spec_u32_from_le_bytes(img.subrange(off + 4 * i, off + 4 * i + 4))
}

/// Every candidate slot up to the section boundary is readable and holds a
/// nonzero value: nothing to auto-select.
pub open spec fn auto_scan_exhausted(img: Seq<u8>, off: int, size: int) -> bool {
    forall|j: int|
        RESERVED_SLOTS <= j < size ==> #[trigger] slot_fits(img, off, j) && slot_value(
            img,
            off,
            j,
        ) != 0
}

/// Slot `i` is the one the auto-scan selects: the lowest index at or above
/// 16, below the section's size in bytes, whose value is zero, every
/// earlier candidate being readable and nonzero.
pub open spec fn auto_selected(img: Seq<u8>, off: int, size: int, i: int) -> bool {
    &&& RESERVED_SLOTS <= i < size
    &&& slot_fits(img, off, i)
    &&& slot_value(img, off, i) == 0
    &&& forall|j: int|
        RESERVED_SLOTS <= j < i ==> #[trigger] slot_fits(img, off, j) && slot_value(
            img,
            off,
            j,
        ) != 0
}

/// The scan reached candidate slot `i` (every earlier candidate readable
/// and nonzero) and slot `i`'s 4 bytes run past the end of the image.
pub open spec fn auto_scan_ran_out(img: Seq<u8>, off: int, size: int, i: int) -> bool {
    &&& RESERVED_SLOTS <= i < size
    &&& !slot_fits(img, off, i)
    &&& forall|j: int|
        RESERVED_SLOTS <= j < i ==> #[trigger] slot_fits(img, off, j) && slot_value(
            img,
            off,
            j,
        ) != 0
}

/// Resolves which slot to patch.  An explicit index is used verbatim, with
/// no validation here (the patcher enforces bounds).  Otherwise the table
/// is scanned from slot 16 up: the first slot holding zero is selected; the
/// scan fails with `NoFreeSlot` once the index reaches the section's size
/// in bytes, and with `OutOfBounds` if a slot to be read runs past the end
/// of the image.
pub fn resolve_slot(
    image: &Vec<u8>,
    section_offset: u64,
    section_size: u64,
    explicit: Option<u64>,
) -> (r: Result<u64, PatchError>)
    ensures
        match explicit {
            Some(k) => r == Ok::<u64, PatchError>(k),
            None => match r {
                Ok(i) => auto_selected(image@, section_offset as int, section_size as int, i as int),
                Err(e) => match e {
                    PatchError::NoFreeSlot => auto_scan_exhausted(
                        image@,
                        section_offset as int,
                        section_size as int,
                    ),
                    PatchError::OutOfBounds => exists|i: int|
                        auto_scan_ran_out(image@, section_offset as int, section_size as int, i),
                    _ => false,
                },
            },
        },
{
    if let Some(k) = explicit {
        return Ok(k);
    }
    let len = image.len();
    let mut i: u64 = RESERVED_SLOTS;
    if section_size <= i {
        return Err(PatchError::NoFreeSlot);
    }
    while i < section_size
        invariant
            explicit is None,
            RESERVED_SLOTS <= i <= section_size,
            len == image@.len(),
            forall|j: int|
                RESERVED_SLOTS <= j < i ==> #[trigger] slot_fits(image@, section_offset as int, j)
                    && slot_value(image@, section_offset as int, j) != 0,
        decreases section_size - i,
    {
        if !slot_end_within(len, section_offset, i) {
            assert(auto_scan_ran_out(image@, section_offset as int, section_size as int, i as int));
            return Err(PatchError::OutOfBounds);
        }
        let pos = section_offset + i * 4;
        let v = read_le32(image, pos as usize);
        assert(v == slot_value(image@, section_offset as int, i as int));
        if v == 0 {
            return Ok(i);
        }
        i = i + 1;
    }
    Err(PatchError::NoFreeSlot)
}

} // verus!

use ivt_patch::errors::PatchError;
use ivt_patch::slots::resolve_slot;

fn set_slot(image: &mut Vec<u8>, off: usize, slot: usize, value: u32) {
    image[off + 4 * slot..off + 4 * slot + 4].copy_from_slice(&value.to_le_bytes());
}

#[test]
fn explicit_slot_is_used_verbatim() {
    let image = vec![0u8; 16];
    // Far out of range, still returned as given: bounds are the patcher's.
    assert_eq!(resolve_slot(&image, 0, 0x100, Some(9999)), Ok(9999));
}

#[test]
fn auto_selects_slot_16_when_zero() {
    let image = vec![0u8; 0x100];
    assert_eq!(resolve_slot(&image, 0, 0x100, None), Ok(16));
}

#[test]
fn auto_skips_nonzero_slots() {
    let mut image = vec![0u8; 0x200];
    set_slot(&mut image, 0x40, 16, 0x0800_0101);
    set_slot(&mut image, 0x40, 17, 0x0800_0201);
    assert_eq!(resolve_slot(&image, 0x40, 0x100, None), Ok(18));
}

#[test]
fn reserved_slots_are_never_auto_selected() {
    let mut image = vec![0u8; 0x200];
    // Slots 0..16 are all zero, slot 16 is not, slot 17 is.
    set_slot(&mut image, 0, 16, 0x1234_5678);
    assert_eq!(resolve_slot(&image, 0, 0x100, None), Ok(17));
}

#[test]
fn all_nonzero_slots_mean_no_free_slot() {
    // Section of 20 bytes: candidate slots are indices 16..20.
    let mut image = vec![0u8; 0x100];
    for slot in 16..20 {
        set_slot(&mut image, 0, slot, 1);
    }
    assert_eq!(resolve_slot(&image, 0, 20, None), Err(PatchError::NoFreeSlot));
}

#[test]
fn tiny_section_has_no_candidate_slots() {
    let image = vec![0u8; 0x100];
    assert_eq!(resolve_slot(&image, 0, 16, None), Err(PatchError::NoFreeSlot));
    assert_eq!(resolve_slot(&image, 0, 0, None), Err(PatchError::NoFreeSlot));
}

#[test]
fn scan_running_past_image_is_out_of_bounds() {
    // Section claims 0x100 bytes of nonzero slots, but the image ends at
    // byte 80: the scan hits the boundary before any zero slot.
    let mut image = vec![0u8; 80];
    for slot in 16..20 {
        set_slot(&mut image, 0, slot, 1);
    }
    assert_eq!(resolve_slot(&image, 0, 0x100, None), Err(PatchError::OutOfBounds));
}

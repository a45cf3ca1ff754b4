//! The failures the patching pipeline can report.

use vstd::prelude::*;

verus! {

/// Everything that can stop a patch run.  Format errors come first and gate
/// all later work; lookup and bounds errors abort the run before any byte of
/// the image is changed.
#[derive(Clone, Copy, Debug, PartialEq, Eq, Structural)]
pub enum PatchError {
    /// The image is a 64-bit ELF; the table slots here are 4-byte words.
    UnsupportedWidth,
    /// The image is not little-endian.
    UnsupportedEndianness,
    /// The image is not 32-bit ARM; Thumb-mode correction assumes ARM.
    UnsupportedArchitecture,
    /// The requested output path equals the input path.
    SameInputOutputPath,
    /// No section's virtual address range contains the table base address.
    SectionNotFound,
    /// Every candidate slot from index 16 up to the section's boundary holds
    /// a nonzero value, so none can be auto-selected.
    NoFreeSlot,
    /// The 4-byte access for the chosen slot does not lie inside the image.
    OutOfBounds,
    /// The bytes could not be parsed as an ELF image at all.
    MalformedImage,
}

} // verus!

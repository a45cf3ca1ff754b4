//! The format gate: the patcher's word operations assume a 32-bit,
//! little-endian, ARM image, and the output path must differ from the input
//! path before any mutation is worth attempting.

use vstd::prelude::*;
use crate::errors::PatchError;

verus! {

/// The three format facts the pipeline reads from the image's headers.
#[derive(Debug, Clone, Copy, PartialEq, Eq, Structural)]
pub struct ImageFormat {
    pub is_64: bool,
    pub little_endian: bool,
    pub is_arm: bool,
}

/// The format the core supports: 32-bit, little-endian, ARM.
pub open spec fn format_ok(fmt: ImageFormat) -> bool {
    !fmt.is_64 && fmt.little_endian && fmt.is_arm
}

/// What validation decides, rules in order: width, endianness,
/// architecture, then the path check that gates mutation.
pub open spec fn validate_outcome(
    fmt: ImageFormat,
    input_path: Seq<char>,
    output_path: Seq<char>,
) -> Result<(), PatchError> {
    if fmt.is_64 {
        Err(PatchError::UnsupportedWidth)
    } else if !fmt.little_endian {
        Err(PatchError::UnsupportedEndianness)
    } else if !fmt.is_arm {
        Err(PatchError::UnsupportedArchitecture)
    } else if input_path == output_path {
        Err(PatchError::SameInputOutputPath)
    } else {
        Ok(())
    }
}

/// Rejects an image the core's assumptions do not cover, or a run whose
/// output path equals its input path.  Pure; no side effects.
pub fn validate_format(fmt: &ImageFormat, input_path: &String, output_path: &String) -> (r: Result<
    (),
    PatchError,
>)
    ensures
        r == validate_outcome(*fmt, input_path@, output_path@),
        r is Ok <==> format_ok(*fmt) && input_path@ != output_path@,
{
    if fmt.is_64 {
        return Err(PatchError::UnsupportedWidth);
    }
    if !fmt.little_endian {
        return Err(PatchError::UnsupportedEndianness);
    }
    if !fmt.is_arm {
        return Err(PatchError::UnsupportedArchitecture);
    }
    let same: bool = *input_path == *output_path;
    if same {
        return Err(PatchError::SameInputOutputPath);
    }
    Ok(())
}

} // verus!

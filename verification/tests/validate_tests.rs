use ivt_patch::errors::PatchError;
use ivt_patch::validate::{validate_format, ImageFormat};

fn fmt_ok() -> ImageFormat {
    ImageFormat { is_64: false, little_endian: true, is_arm: true }
}

#[test]
fn accepts_supported_format() {
    let r = validate_format(&fmt_ok(), &String::from("in.elf"), &String::from("out.elf"));
    assert_eq!(r, Ok(()));
}

#[test]
fn rejects_64_bit() {
    let fmt = ImageFormat { is_64: true, little_endian: true, is_arm: true };
    let r = validate_format(&fmt, &String::from("in.elf"), &String::from("out.elf"));
    assert_eq!(r, Err(PatchError::UnsupportedWidth));
}

#[test]
fn rejects_big_endian() {
    let fmt = ImageFormat { is_64: false, little_endian: false, is_arm: true };
    let r = validate_format(&fmt, &String::from("in.elf"), &String::from("out.elf"));
    assert_eq!(r, Err(PatchError::UnsupportedEndianness));
}

#[test]
fn rejects_non_arm() {
    let fmt = ImageFormat { is_64: false, little_endian: true, is_arm: false };
    let r = validate_format(&fmt, &String::from("in.elf"), &String::from("out.elf"));
    assert_eq!(r, Err(PatchError::UnsupportedArchitecture));
}

#[test]
fn rejects_same_input_output_path() {
    let r = validate_format(&fmt_ok(), &String::from("same.elf"), &String::from("same.elf"));
    assert_eq!(r, Err(PatchError::SameInputOutputPath));
}

#[test]
fn width_error_comes_before_path_error() {
    let fmt = ImageFormat { is_64: true, little_endian: false, is_arm: false };
    let r = validate_format(&fmt, &String::from("same.elf"), &String::from("same.elf"));
    assert_eq!(r, Err(PatchError::UnsupportedWidth));
}

use ivt_patch::section::{find_section, SectionInfo};

fn sec(name: &str, va: u64, off: u64, size: u64) -> SectionInfo {
    SectionInfo {
        name: String::from(name),
        virtual_address: va,
        file_offset: off,
        size,
    }
}

#[test]
fn finds_containing_section() {
    let sections = vec![sec(".text", 0x1000, 0x100, 0x200), sec(".vectors", 0x0, 0x400, 0x100)];
    assert_eq!(find_section(&sections, 0x0), Some(1));
    assert_eq!(find_section(&sections, 0x1000), Some(0));
    assert_eq!(find_section(&sections, 0x11ff), Some(0));
}

#[test]
fn first_containing_section_wins() {
    let sections = vec![sec("a", 0x0, 0x100, 0x50), sec("b", 0x0, 0x200, 0x50)];
    assert_eq!(find_section(&sections, 0x10), Some(0));
}

#[test]
fn section_range_end_is_exclusive() {
    let sections = vec![sec("a", 0x100, 0x0, 0x10)];
    assert_eq!(find_section(&sections, 0x110), None);
    assert_eq!(find_section(&sections, 0x10f), Some(0));
}

#[test]
fn no_section_contains_address() {
    let sections = vec![sec("a", 0x1000, 0x0, 0x100)];
    assert_eq!(find_section(&sections, 0x0), None);
}

#[test]
fn empty_section_contains_nothing() {
    let sections = vec![sec("null", 0x0, 0x0, 0x0), sec("v", 0x0, 0x40, 0x10)];
    assert_eq!(find_section(&sections, 0x0), Some(1));
}

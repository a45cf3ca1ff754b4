//! Section descriptors and the locator that finds the section containing a
//! given virtual address.

use vstd::prelude::*;

verus! {

/// What the pipeline needs to know of one ELF section: its name (kept for
/// diagnostics only), where it is mapped in the address space, where its
/// bytes sit in the file, and how long it is.
#[derive(Debug)]
pub struct SectionInfo {
    pub name: String,
    pub virtual_address: u64,
    pub file_offset: u64,
    pub size: u64,
}

/// An address belongs to a section when it lies in
/// `[virtual_address, virtual_address + size)`.
pub open spec fn section_contains(s: SectionInfo, addr: u64) -> bool {
    s.virtual_address <= addr && addr < s.virtual_address + s.size
}

/// `i` is the index of the first section (in the order given) whose address
/// range contains `addr`.
pub open spec fn first_section_at(sections: Seq<SectionInfo>, addr: u64, i: int) -> bool {
    &&& 0 <= i < sections.len()
    &&& section_contains(sections[i], addr)
    &&& forall|j: int| 0 <= j < i ==> !section_contains(sections[j], addr)
}

/// The file offset that corresponds to `addr` inside section `s`.
pub open spec fn addr_file_offset(s: SectionInfo, addr: u64) -> int {
    s.file_offset + (addr - s.virtual_address)
}

/// Finds the first section whose virtual address range contains `addr`,
/// scanning the list in the order given; `None` when no section does.
pub fn find_section(sections: &Vec<SectionInfo>, addr: u64) -> (r: Option<usize>)
    ensures
        match r {
            Some(i) => first_section_at(sections@, addr, i as int),
            None => forall|j: int|
                0 <= j < sections@.len() ==> !section_contains(sections@[j], addr),
        },
{
    let n = sections.len();
    let mut i: usize = 0;
    while i < n
        invariant
            n == sections@.len(),
            0 <= i <= n,
            forall|j: int| 0 <= j < i ==> !section_contains(sections@[j], addr),
        decreases n - i,
    {
        let s = &sections[i];
        if addr >= s.virtual_address && addr - s.virtual_address < s.size {
            assert(section_contains(sections@[i as int], addr));
            return Some(i);
        }
        assert(!section_contains(sections@[i as int], addr));
        i = i + 1;
    }
    None
}

} // verus!

//! The border to the ELF-parsing collaborators: the raw bytes are handed to
//! goblin and object once, and what the pipeline reads of the result comes
//! back as plain values.  Both parses are functions of the bytes alone, so
//! their results carry names: whether each parse succeeds, the header flags,
//! and the section and symbol lists.  The verified pipeline takes the
//! parsed values as input and is proved for every value of them.

use vstd::prelude::*;
use object::Object;
use object::ObjectSymbol;
use crate::section::SectionInfo;
use crate::symbol::SymbolInfo;

verus! {

/// What goblin's ELF parse contributes: the header's width and endianness,
/// and the section list.
#[derive(Debug)]
pub struct ElfMeta {
    pub is_64: bool,
    pub little_endian: bool,
    pub sections: Vec<SectionInfo>,
}

/// What object's parse contributes: the architecture check and the symbol
/// table.
#[derive(Debug)]
pub struct ObjMeta {
    pub is_arm: bool,
    pub symbols: Vec<SymbolInfo>,
}

/// Whether goblin::elf::Elf::parse accepts the bytes as an ELF image.
pub uninterp spec fn elf_parses(bytes: Seq<u8>) -> bool;

/// The header's 64-bit flag, as goblin's parse reads it.
pub uninterp spec fn elf_is_64(bytes: Seq<u8>) -> bool;

/// The header's little-endian flag, as goblin's parse reads it.
pub uninterp spec fn elf_little_endian(bytes: Seq<u8>) -> bool;

/// The section list goblin's parse reads from the bytes, each reduced to
/// name, virtual address, file offset and size, in table order.
pub uninterp spec fn elf_sections_of(bytes: Seq<u8>) -> Seq<SectionInfo>;

/// Whether object::File::parse accepts the bytes as an object file.
pub uninterp spec fn obj_parses(bytes: Seq<u8>) -> bool;

/// Whether object reports the image's architecture as 32-bit ARM.
pub uninterp spec fn obj_is_arm(bytes: Seq<u8>) -> bool;

/// The symbol list object's parse reads from the bytes, each reduced to
/// address and size, in table order.
pub uninterp spec fn obj_symbols_of(bytes: Seq<u8>) -> Seq<SymbolInfo>;

/// Relies on goblin::elf::Elf::parse for the ELF structure, and on
/// goblin::strtab::Strtab::get_at for section names (a section whose name
/// is missing from the string table is carried with an empty name).  The
/// parse depends on the bytes alone; its results go by the names above.
/// `None` when the bytes are not a parseable ELF image.
#[verifier::external_body]
pub(crate) fn parse_elf_meta(image: &Vec<u8>) -> (r: Option<ElfMeta>)
    ensures
        r is Some <==> elf_parses(image@),
        match r {
            Some(m) => {
                &&& m.is_64 == elf_is_64(image@)
                &&& m.little_endian == elf_little_endian(image@)
                &&& m.sections@ == elf_sections_of(image@)
            },
            None => !elf_parses(image@),
        },
{
    let elf = match goblin::elf::Elf::parse(image.as_slice()) {
        Ok(e) => e,
        Err(_) => return None,
    };
    let sections = elf.section_headers.iter().map(|sh| SectionInfo {
        name: elf.shdr_strtab.get_at(sh.sh_name).unwrap_or("").to_string(),
        virtual_address: sh.sh_addr,
        file_offset: sh.sh_offset,
        size: sh.sh_size,
    }).collect();
    Some(ElfMeta { is_64: elf.is_64, little_endian: elf.little_endian, sections })
}

/// Relies on object::File::parse, object::Object::architecture (compared
/// against Architecture::Arm), and object::ObjectSymbol::address/size for
/// the symbol list.  The parse depends on the bytes alone; its results go
/// by the names above.  `None` when the bytes are not a parseable image.
#[verifier::external_body]
pub(crate) fn parse_object_meta(image: &Vec<u8>) -> (r: Option<ObjMeta>)
    ensures
        r is Some <==> obj_parses(image@),
        match r {
            Some(o) => {
                &&& o.is_arm == obj_is_arm(image@)
                &&& o.symbols@ == obj_symbols_of(image@)
            },
            None => !obj_parses(image@),
        },
{
    let obj = match object::File::parse(image.as_slice()) {
        Ok(o) => o,
        Err(_) => return None,
    };
    let is_arm = obj.architecture() == object::Architecture::Arm;
    let symbols = obj.symbols().map(|s| SymbolInfo { address: s.address(), size: s.size() }).collect();
    Some(ObjMeta { is_arm, symbols })
}

} // verus!

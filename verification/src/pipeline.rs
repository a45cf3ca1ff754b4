//! The patch run: validate the format, locate the table's section, resolve
//! the slot, correct the address against the symbol table, patch the slot.
//! Data flows strictly forward; the image is mutated only by the final
//! patch, and an error at any stage leaves it untouched.

use vstd::prelude::*;
use vstd::bytes::spec_u32_from_le_bytes;
use crate::errors::PatchError;
use crate::section::{
    SectionInfo, section_contains, first_section_at, addr_file_offset, find_section,
};
use crate::symbol::{
    SymbolInfo, SymbolMatch, match_verdict, corrected_value, find_symbol_match, corrected_address,
};
use crate::slots::{
    RESERVED_SLOTS, resolve_slot, auto_selected, auto_scan_exhausted, auto_scan_ran_out,
};
use crate::patcher::{patch_slot, spec_patched};
use crate::validate::{ImageFormat, format_ok, validate_format};
use crate::elf_input::{
    elf_parses, elf_is_64, elf_little_endian, elf_sections_of, obj_parses, obj_is_arm,
    obj_symbols_of, parse_elf_meta, parse_object_meta,
};

verus! {

/// One run's request: the handler address to write, the table's base
/// virtual address, an optional explicit slot index, and whether Thumb-mode
/// correction is disabled.
#[derive(Debug)]
pub struct PatchConfig {
    pub interrupt_address: u32,
    pub vector_table_offset: u32,
    pub n_th_entry: Option<u64>,
    pub do_not_correct: bool,
}

/// What a successful run reports: where the table's section was found, the
/// slot patched, the absolute byte offset written, the value written, and
/// what the symbol lookup said of the requested address.
#[derive(Debug)]
pub struct PatchResult {
    pub section_index: usize,
    pub section_name: String,
    pub section_file_offset: u64,
    pub slot: u64,
    pub file_offset: u64,
    pub written_value: u32,
    pub verdict: SymbolMatch,
}

/// What a successful run promises, over the pre-run image `img0`, the
/// post-run image `img1` and the parsed metadata: the format was supported
/// and the paths differ; `res` names the first section containing the
/// table's base address; the slot is the explicit one, or the auto-selected
/// lowest zero slot; the verdict and written value follow the symbol table;
/// and `img1` is `img0` with exactly the resolved slot's four bytes holding
/// the little-endian written value, which reads back as written.
pub open spec fn run_ok_describes(
    img0: Seq<u8>,
    img1: Seq<u8>,
    fmt: ImageFormat,
    sections: Seq<SectionInfo>,
    symbols: Seq<SymbolInfo>,
    inp: Seq<char>,
    outp: Seq<char>,
    cfg: PatchConfig,
    res: PatchResult,
) -> bool {
    let addr = cfg.vector_table_offset as u64;
    let s = sections[res.section_index as int];
    let off = addr_file_offset(s, addr);
    &&& format_ok(fmt) && inp != outp
    &&& first_section_at(sections, addr, res.section_index as int)
    &&& res.section_name@ == s.name@
    &&& res.section_file_offset == s.file_offset
    &&& (match cfg.n_th_entry {
        Some(k) => res.slot == k,
        None => auto_selected(img0, off, s.size as int, res.slot as int),
    })
    &&& (if cfg.do_not_correct {
        res.verdict == SymbolMatch::NoMatch
    } else {
        match_verdict(symbols, cfg.interrupt_address, res.verdict)
    })
    &&& res.written_value as int == (if cfg.do_not_correct {
        cfg.interrupt_address as int
    } else {
        corrected_value(cfg.interrupt_address, res.verdict)
    })
    &&& res.file_offset == off + 4 * res.slot
    &&& off + 4 * res.slot + 4 <= img0.len()
    &&& img1 == spec_patched(img0, res.file_offset as int, res.written_value)
    &&& spec_u32_from_le_bytes(img1.subrange(res.file_offset as int, res.file_offset + 4))
        == res.written_value
}

/// When each error is owed, over the pre-run image and the parsed metadata,
/// rules in pipeline order: width, endianness, architecture, path equality,
/// section lookup, then slot resolution and bounds.
pub open spec fn run_err_describes(
    img0: Seq<u8>,
    fmt: ImageFormat,
    sections: Seq<SectionInfo>,
    inp: Seq<char>,
    outp: Seq<char>,
    cfg: PatchConfig,
    e: PatchError,
) -> bool {
    let addr = cfg.vector_table_offset as u64;
    match e {
        PatchError::UnsupportedWidth => fmt.is_64,
        PatchError::UnsupportedEndianness => !fmt.is_64 && !fmt.little_endian,
        PatchError::UnsupportedArchitecture => !fmt.is_64 && fmt.little_endian && !fmt.is_arm,
        PatchError::SameInputOutputPath => format_ok(fmt) && inp == outp,
        PatchError::SectionNotFound => format_ok(fmt) && inp != outp && (forall|j: int|
            0 <= j < sections.len() ==> !section_contains(sections[j], addr)),
        PatchError::NoFreeSlot => format_ok(fmt) && inp != outp && cfg.n_th_entry is None && (
        exists|si: int|
            #[trigger] first_section_at(sections, addr, si) && auto_scan_exhausted(
                img0,
                addr_file_offset(sections[si], addr),
                sections[si].size as int,
            )),
        PatchError::OutOfBounds => format_ok(fmt) && inp != outp && (exists|si: int|
            #[trigger] first_section_at(sections, addr, si) && ({
                let off = addr_file_offset(sections[si], addr);
                match cfg.n_th_entry {
                    Some(k) => off + 4 * k + 4 > img0.len(),
                    None => exists|i: int|
                        auto_scan_ran_out(img0, off, sections[si].size as int, i),
                }
            })),
        PatchError::MalformedImage => false,
    }
}

/// The format flags the two parses read from the bytes.
pub open spec fn parsed_format(bytes: Seq<u8>) -> ImageFormat {
    ImageFormat {
        is_64: elf_is_64(bytes),
        little_endian: elf_little_endian(bytes),
        is_arm: obj_is_arm(bytes),
    }
}

/// Runs the whole pipeline over already-parsed image metadata.  The
/// contract pins, for every input: which error is returned and when, that
/// any error leaves the image untouched, and that on success exactly the
/// resolved slot's four bytes now hold the little-endian corrected address.
pub fn run_patch(
    image: &mut Vec<u8>,
    fmt: &ImageFormat,
    sections: &Vec<SectionInfo>,
    symbols: &Vec<SymbolInfo>,
    input_path: &String,
    output_path: &String,
    cfg: &PatchConfig,
) -> (r: Result<PatchResult, PatchError>)
    requires
        cfg.do_not_correct || cfg.interrupt_address < 0xffff_ffffu32,
    ensures
        final(image)@.len() == old(image)@.len(),
        r is Err ==> final(image)@ == old(image)@,
        fmt.is_64 ==> r == Err::<PatchResult, PatchError>(PatchError::UnsupportedWidth),
        input_path@ == output_path@ ==> r is Err,
        match r {
            Ok(res) => run_ok_describes(
                old(image)@,
                final(image)@,
                *fmt,
                sections@,
                symbols@,
                input_path@,
                output_path@,
                *cfg,
                res,
            ),
            Err(e) => run_err_describes(
                old(image)@,
                *fmt,
                sections@,
                input_path@,
                output_path@,
                *cfg,
                e,
            ),
        },
{
    if let Err(e) = validate_format(fmt, input_path, output_path) {
        return Err(e);
    }
    let addr: u64 = cfg.vector_table_offset as u64;
    let si = match find_section(sections, addr) {
        Some(i) => i,
        None => {
            return Err(PatchError::SectionNotFound);
        },
    };
    let s = &sections[si];
    let delta = addr - s.virtual_address;
    let off = match s.file_offset.checked_add(delta) {
        Some(o) => o,
        None => {
            // The mathematical file offset exceeds what any image can hold,
            // so every slot access is out of range; an exhausted scan is
            // still reported first, as the scan itself would.
            let ilen = image.len();
            assert(image@.len() == ilen && ilen <= usize::MAX && usize::MAX <= u64::MAX);
            if cfg.n_th_entry.is_none() && s.size <= RESERVED_SLOTS {
                return Err(PatchError::NoFreeSlot);
            }
            if cfg.n_th_entry.is_none() {
                assert(auto_scan_ran_out(
                    image@,
                    addr_file_offset(sections@[si as int], addr),
                    sections@[si as int].size as int,
                    RESERVED_SLOTS as int,
                ));
            }
            return Err(PatchError::OutOfBounds);
        },
    };
    let slot = match resolve_slot(image, off, s.size, cfg.n_th_entry) {
        Ok(k) => k,
        Err(e) => {
            assert(first_section_at(sections@, addr, si as int));
            assert(off as int == addr_file_offset(sections@[si as int], addr));
            return Err(e);
        },
    };
    let verdict = if cfg.do_not_correct {
        SymbolMatch::NoMatch
    } else {
        find_symbol_match(symbols, cfg.interrupt_address)
    };
    let value = if cfg.do_not_correct {
        cfg.interrupt_address
    } else {
        corrected_address(cfg.interrupt_address, verdict)
    };
    let abs = match patch_slot(image, off, slot, value) {
        Ok(a) => a,
        Err(e) => {
            assert(first_section_at(sections@, addr, si as int));
            assert(off as int == addr_file_offset(sections@[si as int], addr));
            return Err(e);
        },
    };
    proof {
        crate::patcher::lemma_patched_frame(old(image)@, abs as int, value);
    }
    Ok(
        (PatchResult {
            section_index: si,
            section_name: s.name.clone(),
            section_file_offset: s.file_offset,
            slot,
            file_offset: abs,
            written_value: value,
            verdict,
        }),
    )
}

/// Parses the raw image bytes through the ELF collaborators and runs the
/// pipeline on what they report.  The contract carries the pipeline's whole
/// taxonomy through the parses' named results: `MalformedImage` exactly when
/// a parse refuses the bytes, each other error exactly under its own
/// condition over the parsed metadata, and otherwise success is owed, with
/// exactly the four bytes at the reported offset changed.
pub fn patch_image(
    image: &mut Vec<u8>,
    input_path: &String,
    output_path: &String,
    cfg: &PatchConfig,
) -> (r: Result<PatchResult, PatchError>)
    requires
        cfg.do_not_correct || cfg.interrupt_address < 0xffff_ffffu32,
    ensures
        final(image)@.len() == old(image)@.len(),
        r is Err ==> final(image)@ == old(image)@,
        input_path@ == output_path@ ==> r is Err,
        r == Err::<PatchResult, PatchError>(PatchError::MalformedImage) <==> !(elf_parses(
            old(image)@,
        ) && obj_parses(old(image)@)),
        elf_parses(old(image)@) && obj_parses(old(image)@) && elf_is_64(old(image)@) ==> r == Err::<
            PatchResult,
            PatchError,
        >(PatchError::UnsupportedWidth),
        match r {
            Ok(res) => elf_parses(old(image)@) && obj_parses(old(image)@) && run_ok_describes(
                old(image)@,
                final(image)@,
                parsed_format(old(image)@),
                elf_sections_of(old(image)@),
                obj_symbols_of(old(image)@),
                input_path@,
                output_path@,
                *cfg,
                res,
            ),
            Err(e) => e == PatchError::MalformedImage || (elf_parses(old(image)@) && obj_parses(
                old(image)@,
            ) && run_err_describes(
                old(image)@,
                parsed_format(old(image)@),
                elf_sections_of(old(image)@),
                input_path@,
                output_path@,
                *cfg,
                e,
            )),
        },
{
    let meta = parse_elf_meta(image);
    let om = parse_object_meta(image);
    match (meta, om) {
        (Some(m), Some(o)) => {
            let fmt = ImageFormat {
                is_64: m.is_64,
                little_endian: m.little_endian,
                is_arm: o.is_arm,
            };
            run_patch(image, &fmt, &m.sections, &o.symbols, input_path, output_path, cfg)
        },
        _ => Err(PatchError::MalformedImage),
    }
}

} // verus!

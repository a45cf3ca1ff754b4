//! Patches an ARM firmware image's interrupt vector table: locates the
//! table's section by virtual address, picks a 4-byte slot, corrects the
//! handler address for Thumb mode against the symbol table, and overwrites
//! the slot with the little-endian encoding of the corrected address.

pub mod errors;
pub mod section;
pub mod symbol;
pub mod patcher;
pub mod slots;
pub mod validate;
pub mod pipeline;
pub mod elf_input;

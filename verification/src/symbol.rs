//! Symbol entries and the Thumb-mode address correction.
//!
//! A requested handler address is checked against the symbol table: a symbol
//! of nonzero size at exactly the raw address confirms it, one at the raw
//! address plus one marks a Thumb-mode entry point, whose convention is to
//! carry the least-significant bit set.

use vstd::prelude::*;

verus! {

/// One symbol-table entry, reduced to what the correction reads.
#[derive(Debug, Clone, Copy, PartialEq, Eq, Structural)]
pub struct SymbolInfo {
    pub address: u64,
    pub size: u64,
}

/// What the symbol lookup found for a raw target address.
#[derive(Debug, Clone, Copy, PartialEq, Eq, Structural)]
pub enum SymbolMatch {
    /// No qualifying symbol sits at the raw address or at the raw address
    /// plus one; the raw address is used unverified.
    NoMatch,
    /// A qualifying symbol sits at exactly the raw address; no correction
    /// is needed.
    MatchAtBase,
    /// A qualifying symbol sits at the raw address plus one; the target is a
    /// Thumb-mode entry point and the written address gets its low bit set.
    MatchAtBasePlusOne,
}

/// A symbol qualifies for `raw` when its size is nonzero and its address is
/// `raw` or `raw + 1`.
pub open spec fn symbol_matches(s: SymbolInfo, raw: u32) -> bool {
    s.size > 0 && (s.address as int == raw as int || s.address as int == raw as int + 1)
}

/// `i` is the index of the first qualifying symbol in the table's own order.
pub open spec fn first_symbol_match_at(symbols: Seq<SymbolInfo>, raw: u32, i: int) -> bool {
    &&& 0 <= i < symbols.len()
    &&& symbol_matches(symbols[i], raw)
    &&& forall|j: int| 0 <= j < i ==> !symbol_matches(symbols[j], raw)
}

/// The verdict `m` describes what the first qualifying symbol (if any) says
/// of `raw`.
pub open spec fn match_verdict(symbols: Seq<SymbolInfo>, raw: u32, m: SymbolMatch) -> bool {
    match m {
        SymbolMatch::NoMatch => forall|j: int|
            0 <= j < symbols.len() ==> !symbol_matches(symbols[j], raw),
        SymbolMatch::MatchAtBase => exists|i: int|
            first_symbol_match_at(symbols, raw, i) && symbols[i].address as int == raw as int,
        SymbolMatch::MatchAtBasePlusOne => exists|i: int|
            first_symbol_match_at(symbols, raw, i) && symbols[i].address as int == raw as int + 1,
    }
}

/// The value to write: `raw + 1` when the symbol sits one past the
/// requested target, otherwise `raw` itself.
pub open spec fn corrected_value(raw: u32, m: SymbolMatch) -> int {
    if m is MatchAtBasePlusOne {
        raw as int + 1
    } else {
        raw as int
    }
}

/// Searches the symbol table, in its own order, for the first symbol of
/// nonzero size whose address is `raw` or `raw + 1`, and reports which of
/// the two it was.
pub fn find_symbol_match(symbols: &Vec<SymbolInfo>, raw: u32) -> (m: SymbolMatch)
    ensures
        match_verdict(symbols@, raw, m),
{
    let n = symbols.len();
    let mut i: usize = 0;
    while i < n
        invariant
            n == symbols@.len(),
            0 <= i <= n,
            forall|j: int| 0 <= j < i ==> !symbol_matches(symbols@[j], raw),
        decreases n - i,
    {
        let s = symbols[i];
        if s.size > 0 && s.address == raw as u64 {
            assert(first_symbol_match_at(symbols@, raw, i as int));
            return SymbolMatch::MatchAtBase;
        }
        if s.size > 0 && s.address == raw as u64 + 1 {
            assert(first_symbol_match_at(symbols@, raw, i as int));
            return SymbolMatch::MatchAtBasePlusOne;
        }
        assert(!symbol_matches(symbols@[i as int], raw));
        i = i + 1;
    }
    SymbolMatch::NoMatch
}

/// Applies the lookup's verdict to the raw address.
pub fn corrected_address(raw: u32, m: SymbolMatch) -> (c: u32)
    requires
        m is MatchAtBasePlusOne ==> raw < 0xffff_ffffu32,
    ensures
        c as int == corrected_value(raw, m),
{
    match m {
        SymbolMatch::MatchAtBasePlusOne => raw + 1,
        _ => raw,
    }
}

} // verus!

use ivt_patch::symbol::{corrected_address, find_symbol_match, SymbolInfo, SymbolMatch};

fn sym(address: u64, size: u64) -> SymbolInfo {
    SymbolInfo { address, size }
}

#[test]
fn thumb_symbol_corrects_address_up_by_one() {
    // A symbol of nonzero size at 0x1001 for a requested target of 0x1000:
    // the corrected address is 0x1001.
    let symbols = vec![sym(0x1001, 8)];
    let m = find_symbol_match(&symbols, 0x1000);
    assert_eq!(m, SymbolMatch::MatchAtBasePlusOne);
    assert_eq!(corrected_address(0x1000, m), 0x1001);
}

#[test]
fn exact_symbol_keeps_address() {
    let symbols = vec![sym(0x2000, 4)];
    let m = find_symbol_match(&symbols, 0x2000);
    assert_eq!(m, SymbolMatch::MatchAtBase);
    assert_eq!(corrected_address(0x2000, m), 0x2000);
}

#[test]
fn zero_size_symbol_is_ignored() {
    let symbols = vec![sym(0x1001, 0), sym(0x1000, 0)];
    let m = find_symbol_match(&symbols, 0x1000);
    assert_eq!(m, SymbolMatch::NoMatch);
    assert_eq!(corrected_address(0x1000, m), 0x1000);
}

#[test]
fn no_symbol_leaves_address_unverified() {
    let symbols: Vec<SymbolInfo> = Vec::new();
    let m = find_symbol_match(&symbols, 0x1000);
    assert_eq!(m, SymbolMatch::NoMatch);
}

#[test]
fn first_qualifying_symbol_wins() {
    // Table order decides: the base match comes before the plus-one match.
    let symbols = vec![sym(0x3000, 2), sym(0x3001, 2)];
    let m = find_symbol_match(&symbols, 0x3000);
    assert_eq!(m, SymbolMatch::MatchAtBase);
}

#[test]
fn zero_size_entries_are_skipped_not_final() {
    let symbols = vec![sym(0x1000, 0), sym(0x1001, 4)];
    let m = find_symbol_match(&symbols, 0x1000);
    assert_eq!(m, SymbolMatch::MatchAtBasePlusOne);
}

use widecharwidth::WcLookupTable;
use widecharwidth::WcTables;
use widecharwidth::WcWidth;

#[test]
fn dense_matches_classifier_on_bmp() {
    // the agreement property: the dense table and the range classifier give
    // the same category for every codepoint of the Basic Multilingual Plane,
    // surrogates included
    let dense = WcLookupTable::new();
    let tables = WcTables::new();
    for c in 0u32..=0xFFFF {
        assert_eq!(dense.table[c as usize], tables.classify(c));
    }
}

#[test]
fn dense_lookup_matches_from_char() {
    let dense = WcLookupTable::new();
    let samples = [
        '\0', 'a', 'w', '\u{7f}', '\u{a1}', '\u{300}', '\u{1100}', '\u{1160}', '\u{231a}',
        '\u{270a}', '\u{3000}', '\u{d7ff}', '\u{e000}', '\u{fdd0}', '\u{fe00}', '\u{fffd}',
        '\u{ffff}', '\u{10000}', '\u{1f300}', '\u{20000}', '\u{3fffd}', '\u{e0001}', '\u{f0000}',
        '\u{10fffd}', '\u{10ffff}',
    ];
    for c in samples {
        assert_eq!(dense.classify(c), WcWidth::from_char(c));
    }
}

#[test]
fn dense_bmp_edge_slots() {
    let dense = WcLookupTable::new();
    assert_eq!(dense.table.len(), 0x10000);
    assert_eq!(dense.table[0xFFFD], WcWidth::Ambiguous);
    assert_eq!(dense.table[0xFFFE], WcWidth::NonCharacter);
    assert_eq!(dense.table[0xFFFF], WcWidth::NonCharacter);
    // surrogate halves are nonprinting, not an error
    assert_eq!(dense.table[0xD800], WcWidth::NonPrint);
    assert_eq!(dense.table[0xDFFF], WcWidth::NonPrint);
}

#[test]
fn category_samples_per_table() {
    let tables = WcTables::new();
    // one probe per category table, including both policies' widths
    assert_eq!(tables.classify(0x41), WcWidth::One);
    assert_eq!(tables.classify(0xE500), WcWidth::PrivateUse);
    assert_eq!(tables.classify(0x07), WcWidth::NonPrint);
    assert_eq!(tables.classify(0xFDD5), WcWidth::NonCharacter);
    assert_eq!(tables.classify(0x0301), WcWidth::Combining);
    assert_eq!(tables.classify(0x1161), WcWidth::Combining);
    assert_eq!(tables.classify(0x4E2D), WcWidth::Two);
    assert_eq!(tables.classify(0x00A1), WcWidth::Ambiguous);
    assert_eq!(tables.classify(0x0378), WcWidth::Unassigned);
    assert_eq!(tables.classify(0x231A), WcWidth::WidenedIn9);
}

use widecharwidth::WcLookupTable;
use widecharwidth::WcWidth;

#[test]
fn basics() {
    assert_eq!(WcWidth::from_char('w'), WcWidth::One);
    assert_eq!(WcWidth::from_char('\x1f'), WcWidth::NonPrint);
    assert_eq!(WcWidth::from_char('\u{e001}'), WcWidth::PrivateUse);
    assert_eq!(WcWidth::from_char('\u{2716}'), WcWidth::One);
    assert_eq!(WcWidth::from_char('\u{270a}'), WcWidth::WidenedIn9);
    assert_eq!(WcWidth::from_char('\u{3fffd}'), WcWidth::Two);
}

#[test]
fn scenario_categories_and_widths() {
    let cases = [
        ('w', WcWidth::One, 1, 1),
        ('\x1f', WcWidth::NonPrint, 0, 0),
        ('\u{e001}', WcWidth::PrivateUse, 1, 1),
        ('\u{2716}', WcWidth::One, 1, 1),
        ('\u{270a}', WcWidth::WidenedIn9, 1, 2),
        ('\u{3fffd}', WcWidth::Two, 2, 2),
    ];
    for (c, category, w8, w9) in cases {
        let got = WcWidth::from_char(c);
        assert_eq!(got, category);
        assert_eq!(got.width_unicode_8_or_earlier(), w8);
        assert_eq!(got.width_unicode_9_or_later(), w9);
    }
}

#[test]
fn dense_scenarios() {
    let dense = WcLookupTable::new();
    assert_eq!(dense.classify('w'), WcWidth::One);
    assert_eq!(dense.classify('\x1f'), WcWidth::NonPrint);
    assert_eq!(dense.classify('\u{e001}'), WcWidth::PrivateUse);
    assert_eq!(dense.classify('\u{2716}'), WcWidth::One);
    assert_eq!(dense.classify('\u{270a}'), WcWidth::WidenedIn9);
    assert_eq!(dense.classify('\u{3fffd}'), WcWidth::Two);
}

#[test]
fn totality_edges() {
    // classification is total: codepoint zero, the last Unicode codepoint,
    // and values beyond the Unicode range all get a category
    assert_eq!(WcWidth::from_codepoint(0), WcWidth::NonPrint);
    assert_eq!(WcWidth::from_char('\u{10ffff}'), WcWidth::NonCharacter);
    assert_eq!(WcWidth::from_codepoint(0x10FFFF), WcWidth::NonCharacter);
    assert_eq!(WcWidth::from_codepoint(0x110000), WcWidth::One);
    assert_eq!(WcWidth::from_codepoint(0xFFFF_FFFF), WcWidth::One);
    let dense = WcLookupTable::new();
    assert_eq!(dense.classify('\0'), WcWidth::NonPrint);
    assert_eq!(dense.classify('\u{10ffff}'), WcWidth::NonCharacter);
}

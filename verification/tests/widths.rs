use widecharwidth::UnicodeVersion;
use widecharwidth::WcWidth;

const ALL: [WcWidth; 9] = [
    WcWidth::One,
    WcWidth::Two,
    WcWidth::NonPrint,
    WcWidth::Combining,
    WcWidth::Ambiguous,
    WcWidth::PrivateUse,
    WcWidth::Unassigned,
    WcWidth::WidenedIn9,
    WcWidth::NonCharacter,
];

#[test]
fn width_table_unicode_8() {
    assert_eq!(WcWidth::One.width_unicode_8_or_earlier(), 1);
    assert_eq!(WcWidth::Two.width_unicode_8_or_earlier(), 2);
    assert_eq!(WcWidth::NonPrint.width_unicode_8_or_earlier(), 0);
    assert_eq!(WcWidth::Combining.width_unicode_8_or_earlier(), 0);
    assert_eq!(WcWidth::Ambiguous.width_unicode_8_or_earlier(), 1);
    assert_eq!(WcWidth::PrivateUse.width_unicode_8_or_earlier(), 1);
    assert_eq!(WcWidth::Unassigned.width_unicode_8_or_earlier(), 0);
    assert_eq!(WcWidth::WidenedIn9.width_unicode_8_or_earlier(), 1);
    assert_eq!(WcWidth::NonCharacter.width_unicode_8_or_earlier(), 0);
}

#[test]
fn width_table_unicode_9() {
    assert_eq!(WcWidth::One.width_unicode_9_or_later(), 1);
    assert_eq!(WcWidth::Two.width_unicode_9_or_later(), 2);
    assert_eq!(WcWidth::NonPrint.width_unicode_9_or_later(), 0);
    assert_eq!(WcWidth::Combining.width_unicode_9_or_later(), 0);
    assert_eq!(WcWidth::Ambiguous.width_unicode_9_or_later(), 1);
    assert_eq!(WcWidth::PrivateUse.width_unicode_9_or_later(), 1);
    assert_eq!(WcWidth::Unassigned.width_unicode_9_or_later(), 0);
    assert_eq!(WcWidth::WidenedIn9.width_unicode_9_or_later(), 2);
    assert_eq!(WcWidth::NonCharacter.width_unicode_9_or_later(), 0);
}

#[test]
fn monotonic_widening() {
    // the two conventions agree on every category except WidenedIn9,
    // which widens from one column to two and never narrows
    for w in ALL {
        let w8 = w.width_unicode_8_or_earlier();
        let w9 = w.width_unicode_9_or_later();
        assert!(w8 <= w9);
        if w == WcWidth::WidenedIn9 {
            assert_eq!(w8, 1);
            assert_eq!(w9, 2);
        } else {
            assert_eq!(w8, w9);
        }
    }
}

#[test]
fn width_for_version_matches_policies() {
    for w in ALL {
        assert_eq!(
            w.width_for_version(UnicodeVersion::Unicode8OrEarlier),
            w.width_unicode_8_or_earlier()
        );
        assert_eq!(
            w.width_for_version(UnicodeVersion::Unicode9OrLater),
            w.width_unicode_9_or_later()
        );
        assert!(w.width_for_version(UnicodeVersion::Unicode8OrEarlier) <= 2);
        assert!(w.width_for_version(UnicodeVersion::Unicode9OrLater) <= 2);
    }
}

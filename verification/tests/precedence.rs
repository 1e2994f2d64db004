use widecharwidth::in_table;
use widecharwidth::WcTables;
use widecharwidth::WcWidth;

fn empty_tables() -> WcTables {
    WcTables {
        ascii: Vec::new(),
        private: Vec::new(),
        nonprint: Vec::new(),
        combining: Vec::new(),
        combiningletters: Vec::new(),
        doublewide: Vec::new(),
        ambiguous: Vec::new(),
        unassigned: Vec::new(),
        noncharacters: Vec::new(),
        widenedin9: Vec::new(),
    }
}

#[test]
fn no_table_matched_defaults_to_one() {
    let t = empty_tables();
    assert_eq!(t.classify(0), WcWidth::One);
    assert_eq!(t.classify(0x41), WcWidth::One);
    assert_eq!(t.classify(0xFFFF_FFFF), WcWidth::One);
}

#[test]
fn precedence_ascii_beats_doublewide() {
    let mut t = empty_tables();
    t.ascii = vec![(10, 20)];
    t.doublewide = vec![(10, 20)];
    for c in 10..=20 {
        assert_eq!(t.classify(c), WcWidth::One);
    }
    assert_eq!(t.classify(21), WcWidth::One);
}

#[test]
fn precedence_private_beats_nonprint() {
    let mut t = empty_tables();
    t.private = vec![(10, 20)];
    t.nonprint = vec![(15, 25)];
    for c in 10..=20 {
        assert_eq!(t.classify(c), WcWidth::PrivateUse);
    }
    for c in 21..=25 {
        assert_eq!(t.classify(c), WcWidth::NonPrint);
    }
}

#[test]
fn precedence_combining_beats_doublewide() {
    let mut t = empty_tables();
    t.combining = vec![(5, 9)];
    t.doublewide = vec![(5, 12)];
    for c in 5..=9 {
        assert_eq!(t.classify(c), WcWidth::Combining);
    }
    for c in 10..=12 {
        assert_eq!(t.classify(c), WcWidth::Two);
    }
}

#[test]
fn precedence_widenedin9_loses_to_all() {
    let mut t = empty_tables();
    t.widenedin9 = vec![(5, 9)];
    t.unassigned = vec![(7, 9)];
    assert_eq!(t.classify(5), WcWidth::WidenedIn9);
    assert_eq!(t.classify(6), WcWidth::WidenedIn9);
    for c in 7..=9 {
        assert_eq!(t.classify(c), WcWidth::Unassigned);
    }
}

#[test]
fn range_boundaries() {
    // classification flips exactly at the inclusive endpoints of a range
    let mut t = empty_tables();
    t.ambiguous = vec![(0x50, 0x60), (0x70, 0x80)];
    assert_eq!(t.classify(0x4F), WcWidth::One);
    assert_eq!(t.classify(0x50), WcWidth::Ambiguous);
    assert_eq!(t.classify(0x60), WcWidth::Ambiguous);
    assert_eq!(t.classify(0x61), WcWidth::One);
    assert_eq!(t.classify(0x6F), WcWidth::One);
    assert_eq!(t.classify(0x70), WcWidth::Ambiguous);
    assert_eq!(t.classify(0x80), WcWidth::Ambiguous);
    assert_eq!(t.classify(0x81), WcWidth::One);
}

#[test]
fn in_table_membership() {
    let table = vec![(10, 20), (30, 40), (50, 50), (60, 100)];
    for c in 0..120 {
        let expected = (10 <= c && c <= 20) || (30 <= c && c <= 40) || c == 50 || (60 <= c
            && c <= 100);
        assert_eq!(in_table(&table, c), expected);
    }
}

#[test]
fn in_table_empty_and_single() {
    let none: Vec<(u32, u32)> = Vec::new();
    assert!(!in_table(&none, 0));
    assert!(!in_table(&none, 0xFFFF_FFFF));
    let one = vec![(7, 7)];
    assert!(!in_table(&one, 6));
    assert!(in_table(&one, 7));
    assert!(!in_table(&one, 8));
}

//! The nine category range tables and their well-formedness.
//!
//! Each table is an ordered sequence of inclusive codepoint intervals,
//! sorted ascending, pairwise disjoint and with merged neighbours, as the
//! offline Unicode data generator guarantees. The spec functions below are
//! the mathematical contents of the tables; the executable builders
//! construct the same data as vectors.

use vstd::prelude::*;

verus! {

/// An inclusive codepoint interval `(start, end)` with `start <= end`.
pub open spec fn range_ok(r: (u32, u32)) -> bool {
    r.0 <= r.1
}

/// A table contains a codepoint when one of its ranges does.
pub open spec fn seq_contains_cp(t: Seq<(u32, u32)>, c: u32) -> bool {
    exists|i: int| 0 <= i < t.len() && (#[trigger] t[i]).0 <= c && c <= t[i].1
}

/// Well-formedness of one table: every range is an interval, and the ranges
/// are sorted ascending, pairwise disjoint, and separated by at least one
/// codepoint (adjacent ranges are merged by the generator).
pub open spec fn table_wf(t: Seq<(u32, u32)>) -> bool {
    &&& forall|i: int| 0 <= i < t.len() ==> range_ok(#[trigger] t[i])
    &&& forall|i: int, j: int|
        0 <= i < j < t.len() ==> (#[trigger] t[i]).1 + 1 < (#[trigger] t[j]).0
}


/// No range of the table reaches into the band that the ASCII table covers,
/// so a codepoint classified as ASCII lies in no other table.
pub open spec fn avoids_ascii_band(t: Seq<(u32, u32)>) -> bool {
    forall|j: int| 0 <= j < t.len() ==> ((#[trigger] t[j]).0 > 0x7E || t[j].1 < 0x20)
}

/// The gap between two ranges follows from the gaps between neighbours.
proof fn lemma_gap_transitive(t: Seq<(u32, u32)>, i: int, j: int)
    requires
        forall|k: int| 0 <= k < t.len() ==> range_ok(#[trigger] t[k]),
        forall|k: int| 0 <= k && k + 1 < t.len() ==> (#[trigger] t[k]).1 + 1 < t[k + 1].0,
        0 <= i < j < t.len(),
    ensures
        t[i].1 + 1 < t[j].0,
    decreases j - i,
{
    if j > i + 1 {
        lemma_gap_transitive(t, i, j - 1);
        assert(t[j - 1].1 + 1 < t[j].0);
        assert(range_ok(t[j - 1]));
    }
}

/// A table whose consecutive ranges are intervals separated by a gap is
/// well-formed.
pub proof fn lemma_table_wf_from_consecutive(t: Seq<(u32, u32)>)
    requires
        forall|k: int| 0 <= k < t.len() ==> range_ok(#[trigger] t[k]),
        forall|k: int| 0 <= k && k + 1 < t.len() ==> (#[trigger] t[k]).1 + 1 < t[k + 1].0,
    ensures
        table_wf(t),
{
    assert forall|i: int, j: int|
        0 <= i < j < t.len() implies (#[trigger] t[i]).1 + 1 < (#[trigger] t[j]).0 by {
        lemma_gap_transitive(t, i, j);
    }
}

/// Range boundary law: for a well-formed table holding the range at index
/// `i`, both endpoints of that range are classified into the table, while
/// the codepoints immediately before its start and immediately after its end
/// are in no range of the same table.
pub proof fn lemma_range_boundaries(t: Seq<(u32, u32)>, i: int)
    requires
        table_wf(t),
        0 <= i < t.len(),
    ensures
        seq_contains_cp(t, t[i].0),
        seq_contains_cp(t, t[i].1),
        t[i].0 > 0 ==> !seq_contains_cp(t, (t[i].0 - 1) as u32),
        t[i].1 < 0xFFFFFFFFu32 ==> !seq_contains_cp(t, (t[i].1 + 1) as u32),
{
    assert(range_ok(t[i]));
    if t[i].0 > 0 {
        let b = (t[i].0 - 1) as u32;
        assert forall|j: int| 0 <= j < t.len() implies !((#[trigger] t[j]).0 <= b && b <= t[j].1) by {
            if j < i {
                assert(t[j].1 + 1 < t[i].0);
            } else if j > i {
                assert(t[i].1 + 1 < t[j].0);
            }
        }
    }
    if t[i].1 < 0xFFFFFFFFu32 {
        let a = (t[i].1 + 1) as u32;
        assert forall|j: int| 0 <= j < t.len() implies !((#[trigger] t[j]).0 <= a && a <= t[j].1) by {
            if j < i {
                assert(t[j].1 + 1 < t[i].0);
            } else if j > i {
                assert(t[i].1 + 1 < t[j].0);
            }
        }
    }
}

/// Simple ASCII characters - used a lot, so they are probed first.
pub open spec fn ascii_ranges() -> Seq<(u32, u32)> {
    seq![(0x20u32, 0x7Eu32)]
}

/// Ambiguous-width characters.
pub open spec fn ambiguous_ranges() -> Seq<(u32, u32)> {
    seq![
        (0xA1u32, 0xA1u32),
        (0xA4u32, 0xA4u32),
        (0xA7u32, 0xA8u32),
        (0xAAu32, 0xAAu32),
        (0xB0u32, 0xB4u32),
        (0xB6u32, 0xBAu32),
        (0xBCu32, 0xBFu32),
        (0xC6u32, 0xC6u32),
        (0xD0u32, 0xD0u32),
        (0xD7u32, 0xD8u32),
        (0xDEu32, 0xE1u32),
        (0xE6u32, 0xE6u32),
        (0xE8u32, 0xEAu32),
        (0xECu32, 0xEDu32),
        (0xF0u32, 0xF0u32),
        (0xF2u32, 0xF3u32),
        (0xF7u32, 0xFAu32),
        (0xFCu32, 0xFCu32),
        (0xFEu32, 0xFEu32),
        (0x2018u32, 0x2019u32),
        (0x201Cu32, 0x201Du32),
        (0x2020u32, 0x2022u32),
        (0x2024u32, 0x2027u32),
        (0x2030u32, 0x2030u32),
        (0x2032u32, 0x2033u32),
        (0x2035u32, 0x2035u32),
        (0x203Bu32, 0x203Bu32),
        (0x2460u32, 0x24E9u32),
        (0x24EBu32, 0x254Bu32),
        (0x2550u32, 0x2573u32),
        (0x2580u32, 0x258Fu32),
        (0x2592u32, 0x2595u32),
        (0x25A0u32, 0x25A1u32),
        (0x2660u32, 0x2661u32),
        (0x2663u32, 0x2665u32),
        (0x2667u32, 0x266Au32),
        (0x266Cu32, 0x266Du32),
        (0x266Fu32, 0x266Fu32),
        (0xFFFDu32, 0xFFFDu32),
    ]
}

/// The ASCII table is well-formed.
pub proof fn lemma_ascii_wf()
    ensures
        table_wf(ascii_ranges()),
{
    let t = ascii_ranges();
    assert forall|k: int| 0 <= k < t.len() implies range_ok(#[trigger] t[k]) by {}
    assert forall|k: int| 0 <= k && k + 1 < t.len() implies (#[trigger] t[k]).1 + 1 < t[k + 1].0 by {}
    lemma_table_wf_from_consecutive(t);
}

/// The ambiguous table is well-formed and stays clear of the ASCII band.
pub proof fn lemma_ambiguous_wf()
    ensures
        table_wf(ambiguous_ranges()),
        avoids_ascii_band(ambiguous_ranges()),
{
    let t = ambiguous_ranges();
    assert forall|k: int| 0 <= k < t.len() implies range_ok(#[trigger] t[k]) by {}
    assert forall|k: int| 0 <= k && k + 1 < t.len() implies (#[trigger] t[k]).1 + 1 < t[k + 1].0 by {}
    assert forall|j: int| 0 <= j < t.len() implies ((#[trigger] t[j]).0 > 0x7E || t[j].1
        < 0x20) by {}
    lemma_table_wf_from_consecutive(t);
}

/// Builds the ASCII table.
pub fn ascii_table() -> (t: Vec<(u32, u32)>)
    ensures
        t@ == ascii_ranges(),
{
    let mut t: Vec<(u32, u32)> = Vec::new();
    t.push((0x20, 0x7E));
    proof {
        assert(t@ =~= ascii_ranges());
    }
    t
}

/// Builds the ambiguous table.
pub fn ambiguous_table() -> (t: Vec<(u32, u32)>)
    ensures
        t@ == ambiguous_ranges(),
{
    let mut t: Vec<(u32, u32)> = Vec::new();
    t.push((0xA1, 0xA1));
    t.push((0xA4, 0xA4));
    t.push((0xA7, 0xA8));
    t.push((0xAA, 0xAA));
    t.push((0xB0, 0xB4));
    t.push((0xB6, 0xBA));
    t.push((0xBC, 0xBF));
    t.push((0xC6, 0xC6));
    t.push((0xD0, 0xD0));
    t.push((0xD7, 0xD8));
    t.push((0xDE, 0xE1));
    t.push((0xE6, 0xE6));
    t.push((0xE8, 0xEA));
    t.push((0xEC, 0xED));
    t.push((0xF0, 0xF0));
    t.push((0xF2, 0xF3));
    t.push((0xF7, 0xFA));
    t.push((0xFC, 0xFC));
    t.push((0xFE, 0xFE));
    t.push((0x2018, 0x2019));
    t.push((0x201C, 0x201D));
    t.push((0x2020, 0x2022));
    t.push((0x2024, 0x2027));
    t.push((0x2030, 0x2030));
    t.push((0x2032, 0x2033));
    t.push((0x2035, 0x2035));
    t.push((0x203B, 0x203B));
    t.push((0x2460, 0x24E9));
    t.push((0x24EB, 0x254B));
    t.push((0x2550, 0x2573));
    t.push((0x2580, 0x258F));
    t.push((0x2592, 0x2595));
    t.push((0x25A0, 0x25A1));
    t.push((0x2660, 0x2661));
    t.push((0x2663, 0x2665));
    t.push((0x2667, 0x266A));
    t.push((0x266C, 0x266D));
    t.push((0x266F, 0x266F));
    t.push((0xFFFD, 0xFFFD));
    proof {
        assert(t@ =~= ambiguous_ranges());
    }
    t
}

/// Private usage ranges.
pub open spec fn private_ranges() -> Seq<(u32, u32)> {
    seq![
        (0xE000u32, 0xF8FFu32),
        (0xF0000u32, 0xFFFFDu32),
        (0x100000u32, 0x10FFFDu32),
    ]
}

/// The private table is well-formed and stays clear of the ASCII band.
pub proof fn lemma_private_wf()
    ensures
        table_wf(private_ranges()),
        avoids_ascii_band(private_ranges()),
{
    let t = private_ranges();
    assert forall|k: int| 0 <= k < t.len() implies range_ok(#[trigger] t[k]) by {}
    assert forall|k: int| 0 <= k && k + 1 < t.len() implies (#[trigger] t[k]).1 + 1 < t[k
        + 1].0 by {}
    assert forall|j: int| 0 <= j < t.len() implies ((#[trigger] t[j]).0 > 0x7E || t[j].1
        < 0x20) by {}
    lemma_table_wf_from_consecutive(t);
}

/// Builds the private table.
pub fn private_table() -> (t: Vec<(u32, u32)>)
    ensures
        t@ == private_ranges(),
{
    let mut t: Vec<(u32, u32)> = Vec::new();
    t.push((0xE000, 0xF8FF));
    t.push((0xF0000, 0xFFFFD));
    t.push((0x100000, 0x10FFFD));
    proof {
        assert(t@ =~= private_ranges());
    }
    t
}

/// Nonprinting characters.
pub open spec fn nonprint_ranges() -> Seq<(u32, u32)> {
    seq![
        (0x0u32, 0x1Fu32),
        (0x7Fu32, 0xA0u32),
        (0xADu32, 0xADu32),
        (0x600u32, 0x605u32),
        (0x61Cu32, 0x61Cu32),
        (0x6DDu32, 0x6DDu32),
        (0x70Fu32, 0x70Fu32),
        (0x8E2u32, 0x8E2u32),
        (0x180Eu32, 0x180Eu32),
        (0x200Bu32, 0x200Fu32),
        (0x202Au32, 0x202Eu32),
        (0x2060u32, 0x2064u32),
        (0x2066u32, 0x206Fu32),
        (0xD800u32, 0xDFFFu32),
        (0xFEFFu32, 0xFEFFu32),
        (0xFFF9u32, 0xFFFBu32),
        (0x110BDu32, 0x110BDu32),
        (0x1BCA0u32, 0x1BCA3u32),
        (0x1D173u32, 0x1D17Au32),
        (0xE0001u32, 0xE0001u32),
        (0xE0020u32, 0xE007Fu32),
    ]
}

/// The nonprint table is well-formed and stays clear of the ASCII band.
pub proof fn lemma_nonprint_wf()
    ensures
        table_wf(nonprint_ranges()),
        avoids_ascii_band(nonprint_ranges()),
{
    let t = nonprint_ranges();
    assert forall|k: int| 0 <= k < t.len() implies range_ok(#[trigger] t[k]) by {}
    assert forall|k: int| 0 <= k && k + 1 < t.len() implies (#[trigger] t[k]).1 + 1 < t[k
        + 1].0 by {}
    assert forall|j: int| 0 <= j < t.len() implies ((#[trigger] t[j]).0 > 0x7E || t[j].1
        < 0x20) by {}
    lemma_table_wf_from_consecutive(t);
}

/// Builds the nonprint table.
pub fn nonprint_table() -> (t: Vec<(u32, u32)>)
    ensures
        t@ == nonprint_ranges(),
{
    let mut t: Vec<(u32, u32)> = Vec::new();
    t.push((0x0, 0x1F));
    t.push((0x7F, 0xA0));
    t.push((0xAD, 0xAD));
    t.push((0x600, 0x605));
    t.push((0x61C, 0x61C));
    t.push((0x6DD, 0x6DD));
    t.push((0x70F, 0x70F));
    t.push((0x8E2, 0x8E2));
    t.push((0x180E, 0x180E));
    t.push((0x200B, 0x200F));
    t.push((0x202A, 0x202E));
    t.push((0x2060, 0x2064));
    t.push((0x2066, 0x206F));
    t.push((0xD800, 0xDFFF));
    t.push((0xFEFF, 0xFEFF));
    t.push((0xFFF9, 0xFFFB));
    t.push((0x110BD, 0x110BD));
    t.push((0x1BCA0, 0x1BCA3));
    t.push((0x1D173, 0x1D17A));
    t.push((0xE0001, 0xE0001));
    t.push((0xE0020, 0xE007F));
    proof {
        assert(t@ =~= nonprint_ranges());
    }
    t
}

/// Width 0 combining marks.
pub open spec fn combining_ranges() -> Seq<(u32, u32)> {
    seq![
        (0x300u32, 0x36Fu32),
        (0x483u32, 0x489u32),
        (0x591u32, 0x5BDu32),
        (0x5BFu32, 0x5BFu32),
        (0x5C1u32, 0x5C2u32),
        (0x5C4u32, 0x5C5u32),
        (0x5C7u32, 0x5C7u32),
        (0x610u32, 0x61Au32),
        (0x64Bu32, 0x65Fu32),
        (0x670u32, 0x670u32),
        (0x6D6u32, 0x6DCu32),
        (0x6DFu32, 0x6E4u32),
        (0x6E7u32, 0x6E8u32),
        (0x6EAu32, 0x6EDu32),
        (0x711u32, 0x711u32),
        (0x730u32, 0x74Au32),
        (0x7A6u32, 0x7B0u32),
        (0x7EBu32, 0x7F3u32),
        (0x816u32, 0x819u32),
        (0x81Bu32, 0x823u32),
        (0x825u32, 0x827u32),
        (0x829u32, 0x82Du32),
        (0x859u32, 0x85Bu32),
        (0x8D4u32, 0x8E1u32),
        (0x8E3u32, 0x902u32),
        (0x93Au32, 0x93Au32),
        (0x93Cu32, 0x93Cu32),
        (0x941u32, 0x948u32),
        (0x94Du32, 0x94Du32),
        (0x951u32, 0x957u32),
        (0x962u32, 0x963u32),
        (0x20D0u32, 0x20F0u32),
        (0xFE00u32, 0xFE0Fu32),
        (0xFE20u32, 0xFE2Fu32),
        (0x101FDu32, 0x101FDu32),
        (0x1D165u32, 0x1D169u32),
        (0xE0100u32, 0xE01EFu32),
    ]
}

/// The combining table is well-formed and stays clear of the ASCII band.
pub proof fn lemma_combining_wf()
    ensures
        table_wf(combining_ranges()),
        avoids_ascii_band(combining_ranges()),
{
    let t = combining_ranges();
    assert forall|k: int| 0 <= k < t.len() implies range_ok(#[trigger] t[k]) by {}
    assert forall|k: int| 0 <= k && k + 1 < t.len() implies (#[trigger] t[k]).1 + 1 < t[k
        + 1].0 by {}
    assert forall|j: int| 0 <= j < t.len() implies ((#[trigger] t[j]).0 > 0x7E || t[j].1
        < 0x20) by {}
    lemma_table_wf_from_consecutive(t);
}

/// Builds the combining table.
pub fn combining_table() -> (t: Vec<(u32, u32)>)
    ensures
        t@ == combining_ranges(),
{
    let mut t: Vec<(u32, u32)> = Vec::new();
    t.push((0x300, 0x36F));
    t.push((0x483, 0x489));
    t.push((0x591, 0x5BD));
    t.push((0x5BF, 0x5BF));
    t.push((0x5C1, 0x5C2));
    t.push((0x5C4, 0x5C5));
    t.push((0x5C7, 0x5C7));
    t.push((0x610, 0x61A));
    t.push((0x64B, 0x65F));
    t.push((0x670, 0x670));
    t.push((0x6D6, 0x6DC));
    t.push((0x6DF, 0x6E4));
    t.push((0x6E7, 0x6E8));
    t.push((0x6EA, 0x6ED));
    t.push((0x711, 0x711));
    t.push((0x730, 0x74A));
    t.push((0x7A6, 0x7B0));
    t.push((0x7EB, 0x7F3));
    t.push((0x816, 0x819));
    t.push((0x81B, 0x823));
    t.push((0x825, 0x827));
    t.push((0x829, 0x82D));
    t.push((0x859, 0x85B));
    t.push((0x8D4, 0x8E1));
    t.push((0x8E3, 0x902));
    t.push((0x93A, 0x93A));
    t.push((0x93C, 0x93C));
    t.push((0x941, 0x948));
    t.push((0x94D, 0x94D));
    t.push((0x951, 0x957));
    t.push((0x962, 0x963));
    t.push((0x20D0, 0x20F0));
    t.push((0xFE00, 0xFE0F));
    t.push((0xFE20, 0xFE2F));
    t.push((0x101FD, 0x101FD));
    t.push((0x1D165, 0x1D169));
    t.push((0xE0100, 0xE01EF));
    proof {
        assert(t@ =~= combining_ranges());
    }
    t
}

/// Width 0 combining letters.
pub open spec fn combiningletters_ranges() -> Seq<(u32, u32)> {
    seq![
        (0x1160u32, 0x11FFu32),
        (0xD7B0u32, 0xD7C6u32),
        (0xD7CBu32, 0xD7FBu32),
    ]
}

/// The combiningletters table is well-formed and stays clear of the ASCII band.
pub proof fn lemma_combiningletters_wf()
    ensures
        table_wf(combiningletters_ranges()),
        avoids_ascii_band(combiningletters_ranges()),
{
    let t = combiningletters_ranges();
    assert forall|k: int| 0 <= k < t.len() implies range_ok(#[trigger] t[k]) by {}
    assert forall|k: int| 0 <= k && k + 1 < t.len() implies (#[trigger] t[k]).1 + 1 < t[k
        + 1].0 by {}
    assert forall|j: int| 0 <= j < t.len() implies ((#[trigger] t[j]).0 > 0x7E || t[j].1
        < 0x20) by {}
    lemma_table_wf_from_consecutive(t);
}

/// Builds the combiningletters table.
pub fn combiningletters_table() -> (t: Vec<(u32, u32)>)
    ensures
        t@ == combiningletters_ranges(),
{
    let mut t: Vec<(u32, u32)> = Vec::new();
    t.push((0x1160, 0x11FF));
    t.push((0xD7B0, 0xD7C6));
    t.push((0xD7CB, 0xD7FB));
    proof {
        assert(t@ =~= combiningletters_ranges());
    }
    t
}

/// Width 2 characters.
pub open spec fn doublewide_ranges() -> Seq<(u32, u32)> {
    seq![
        (0x1100u32, 0x115Fu32),
        (0x2E80u32, 0x303Eu32),
        (0x3041u32, 0x4DBFu32),
        (0x4E00u32, 0xA4CFu32),
        (0xA960u32, 0xA97Fu32),
        (0xAC00u32, 0xD7A3u32),
        (0xF900u32, 0xFAFFu32),
        (0xFE10u32, 0xFE19u32),
        (0xFE30u32, 0xFE52u32),
        (0xFE54u32, 0xFE66u32),
        (0xFE68u32, 0xFE6Bu32),
        (0xFF01u32, 0xFF60u32),
        (0xFFE0u32, 0xFFE6u32),
        (0x16FE0u32, 0x16FE1u32),
        (0x17000u32, 0x187ECu32),
        (0x18800u32, 0x18AF2u32),
        (0x1B000u32, 0x1B11Eu32),
        (0x1F200u32, 0x1F202u32),
        (0x1F210u32, 0x1F23Bu32),
        (0x1F240u32, 0x1F248u32),
        (0x1F250u32, 0x1F251u32),
        (0x20000u32, 0x2FFFDu32),
        (0x30000u32, 0x3FFFDu32),
    ]
}

/// The doublewide table is well-formed and stays clear of the ASCII band.
pub proof fn lemma_doublewide_wf()
    ensures
        table_wf(doublewide_ranges()),
        avoids_ascii_band(doublewide_ranges()),
{
    let t = doublewide_ranges();
    assert forall|k: int| 0 <= k < t.len() implies range_ok(#[trigger] t[k]) by {}
    assert forall|k: int| 0 <= k && k + 1 < t.len() implies (#[trigger] t[k]).1 + 1 < t[k
        + 1].0 by {}
    assert forall|j: int| 0 <= j < t.len() implies ((#[trigger] t[j]).0 > 0x7E || t[j].1
        < 0x20) by {}
    lemma_table_wf_from_consecutive(t);
}

/// Builds the doublewide table.
pub fn doublewide_table() -> (t: Vec<(u32, u32)>)
    ensures
        t@ == doublewide_ranges(),
{
    let mut t: Vec<(u32, u32)> = Vec::new();
    t.push((0x1100, 0x115F));
    t.push((0x2E80, 0x303E));
    t.push((0x3041, 0x4DBF));
    t.push((0x4E00, 0xA4CF));
    t.push((0xA960, 0xA97F));
    t.push((0xAC00, 0xD7A3));
    t.push((0xF900, 0xFAFF));
    t.push((0xFE10, 0xFE19));
    t.push((0xFE30, 0xFE52));
    t.push((0xFE54, 0xFE66));
    t.push((0xFE68, 0xFE6B));
    t.push((0xFF01, 0xFF60));
    t.push((0xFFE0, 0xFFE6));
    t.push((0x16FE0, 0x16FE1));
    t.push((0x17000, 0x187EC));
    t.push((0x18800, 0x18AF2));
    t.push((0x1B000, 0x1B11E));
    t.push((0x1F200, 0x1F202));
    t.push((0x1F210, 0x1F23B));
    t.push((0x1F240, 0x1F248));
    t.push((0x1F250, 0x1F251));
    t.push((0x20000, 0x2FFFD));
    t.push((0x30000, 0x3FFFD));
    proof {
        assert(t@ =~= doublewide_ranges());
    }
    t
}

/// Unassigned characters.
pub open spec fn unassigned_ranges() -> Seq<(u32, u32)> {
    seq![
        (0x378u32, 0x379u32),
        (0x380u32, 0x383u32),
        (0x38Bu32, 0x38Bu32),
        (0x38Du32, 0x38Du32),
        (0x3A2u32, 0x3A2u32),
        (0x530u32, 0x530u32),
        (0x557u32, 0x558u32),
        (0x58Bu32, 0x58Cu32),
        (0x5C8u32, 0x5CFu32),
        (0x5EBu32, 0x5EEu32),
        (0x7B2u32, 0x7BFu32),
        (0x85Fu32, 0x85Fu32),
        (0x2072u32, 0x2073u32),
        (0x208Fu32, 0x208Fu32),
        (0x2FFCu32, 0x2FFFu32),
        (0xE01F0u32, 0xE0FFFu32),
    ]
}

/// The unassigned table is well-formed and stays clear of the ASCII band.
pub proof fn lemma_unassigned_wf()
    ensures
        table_wf(unassigned_ranges()),
        avoids_ascii_band(unassigned_ranges()),
{
    let t = unassigned_ranges();
    assert forall|k: int| 0 <= k < t.len() implies range_ok(#[trigger] t[k]) by {}
    assert forall|k: int| 0 <= k && k + 1 < t.len() implies (#[trigger] t[k]).1 + 1 < t[k
        + 1].0 by {}
    assert forall|j: int| 0 <= j < t.len() implies ((#[trigger] t[j]).0 > 0x7E || t[j].1
        < 0x20) by {}
    lemma_table_wf_from_consecutive(t);
}

/// Builds the unassigned table.
pub fn unassigned_table() -> (t: Vec<(u32, u32)>)
    ensures
        t@ == unassigned_ranges(),
{
    let mut t: Vec<(u32, u32)> = Vec::new();
    t.push((0x378, 0x379));
    t.push((0x380, 0x383));
    t.push((0x38B, 0x38B));
    t.push((0x38D, 0x38D));
    t.push((0x3A2, 0x3A2));
    t.push((0x530, 0x530));
    t.push((0x557, 0x558));
    t.push((0x58B, 0x58C));
    t.push((0x5C8, 0x5CF));
    t.push((0x5EB, 0x5EE));
    t.push((0x7B2, 0x7BF));
    t.push((0x85F, 0x85F));
    t.push((0x2072, 0x2073));
    t.push((0x208F, 0x208F));
    t.push((0x2FFC, 0x2FFF));
    t.push((0xE01F0, 0xE0FFF));
    proof {
        assert(t@ =~= unassigned_ranges());
    }
    t
}

/// Non-characters.
pub open spec fn noncharacters_ranges() -> Seq<(u32, u32)> {
    seq![
        (0xFDD0u32, 0xFDEFu32),
        (0xFFFEu32, 0xFFFFu32),
        (0x1FFFEu32, 0x1FFFFu32),
        (0x2FFFEu32, 0x2FFFFu32),
        (0x3FFFEu32, 0x3FFFFu32),
        (0x4FFFEu32, 0x4FFFFu32),
        (0x5FFFEu32, 0x5FFFFu32),
        (0x6FFFEu32, 0x6FFFFu32),
        (0x7FFFEu32, 0x7FFFFu32),
        (0x8FFFEu32, 0x8FFFFu32),
        (0x9FFFEu32, 0x9FFFFu32),
        (0xAFFFEu32, 0xAFFFFu32),
        (0xBFFFEu32, 0xBFFFFu32),
        (0xCFFFEu32, 0xCFFFFu32),
        (0xDFFFEu32, 0xDFFFFu32),
        (0xEFFFEu32, 0xEFFFFu32),
        (0xFFFFEu32, 0xFFFFFu32),
        (0x10FFFEu32, 0x10FFFFu32),
    ]
}

/// The noncharacters table is well-formed and stays clear of the ASCII band.
pub proof fn lemma_noncharacters_wf()
    ensures
        table_wf(noncharacters_ranges()),
        avoids_ascii_band(noncharacters_ranges()),
{
    let t = noncharacters_ranges();
    assert forall|k: int| 0 <= k < t.len() implies range_ok(#[trigger] t[k]) by {}
    assert forall|k: int| 0 <= k && k + 1 < t.len() implies (#[trigger] t[k]).1 + 1 < t[k
        + 1].0 by {}
    assert forall|j: int| 0 <= j < t.len() implies ((#[trigger] t[j]).0 > 0x7E || t[j].1
        < 0x20) by {}
    lemma_table_wf_from_consecutive(t);
}

/// Builds the noncharacters table.
pub fn noncharacters_table() -> (t: Vec<(u32, u32)>)
    ensures
        t@ == noncharacters_ranges(),
{
    let mut t: Vec<(u32, u32)> = Vec::new();
    t.push((0xFDD0, 0xFDEF));
    t.push((0xFFFE, 0xFFFF));
    t.push((0x1FFFE, 0x1FFFF));
    t.push((0x2FFFE, 0x2FFFF));
    t.push((0x3FFFE, 0x3FFFF));
    t.push((0x4FFFE, 0x4FFFF));
    t.push((0x5FFFE, 0x5FFFF));
    t.push((0x6FFFE, 0x6FFFF));
    t.push((0x7FFFE, 0x7FFFF));
    t.push((0x8FFFE, 0x8FFFF));
    t.push((0x9FFFE, 0x9FFFF));
    t.push((0xAFFFE, 0xAFFFF));
    t.push((0xBFFFE, 0xBFFFF));
    t.push((0xCFFFE, 0xCFFFF));
    t.push((0xDFFFE, 0xDFFFF));
    t.push((0xEFFFE, 0xEFFFF));
    t.push((0xFFFFE, 0xFFFFF));
    t.push((0x10FFFE, 0x10FFFF));
    proof {
        assert(t@ =~= noncharacters_ranges());
    }
    t
}

/// Characters that were widened from width 1 to 2 in Unicode 9.
pub open spec fn widenedin9_ranges() -> Seq<(u32, u32)> {
    seq![
        (0x231Au32, 0x231Bu32),
        (0x23E9u32, 0x23ECu32),
        (0x23F0u32, 0x23F0u32),
        (0x23F3u32, 0x23F3u32),
        (0x25FDu32, 0x25FEu32),
        (0x2614u32, 0x2615u32),
        (0x2648u32, 0x2653u32),
        (0x267Fu32, 0x267Fu32),
        (0x2693u32, 0x2693u32),
        (0x26A1u32, 0x26A1u32),
        (0x26AAu32, 0x26ABu32),
        (0x26BDu32, 0x26BEu32),
        (0x26C4u32, 0x26C5u32),
        (0x26CEu32, 0x26CEu32),
        (0x26D4u32, 0x26D4u32),
        (0x26EAu32, 0x26EAu32),
        (0x26F2u32, 0x26F3u32),
        (0x26F5u32, 0x26F5u32),
        (0x26FAu32, 0x26FAu32),
        (0x26FDu32, 0x26FDu32),
        (0x2705u32, 0x2705u32),
        (0x270Au32, 0x270Bu32),
        (0x2728u32, 0x2728u32),
        (0x274Cu32, 0x274Cu32),
        (0x274Eu32, 0x274Eu32),
        (0x2753u32, 0x2755u32),
        (0x2757u32, 0x2757u32),
        (0x2795u32, 0x2797u32),
        (0x27B0u32, 0x27B0u32),
        (0x27BFu32, 0x27BFu32),
        (0x2B1Bu32, 0x2B1Cu32),
        (0x2B50u32, 0x2B50u32),
        (0x2B55u32, 0x2B55u32),
        (0x1F004u32, 0x1F004u32),
        (0x1F300u32, 0x1F320u32),
        (0x1F680u32, 0x1F6C5u32),
        (0x1F910u32, 0x1F91Eu32),
    ]
}

/// The widenedin9 table is well-formed and stays clear of the ASCII band.
pub proof fn lemma_widenedin9_wf()
    ensures
        table_wf(widenedin9_ranges()),
        avoids_ascii_band(widenedin9_ranges()),
{
    let t = widenedin9_ranges();
    assert forall|k: int| 0 <= k < t.len() implies range_ok(#[trigger] t[k]) by {}
    assert forall|k: int| 0 <= k && k + 1 < t.len() implies (#[trigger] t[k]).1 + 1 < t[k
        + 1].0 by {}
    assert forall|j: int| 0 <= j < t.len() implies ((#[trigger] t[j]).0 > 0x7E || t[j].1
        < 0x20) by {}
    lemma_table_wf_from_consecutive(t);
}

/// Builds the widenedin9 table.
pub fn widenedin9_table() -> (t: Vec<(u32, u32)>)
    ensures
        t@ == widenedin9_ranges(),
{
    let mut t: Vec<(u32, u32)> = Vec::new();
    t.push((0x231A, 0x231B));
    t.push((0x23E9, 0x23EC));
    t.push((0x23F0, 0x23F0));
    t.push((0x23F3, 0x23F3));
    t.push((0x25FD, 0x25FE));
    t.push((0x2614, 0x2615));
    t.push((0x2648, 0x2653));
    t.push((0x267F, 0x267F));
    t.push((0x2693, 0x2693));
    t.push((0x26A1, 0x26A1));
    t.push((0x26AA, 0x26AB));
    t.push((0x26BD, 0x26BE));
    t.push((0x26C4, 0x26C5));
    t.push((0x26CE, 0x26CE));
    t.push((0x26D4, 0x26D4));
    t.push((0x26EA, 0x26EA));
    t.push((0x26F2, 0x26F3));
    t.push((0x26F5, 0x26F5));
    t.push((0x26FA, 0x26FA));
    t.push((0x26FD, 0x26FD));
    t.push((0x2705, 0x2705));
    t.push((0x270A, 0x270B));
    t.push((0x2728, 0x2728));
    t.push((0x274C, 0x274C));
    t.push((0x274E, 0x274E));
    t.push((0x2753, 0x2755));
    t.push((0x2757, 0x2757));
    t.push((0x2795, 0x2797));
    t.push((0x27B0, 0x27B0));
    t.push((0x27BF, 0x27BF));
    t.push((0x2B1B, 0x2B1C));
    t.push((0x2B50, 0x2B50));
    t.push((0x2B55, 0x2B55));
    t.push((0x1F004, 0x1F004));
    t.push((0x1F300, 0x1F320));
    t.push((0x1F680, 0x1F6C5));
    t.push((0x1F910, 0x1F91E));
    proof {
        assert(t@ =~= widenedin9_ranges());
    }
    t
}

} // verus!

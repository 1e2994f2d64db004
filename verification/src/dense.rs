//! The dense lookup table: an eagerly built array with one precomputed
//! category per codepoint of the Basic Multilingual Plane.
//!
//! The array is filled by replaying the category tables in the reverse of
//! the probe order, so that the last write to a slot is exactly the probe
//! that would have answered first; the construction is proved to agree with
//! the range classifier on every slot.

use crate::classify::classify_codepoint;
use crate::classify::standard_tables;
use crate::classify::WcTables;
use crate::tables::seq_contains_cp;
use crate::width::WcWidth;
use vstd::prelude::*;

verus! {

/// An alternative interface that precomputes the categories of the first
/// 64 K codepoints, so that a lookup in that range is a single index
/// operation; codepoints outside the range fall back to the regular range
/// classifier.
pub struct WcLookupTable {
    pub table: [WcWidth; 65536],
}

impl WcLookupTable {
    /// The dense table is a memoized cache of the reference classifier: one
    /// slot per codepoint of the Basic Multilingual Plane, each holding that
    /// codepoint's classification.
    pub open spec fn wf(self) -> bool {
        forall|c: int| 0 <= c < 0x10000 ==> self.table@[c] == classify_codepoint(c as u32)
    }

    /// Builds the dense table: every slot starts as `One` (the ASCII and
    /// default case) and the other nine categories are overlaid in the
    /// reverse of the probe order, each range clipped to the Basic
    /// Multilingual Plane.
    pub fn new() -> (t: Self)
        ensures
            t.wf(),
    {
        let tables = WcTables::new();
        let mut table = [WcWidth::One; 65536];
        overlay_table(&mut table, tables.widenedin9.as_slice(), WcWidth::WidenedIn9);
        overlay_table(&mut table, tables.unassigned.as_slice(), WcWidth::Unassigned);
        overlay_table(&mut table, tables.ambiguous.as_slice(), WcWidth::Ambiguous);
        overlay_table(&mut table, tables.doublewide.as_slice(), WcWidth::Two);
        overlay_table(&mut table, tables.combiningletters.as_slice(), WcWidth::Combining);
        overlay_table(&mut table, tables.combining.as_slice(), WcWidth::Combining);
        overlay_table(&mut table, tables.noncharacters.as_slice(), WcWidth::NonCharacter);
        overlay_table(&mut table, tables.nonprint.as_slice(), WcWidth::NonPrint);
        overlay_table(&mut table, tables.private.as_slice(), WcWidth::PrivateUse);
        proof {
            let ts = standard_tables();
            assert forall|p: int|
                0 <= p < 0x10000 implies table@[p] == classify_codepoint(p as u32) by {
                let cp = p as u32;
                if seq_contains_cp(ts.ascii, cp) {
                    assert(!seq_contains_cp(ts.private, cp));
                }
            }
        }
        WcLookupTable { table }
    }

    /// Classify a char as a WcWidth: a single index operation for the Basic
    /// Multilingual Plane, the regular range classifier beyond it.
    pub fn classify(&self, c: char) -> (w: WcWidth)
        requires
            self.wf(),
        ensures
            w == classify_codepoint(c as u32),
    {
        let c32 = c as u32;
        if c32 <= 0xFFFF {
            return self.table[c32 as usize];
        }
        WcWidth::from_char(c)
    }
}

/// Overwrites every slot covered by a range of the table with the table's
/// category, each range clipped to the Basic Multilingual Plane; every other
/// slot keeps its value.
fn overlay_table(table: &mut [WcWidth; 65536], ranges: &[(u32, u32)], cat: WcWidth)
    ensures
        forall|p: int|
            0 <= p < 0x10000 ==> final(table)@[p] == (if seq_contains_cp(ranges@, p as u32) {
                cat
            } else {
                old(table)@[p]
            }),
{
    let n = ranges.len();
    let mut j: usize = 0;
    while j < n
        invariant
            n == ranges@.len(),
            j <= n,
            forall|p: int|
                0 <= p < 0x10000 ==> table@[p] == (if exists|k: int|
                    0 <= k < j && (#[trigger] ranges@[k]).0 <= p && p <= ranges@[k].1 {
                    cat
                } else {
                    old(table)@[p]
                }),
        decreases n - j,
    {
        let (start, end) = ranges[j];
        let stop: u32 = if end > 0xFFFF {
            0xFFFF
        } else {
            end
        };
        if start <= stop {
            let mut i: u32 = start;
            while i <= stop
                invariant
                    n == ranges@.len(),
                    j < n,
                    (start, end) == ranges@[j as int],
                    stop == (if end > 0xFFFF { 0xFFFFu32 } else { end }),
                    start <= i,
                    i <= stop + 1,
                    stop <= 0xFFFF,
                    forall|p: int|
                        0 <= p < 0x10000 ==> table@[p] == (if (exists|k: int|
                            0 <= k < j && (#[trigger] ranges@[k]).0 <= p && p <= ranges@[k].1) || (
                        start <= p < i) {
                            cat
                        } else {
                            old(table)@[p]
                        }),
                decreases stop + 1 - i,
            {
                table[i as usize] = cat;
                i = i + 1;
            }
        }
        j = j + 1;
    }
}

/// Agreement law: a well-formed dense lookup table classifies every
/// codepoint of the Basic Multilingual Plane exactly as the reference range
/// classifier does.
pub proof fn lemma_dense_agrees_with_classifier(t: WcLookupTable, c: u32)
    requires
        t.wf(),
        c <= 0xFFFF,
    ensures
        t.table@[c as int] == classify_codepoint(c),
{
}

} // verus!

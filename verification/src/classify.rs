//! The range classifier: probes the nine category tables in a fixed
//! precedence order and returns the category of the first table that
//! contains the codepoint.

use crate::tables::ambiguous_ranges;
use crate::tables::ambiguous_table;
use crate::tables::ascii_ranges;
use crate::tables::ascii_table;
use crate::tables::avoids_ascii_band;
use crate::tables::combining_ranges;
use crate::tables::combining_table;
use crate::tables::combiningletters_ranges;
use crate::tables::combiningletters_table;
use crate::tables::doublewide_ranges;
use crate::tables::doublewide_table;
use crate::tables::lemma_ambiguous_wf;
use crate::tables::lemma_ascii_wf;
use crate::tables::lemma_combining_wf;
use crate::tables::lemma_combiningletters_wf;
use crate::tables::lemma_doublewide_wf;
use crate::tables::lemma_noncharacters_wf;
use crate::tables::lemma_nonprint_wf;
use crate::tables::lemma_private_wf;
use crate::tables::lemma_unassigned_wf;
use crate::tables::lemma_widenedin9_wf;
use crate::tables::noncharacters_ranges;
use crate::tables::noncharacters_table;
use crate::tables::nonprint_ranges;
use crate::tables::nonprint_table;
use crate::tables::private_ranges;
use crate::tables::private_table;
use crate::tables::seq_contains_cp;
use crate::tables::table_wf;
use crate::tables::unassigned_ranges;
use crate::tables::unassigned_table;
use crate::tables::widenedin9_ranges;
use crate::tables::widenedin9_table;
use crate::width::WcWidth;
use vstd::prelude::*;

verus! {

/// The mathematical model of a full set of category tables, one sequence of
/// inclusive codepoint ranges per category.
pub ghost struct TableSet {
    pub ascii: Seq<(u32, u32)>,
    pub private: Seq<(u32, u32)>,
    pub nonprint: Seq<(u32, u32)>,
    pub combining: Seq<(u32, u32)>,
    pub combiningletters: Seq<(u32, u32)>,
    pub doublewide: Seq<(u32, u32)>,
    pub ambiguous: Seq<(u32, u32)>,
    pub unassigned: Seq<(u32, u32)>,
    pub noncharacters: Seq<(u32, u32)>,
    pub widenedin9: Seq<(u32, u32)>,
}

impl TableSet {
    /// Every table of the set is well-formed.
    pub open spec fn wf(self) -> bool {
        &&& table_wf(self.ascii)
        &&& table_wf(self.private)
        &&& table_wf(self.nonprint)
        &&& table_wf(self.combining)
        &&& table_wf(self.combiningletters)
        &&& table_wf(self.doublewide)
        &&& table_wf(self.ambiguous)
        &&& table_wf(self.unassigned)
        &&& table_wf(self.noncharacters)
        &&& table_wf(self.widenedin9)
    }

    /// A codepoint contained in the ASCII table is contained in no other
    /// table of the set. The dense lookup table never overlays the ASCII
    /// table, so it stays equivalent to the probe order only under this
    /// condition, which the generated data satisfies.
    pub open spec fn ascii_isolated(self) -> bool {
        forall|c: u32|
            #[trigger] seq_contains_cp(self.ascii, c) ==> {
                &&& !seq_contains_cp(self.private, c)
                &&& !seq_contains_cp(self.nonprint, c)
                &&& !seq_contains_cp(self.combining, c)
                &&& !seq_contains_cp(self.combiningletters, c)
                &&& !seq_contains_cp(self.doublewide, c)
                &&& !seq_contains_cp(self.ambiguous, c)
                &&& !seq_contains_cp(self.unassigned, c)
                &&& !seq_contains_cp(self.noncharacters, c)
                &&& !seq_contains_cp(self.widenedin9, c)
            }
    }

    /// Reference classification: the category of the first table in the
    /// fixed precedence order that contains the codepoint, and `One` when no
    /// table does.
    pub open spec fn classify(self, c: u32) -> WcWidth {
        if seq_contains_cp(self.ascii, c) {
            WcWidth::One
        } else if seq_contains_cp(self.private, c) {
            WcWidth::PrivateUse
        } else if seq_contains_cp(self.nonprint, c) {
            WcWidth::NonPrint
        } else if seq_contains_cp(self.noncharacters, c) {
            WcWidth::NonCharacter
        } else if seq_contains_cp(self.combining, c) {
            WcWidth::Combining
        } else if seq_contains_cp(self.combiningletters, c) {
            WcWidth::Combining
        } else if seq_contains_cp(self.doublewide, c) {
            WcWidth::Two
        } else if seq_contains_cp(self.ambiguous, c) {
            WcWidth::Ambiguous
        } else if seq_contains_cp(self.unassigned, c) {
            WcWidth::Unassigned
        } else if seq_contains_cp(self.widenedin9, c) {
            WcWidth::WidenedIn9
        } else {
            WcWidth::One
        }
    }

    /// The table probed at position `k` of the precedence order.
    pub open spec fn table_at(self, k: int) -> Seq<(u32, u32)> {
        if k == 0 {
            self.ascii
        } else if k == 1 {
            self.private
        } else if k == 2 {
            self.nonprint
        } else if k == 3 {
            self.noncharacters
        } else if k == 4 {
            self.combining
        } else if k == 5 {
            self.combiningletters
        } else if k == 6 {
            self.doublewide
        } else if k == 7 {
            self.ambiguous
        } else if k == 8 {
            self.unassigned
        } else {
            self.widenedin9
        }
    }
}

/// The category reported for the table probed at position `k` of the
/// precedence order.
pub open spec fn category_at(k: int) -> WcWidth {
    if k == 0 {
        WcWidth::One
    } else if k == 1 {
        WcWidth::PrivateUse
    } else if k == 2 {
        WcWidth::NonPrint
    } else if k == 3 {
        WcWidth::NonCharacter
    } else if k == 4 {
        WcWidth::Combining
    } else if k == 5 {
        WcWidth::Combining
    } else if k == 6 {
        WcWidth::Two
    } else if k == 7 {
        WcWidth::Ambiguous
    } else if k == 8 {
        WcWidth::Unassigned
    } else {
        WcWidth::WidenedIn9
    }
}

/// Precedence determinism law: whenever the table at position `k` of the
/// probe order contains the codepoint and no earlier table does,
/// classification returns the category of that table — in particular, a
/// codepoint present in two tables is classified by whichever table comes
/// first in the probe order, never by the later one.
pub proof fn lemma_first_match_wins(ts: TableSet, c: u32, k: int)
    requires
        0 <= k < 10,
        seq_contains_cp(ts.table_at(k), c),
        forall|m: int| 0 <= m < k ==> !seq_contains_cp(#[trigger] ts.table_at(m), c),
    ensures
        ts.classify(c) == category_at(k),
{
    if k >= 1 {
        assert(!seq_contains_cp(ts.table_at(0), c));
    }
    if k >= 2 {
        assert(!seq_contains_cp(ts.table_at(1), c));
    }
    if k >= 3 {
        assert(!seq_contains_cp(ts.table_at(2), c));
    }
    if k >= 4 {
        assert(!seq_contains_cp(ts.table_at(3), c));
    }
    if k >= 5 {
        assert(!seq_contains_cp(ts.table_at(4), c));
    }
    if k >= 6 {
        assert(!seq_contains_cp(ts.table_at(5), c));
    }
    if k >= 7 {
        assert(!seq_contains_cp(ts.table_at(6), c));
    }
    if k >= 8 {
        assert(!seq_contains_cp(ts.table_at(7), c));
    }
    if k >= 9 {
        assert(!seq_contains_cp(ts.table_at(8), c));
    }
}

/// The standard set of category tables handed over by the offline Unicode
/// data generator.
pub open spec fn standard_tables() -> TableSet {
    TableSet {
        ascii: ascii_ranges(),
        private: private_ranges(),
        nonprint: nonprint_ranges(),
        combining: combining_ranges(),
        combiningletters: combiningletters_ranges(),
        doublewide: doublewide_ranges(),
        ambiguous: ambiguous_ranges(),
        unassigned: unassigned_ranges(),
        noncharacters: noncharacters_ranges(),
        widenedin9: widenedin9_ranges(),
    }
}

/// Classification of a codepoint against the standard tables: the reference
/// semantics of the whole library.
pub open spec fn classify_codepoint(c: u32) -> WcWidth {
    standard_tables().classify(c)
}

/// The standard tables are well-formed.
pub proof fn lemma_standard_wf()
    ensures
        standard_tables().wf(),
{
    lemma_ascii_wf();
    lemma_private_wf();
    lemma_nonprint_wf();
    lemma_combining_wf();
    lemma_combiningletters_wf();
    lemma_doublewide_wf();
    lemma_ambiguous_wf();
    lemma_unassigned_wf();
    lemma_noncharacters_wf();
    lemma_widenedin9_wf();
}

/// In the standard tables, a codepoint of the ASCII table lies in no other
/// table.
pub proof fn lemma_standard_ascii_isolated()
    ensures
        standard_tables().ascii_isolated(),
{
    lemma_private_wf();
    lemma_nonprint_wf();
    lemma_combining_wf();
    lemma_combiningletters_wf();
    lemma_doublewide_wf();
    lemma_ambiguous_wf();
    lemma_unassigned_wf();
    lemma_noncharacters_wf();
    lemma_widenedin9_wf();
    let ts = standard_tables();
    assert forall|c: u32| #[trigger] seq_contains_cp(ts.ascii, c) implies {
        &&& !seq_contains_cp(ts.private, c)
        &&& !seq_contains_cp(ts.nonprint, c)
        &&& !seq_contains_cp(ts.combining, c)
        &&& !seq_contains_cp(ts.combiningletters, c)
        &&& !seq_contains_cp(ts.doublewide, c)
        &&& !seq_contains_cp(ts.ambiguous, c)
        &&& !seq_contains_cp(ts.unassigned, c)
        &&& !seq_contains_cp(ts.noncharacters, c)
        &&& !seq_contains_cp(ts.widenedin9, c)
    } by {
        assert(ts.ascii[0] == (0x20u32, 0x7Eu32));
        assert(0x20 <= c <= 0x7E);
        lemma_band_excludes(ts.private, c);
        lemma_band_excludes(ts.nonprint, c);
        lemma_band_excludes(ts.combining, c);
        lemma_band_excludes(ts.combiningletters, c);
        lemma_band_excludes(ts.doublewide, c);
        lemma_band_excludes(ts.ambiguous, c);
        lemma_band_excludes(ts.unassigned, c);
        lemma_band_excludes(ts.noncharacters, c);
        lemma_band_excludes(ts.widenedin9, c);
    }
}

/// A table that stays clear of the ASCII band contains no codepoint of that
/// band.
proof fn lemma_band_excludes(t: Seq<(u32, u32)>, c: u32)
    requires
        avoids_ascii_band(t),
        0x20 <= c <= 0x7E,
    ensures
        !seq_contains_cp(t, c),
{
}

/// Returns whether one sorted table contains the codepoint, by binary
/// search: a codepoint matches a range when it lies inside the inclusive
/// interval, and otherwise the range's start directs the search.
pub fn in_table(arr: &[(u32, u32)], c: u32) -> (r: bool)
    requires
        table_wf(arr@),
    ensures
        r == seq_contains_cp(arr@, c),
{
    let mut lo: usize = 0;
    let mut hi: usize = arr.len();
    while lo < hi
        invariant
            lo <= hi <= arr@.len(),
            table_wf(arr@),
            forall|i: int| 0 <= i < lo ==> (#[trigger] arr@[i]).1 < c,
            forall|i: int| hi <= i < arr@.len() ==> c < (#[trigger] arr@[i]).0,
        decreases hi - lo,
    {
        let mid = lo + (hi - lo) / 2;
        let (start, end) = arr[mid];
        if start <= c && c <= end {
            return true;
        } else if c < start {
            hi = mid;
        } else {
            lo = mid + 1;
        }
    }
    false
}

/// A full set of category tables as executable data.
pub struct WcTables {
    pub ascii: Vec<(u32, u32)>,
    pub private: Vec<(u32, u32)>,
    pub nonprint: Vec<(u32, u32)>,
    pub combining: Vec<(u32, u32)>,
    pub combiningletters: Vec<(u32, u32)>,
    pub doublewide: Vec<(u32, u32)>,
    pub ambiguous: Vec<(u32, u32)>,
    pub unassigned: Vec<(u32, u32)>,
    pub noncharacters: Vec<(u32, u32)>,
    pub widenedin9: Vec<(u32, u32)>,
}

impl View for WcTables {
    type V = TableSet;

    open spec fn view(&self) -> TableSet {
        TableSet {
            ascii: self.ascii@,
            private: self.private@,
            nonprint: self.nonprint@,
            combining: self.combining@,
            combiningletters: self.combiningletters@,
            doublewide: self.doublewide@,
            ambiguous: self.ambiguous@,
            unassigned: self.unassigned@,
            noncharacters: self.noncharacters@,
            widenedin9: self.widenedin9@,
        }
    }
}

impl WcTables {
    /// Builds the standard set of category tables.
    pub fn new() -> (t: WcTables)
        ensures
            t@ == standard_tables(),
            t@.wf(),
            t@.ascii_isolated(),
    {
        proof {
            lemma_standard_wf();
            lemma_standard_ascii_isolated();
        }
        WcTables {
            ascii: ascii_table(),
            private: private_table(),
            nonprint: nonprint_table(),
            combining: combining_table(),
            combiningletters: combiningletters_table(),
            doublewide: doublewide_table(),
            ambiguous: ambiguous_table(),
            unassigned: unassigned_table(),
            noncharacters: noncharacters_table(),
            widenedin9: widenedin9_table(),
        }
    }

    /// Classify a codepoint by probing the tables in precedence order.
    /// Total over all 32-bit values: a codepoint in no table, including any
    /// value beyond the Unicode range, is reported single-width.
    pub fn classify(&self, c: u32) -> (w: WcWidth)
        requires
            self@.wf(),
        ensures
            w == self@.classify(c),
    {
        if in_table(self.ascii.as_slice(), c) {
            return WcWidth::One;
        }
        if in_table(self.private.as_slice(), c) {
            return WcWidth::PrivateUse;
        }
        if in_table(self.nonprint.as_slice(), c) {
            return WcWidth::NonPrint;
        }
        if in_table(self.noncharacters.as_slice(), c) {
            return WcWidth::NonCharacter;
        }
        if in_table(self.combining.as_slice(), c) {
            return WcWidth::Combining;
        }
        if in_table(self.combiningletters.as_slice(), c) {
            return WcWidth::Combining;
        }
        if in_table(self.doublewide.as_slice(), c) {
            return WcWidth::Two;
        }
        if in_table(self.ambiguous.as_slice(), c) {
            return WcWidth::Ambiguous;
        }
        if in_table(self.unassigned.as_slice(), c) {
            return WcWidth::Unassigned;
        }
        if in_table(self.widenedin9.as_slice(), c) {
            return WcWidth::WidenedIn9;
        }
        WcWidth::One
    }
}

impl WcWidth {
    /// Classify a 32-bit codepoint against the standard tables. Total over
    /// every input value, with no failure mode: values outside every table,
    /// including values beyond the valid Unicode range, degrade to `One`.
    pub fn from_codepoint(c: u32) -> (w: WcWidth)
        ensures
            w == classify_codepoint(c),
    {
        let tables = WcTables::new();
        tables.classify(c)
    }

    /// Return the width category of the character `c`.
    pub fn from_char(c: char) -> (w: WcWidth)
        ensures
            w == classify_codepoint(c as u32),
    {
        Self::from_codepoint(c as u32)
    }
}

} // verus!

//! The display-width categories and the mapping from category to column width.

use vstd::prelude::*;

verus! {

/// The display-width category of a single Unicode codepoint.
#[derive(Copy, Clone, Debug, PartialEq, Eq, Structural)]
pub enum WcWidth {
    /// The character is single-width.
    One,
    /// The character is double-width.
    Two,
    /// The character is not printable.
    NonPrint,
    /// The character is a zero-width combiner.
    Combining,
    /// The character is East-Asian ambiguous width.
    Ambiguous,
    /// The character is for private use.
    PrivateUse,
    /// The character is unassigned.
    Unassigned,
    /// Width is 1 in Unicode 8, 2 in Unicode 9 and later.
    WidenedIn9,
    /// The character is a noncharacter.
    NonCharacter,
}

/// Which width convention a caller renders under.
#[derive(Copy, Clone, Debug, PartialEq, Eq, Structural)]
pub enum UnicodeVersion {
    /// Unicode 8 and earlier: the emoji widened in Unicode 9 still occupy one column.
    Unicode8OrEarlier,
    /// Unicode 9 and later: the widened emoji occupy two columns.
    Unicode9OrLater,
}

/// Column width of a category under the Unicode-8-and-earlier convention.
pub open spec fn spec_width_unicode_8(w: WcWidth) -> u8 {
    match w {
        WcWidth::One => 1,
        WcWidth::Two => 2,
        WcWidth::NonPrint => 0,
        WcWidth::Combining => 0,
        WcWidth::Ambiguous => 1,
        WcWidth::PrivateUse => 1,
        WcWidth::Unassigned => 0,
        WcWidth::WidenedIn9 => 1,
        WcWidth::NonCharacter => 0,
    }
}

/// Column width of a category under the Unicode-9-and-later convention;
/// it differs from the earlier convention only on `WidenedIn9`.
pub open spec fn spec_width_unicode_9(w: WcWidth) -> u8 {
    if w == WcWidth::WidenedIn9 {
        2
    } else {
        spec_width_unicode_8(w)
    }
}

/// Column width of a category under a chosen convention.
pub open spec fn spec_width_for_version(w: WcWidth, version: UnicodeVersion) -> u8 {
    match version {
        UnicodeVersion::Unicode8OrEarlier => spec_width_unicode_8(w),
        UnicodeVersion::Unicode9OrLater => spec_width_unicode_9(w),
    }
}

impl WcWidth {
    /// Returns the width for applications that are using Unicode 8 or earlier.
    pub fn width_unicode_8_or_earlier(self) -> (w: u8)
        ensures
            w == spec_width_unicode_8(self),
    {
        match self {
            Self::One => 1,
            Self::Two => 2,
            Self::NonPrint | Self::Combining | Self::Unassigned | Self::NonCharacter => 0,
            Self::Ambiguous | Self::PrivateUse => 1,
            Self::WidenedIn9 => 1,
        }
    }

    /// Returns the width for applications that are using Unicode 9 or later.
    pub fn width_unicode_9_or_later(self) -> (w: u8)
        ensures
            w == spec_width_unicode_9(self),
    {
        if self == Self::WidenedIn9 {
            return 2;
        }
        self.width_unicode_8_or_earlier()
    }

    /// Returns the width of a category under the convention the caller selects.
    pub fn width_for_version(self, version: UnicodeVersion) -> (w: u8)
        ensures
            w == spec_width_for_version(self, version),
    {
        match version {
            UnicodeVersion::Unicode8OrEarlier => self.width_unicode_8_or_earlier(),
            UnicodeVersion::Unicode9OrLater => self.width_unicode_9_or_later(),
        }
    }
}

/// Monotonic widening law: the category `WidenedIn9` is exactly one column
/// wide under the Unicode-8 convention and exactly two columns wide under the
/// Unicode-9 convention, every other category has the same width under both
/// conventions, and no category ever narrows when moving to the later
/// convention.
pub proof fn lemma_monotonic_widening(w: WcWidth)
    ensures
        spec_width_unicode_8(WcWidth::WidenedIn9) == 1,
        spec_width_unicode_9(WcWidth::WidenedIn9) == 2,
        w != WcWidth::WidenedIn9 ==> spec_width_unicode_8(w) == spec_width_unicode_9(w),
        spec_width_unicode_8(w) <= spec_width_unicode_9(w),
{
}

} // verus!

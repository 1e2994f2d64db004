//! Display-width classification for Unicode codepoints.
//!
//! A codepoint is classified into one of nine display-width categories
//! ([`WcWidth`]) by probing nine sorted range tables in a fixed precedence
//! order, and a category is mapped to a column width of 0, 1 or 2 under
//! either of two width conventions (Unicode 8 and earlier, or Unicode 9 and
//! later). [`WcLookupTable`] precomputes the classification of the whole
//! Basic Multilingual Plane into a dense array for constant-time lookups,
//! and is proved to agree with the range classifier everywhere.

mod classify;
mod dense;
mod tables;
mod width;

pub use classify::category_at;
pub use classify::classify_codepoint;
pub use classify::in_table;
pub use classify::lemma_first_match_wins;
pub use classify::lemma_standard_ascii_isolated;
pub use classify::lemma_standard_wf;
pub use classify::standard_tables;
pub use classify::TableSet;
pub use classify::WcTables;
pub use dense::lemma_dense_agrees_with_classifier;
pub use dense::WcLookupTable;
pub use tables::lemma_range_boundaries;
pub use tables::seq_contains_cp;
pub use tables::table_wf;
pub use width::lemma_monotonic_widening;
pub use width::spec_width_unicode_8;
pub use width::spec_width_unicode_9;
pub use width::UnicodeVersion;
pub use width::WcWidth;

//! Utilities for command-line tools: ANSI styling of text, a logging
//! configuration value, and the tidying of a line read from an input source.
//!
//! Reading is left to the caller, who owns the input source and decides what
//! a failed read means. What was read is handed to `_read_stdin`.

use vstd::prelude::*;

pub mod colors;
pub mod config;
pub mod trim;

use crate::trim::{
    all_whitespace, is_trim_of, lemma_trimmed_empty_iff_blank, lemma_trimmed_is_trim_of, trimmed,
};

verus! {

/// Makes the text of a line out of what one read from an input source gave:
/// the characters up to the line feed and the line feed itself, or less where
/// the input ended first.
///
/// The text is `line` without the whitespace at its two ends, the line
/// terminator included. Whitespace inside the line stays. A line of
/// whitespace alone, such as a bare line feed, gives the empty text.
pub fn _read_stdin(line: &str) -> (text: String)
    ensures
        text@ == trimmed(line@),
        is_trim_of(text@, line@),
        text@.len() == 0 <==> all_whitespace(line@),
{
    proof {
        lemma_trimmed_is_trim_of(line@);
        lemma_trimmed_empty_iff_blank(line@);
    }
    line.trim().to_string()
}

} // verus!

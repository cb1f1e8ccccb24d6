//! The workspace composer: its size limits and what a submit sends.

use vstd::prelude::*;

use crate::text::{trim, trim_str};

verus! {

/// Fewest text rows the composer shows.
pub const COMPOSER_MIN_ROWS: usize = 1;

/// Most text rows the composer grows to.
pub const COMPOSER_MAX_ROWS: usize = 6;

/// What submitting the composer with `value` sends: the trimmed text, or
/// nothing (and the input is kept) when that is empty.
pub fn submit_composer(value: &str) -> (r: Option<&str>)
    ensures
        match r {
            Some(t) => t@ == trim(value@) && t@.len() > 0,
            None => trim(value@).len() == 0,
        },
{
    let text = trim_str(value);
    if text.unicode_len() == 0 {
        None
    } else {
        Some(text)
    }
}

} // verus!

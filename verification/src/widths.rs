//! Display width of a single character.
//!
//! The editor lays text out on a grid of terminal cells, so every wrap and
//! cursor computation is driven by the number of cells a character occupies.
//! That number comes from the `unicode_width` crate; the library names its
//! result and builds the whole wrap model on the name.

use vstd::prelude::*;

verus! {

/// The displayed width in columns that `unicode_width` assigns to a
/// character: a pure function of the character alone.
pub uninterp spec fn unicode_display_width(c: char) -> Option<usize>;

/// Relies on `unicode_width::UnicodeWidthChar::width`: the character's
/// displayed width in columns, or `None` for a control character.
#[verifier::external_body]
fn display_width(c: char) -> (w: Option<usize>)
    ensures
        w == unicode_display_width(c),
{
    unicode_width::UnicodeWidthChar::width(c)
}

/// Width in cells that the editor gives a character: its Unicode display
/// width, with one cell for a control character.
pub open spec fn cell_width(c: char) -> nat {
    match unicode_display_width(c) {
        Some(w) => w as nat,
        None => 1,
    }
}

/// Executable counterpart of [`cell_width`].
pub fn char_cell_width(c: char) -> (w: usize)
    ensures
        w as nat == cell_width(c),
{
    match display_width(c) {
        Some(w) => w,
        None => 1,
    }
}

} // verus!

use vstd::prelude::*;

use crate::color::Color;
use crate::geom::{Alignment, Key, Point, Rect};

verus! {

/// One primitive of a frame. Views describe what to paint as a list of these;
/// the display driver paints them in order.
#[derive(Clone, Debug, PartialEq, Eq)]
pub enum DrawOp {
    /// Restore the background over a region.
    Clear(Rect),
    /// A line of text at most `width` pixels wide; `selected` draws it
    /// highlighted.
    Label { at: Point, text: String, selected: bool, align: Alignment, width: u32 },
    /// An on/off switch.
    Toggle { at: Point, on: bool },
    /// A number.
    Number { at: Point, value: i32 },
    /// The current option of a selection; `None` when there is nothing to
    /// choose from.
    Choice { at: Point, option: Option<String> },
    /// A color swatch; `editing` names the channel being edited, if any.
    Swatch { at: Point, color: Color, editing: Option<u8> },
    /// A button with its meaning, in place `slot` of a row of hints anchored
    /// at `at`. The first hint touches the anchor, on the side that `align`
    /// names; each further hint stands `spacing` pixels beyond the box drawn
    /// for the one before it (to its left when the row is right-aligned).
    Hint { at: Point, slot: usize, align: Alignment, spacing: u32, key: Key, text: String },
}

} // verus!

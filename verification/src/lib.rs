//! Annotation state engine for an interactive whiteboard.
//!
//! The engine interprets pointer and keyboard events into an undoable scene
//! of freehand strokes, rectangles and text annotations, manages the text
//! edit session (with hit testing and a blinking caret), and emits
//! render-ready line-segment batches and text-layout requests. Window-system
//! event pumping, GPU pipelines and font shaping are left to the host
//! program, which talks to this crate in plain values: integer device-pixel
//! coordinates, 8-bit RGBA colors, and millisecond timestamps.

use vstd::prelude::*;

pub mod board;
pub mod geometry;
pub mod hit;
pub mod input;
pub mod laws;
pub mod render;
pub mod scene;
pub mod session;

verus! {

/// True exactly for the characters of the Arabic and Arabic Supplement
/// Unicode blocks, which cover the Persian alphabet.
pub fn is_persian(c: char) -> (r: bool)
    ensures
        r == (0x0600 <= c as u32 <= 0x06FF || 0x0750 <= c as u32 <= 0x077F),
{
    (c >= '\u{0600}' && c <= '\u{06FF}') || (c >= '\u{0750}' && c <= '\u{077F}')
}

} // verus!

//! One unit of the widget: either a separator gap or a text chip, with its
//! styling and the cursor-boundary flags the keyboard rules read.

use vstd::prelude::*;

use crate::output::ChipEditOutput;
use crate::style::ChipSize;
use crate::style::Color;
use crate::style::default_chip_size;

verus! {

/// The two closed unit variants: a delimiter holder or user content.
#[derive(Clone, Copy, Debug, PartialEq, Eq, Structural)]
pub enum ChipKind {
    Separator,
    Text,
}

/// One unit of a chip sequence. The unit's text lives with the owning
/// sequence; the unit itself records only kind, styling and where the edit
/// cursor sat after the last frame.
#[derive(Clone, Copy, Debug)]
pub struct Chip {
    /// The cursor sat at character offset zero after the last frame.
    pub at_start: bool,
    /// The cursor sat at the text's full character length after the last
    /// frame.
    pub at_end: bool,
    /// Which variant this unit is.
    pub kind: ChipKind,
    /// Background override for this chip alone.
    pub bg_color: Option<Color>,
    /// Text color override for this chip alone.
    pub text_color: Option<Color>,
    /// Requested size, if any.
    pub size: Option<ChipSize>,
    /// Single leading glyph, if any.
    pub icon: Option<char>,
}

impl Chip {
    /// Whether this unit is a separator.
    pub open spec fn spec_is_separator(self) -> bool {
        self.kind is Separator
    }

    /// A fresh separator unit. An empty, point-like unit counts as sitting at
    /// both of its boundaries at once.
    pub fn new_separator() -> (c: Chip)
        ensures
            c.at_start,
            c.at_end,
            c.kind == ChipKind::Separator,
            c.bg_color is None,
            c.text_color is None,
            c.size == Some(ChipSize { width: 40, height: 20 }),
            c.icon is None,
    {
        Chip {
            at_start: true,
            at_end: true,
            kind: ChipKind::Separator,
            bg_color: None,
            text_color: None,
            size: Some(default_chip_size()),
            icon: None,
        }
    }

    /// A fresh text chip with the given size and leading glyph.
    pub fn new_chip(size: Option<ChipSize>, icon: Option<char>) -> (c: Chip)
        ensures
            !c.at_start,
            !c.at_end,
            c.kind == ChipKind::Text,
            c.bg_color is None,
            c.text_color is None,
            c.size == size,
            c.icon == icon,
    {
        Chip {
            at_start: false,
            at_end: false,
            kind: ChipKind::Text,
            bg_color: None,
            text_color: None,
            size,
            icon,
        }
    }

    /// Recomputes the boundary flags from this frame's interaction report;
    /// called once per unit after each frame.
    pub fn update_position(&mut self, output: &ChipEditOutput, text: &str)
        ensures
            *final(self) == (Chip {
                at_start: output.spec_cursor_at(0),
                at_end: output.spec_cursor_at(text@.len() as int),
                ..*old(self)
            }),
    {
        self.at_start = output.cursor_at_start();
        self.at_end = output.cursor_at_end(text);
    }

    /// Whether the cursor sat at the text's start after the last frame.
    pub fn at_start(&self) -> (r: bool)
        ensures
            r == self.at_start,
    {
        self.at_start
    }

    /// Whether the cursor sat at the text's end after the last frame.
    pub fn at_end(&self) -> (r: bool)
        ensures
            r == self.at_end,
    {
        self.at_end
    }

    /// Whether this unit is a separator.
    pub fn is_separator(&self) -> (r: bool)
        ensures
            r == self.spec_is_separator(),
    {
        matches!(self.kind, ChipKind::Separator)
    }
}

} // verus!

//! The per-frame interaction report for one rendered unit, as plain values.
//!
//! A host toolkit draws a unit and fills one of these in: whether the text
//! changed, how focus moved, where the edit cursor sits (in characters), and
//! which navigation keys were pressed while the control had focus.

use vstd::prelude::*;

verus! {

/// A key the widget reacts to.
#[derive(Clone, Copy, Debug, PartialEq, Eq, Structural)]
pub enum Key {
    Delete,
    Backspace,
    ArrowLeft,
    ArrowRight,
}

/// The edit cursor's sorted character range: `start == end` means a single
/// cursor without a selection.
#[derive(Clone, Copy, Debug, PartialEq, Eq, Structural)]
pub struct CursorSpan {
    pub start: usize,
    pub end: usize,
}

/// Represents the output of one rendered unit, or the fold of several.
#[derive(Clone, Copy, Debug)]
pub struct ChipEditOutput {
    /// The text was mutated during this frame.
    pub changed: bool,
    /// The control gained keyboard focus this frame.
    pub gained_focus: bool,
    /// The control was clicked this frame.
    pub clicked: bool,
    /// The control lost keyboard focus this frame.
    pub lost_focus: bool,
    /// The control holds keyboard focus.
    pub has_focus: bool,
    /// The edit cursor's character range, when the control is editable and
    /// shows exactly one cursor range.
    pub cursor: Option<CursorSpan>,
    /// The keys pressed while this control had focus.
    pub pressed_delete: bool,
    pub pressed_backspace: bool,
    pub pressed_arrow_left: bool,
    pub pressed_arrow_right: bool,
}

impl ChipEditOutput {
    /// What [`Self::gained_focus`] reports: a click counts as taking focus.
    pub open spec fn spec_gained_focus(self) -> bool {
        self.gained_focus || self.clicked
    }

    /// What [`Self::cursor_at`] reports: a single cursor exactly at character
    /// offset `pos`.
    pub open spec fn spec_cursor_at(self, pos: int) -> bool {
        match self.cursor {
            Some(c) => c.start == c.end && c.end == pos,
            None => false,
        }
    }

    /// What a key query reports.
    pub open spec fn spec_key_pressed(self, key: Key) -> bool {
        match key {
            Key::Delete => self.pressed_delete,
            Key::Backspace => self.pressed_backspace,
            Key::ArrowLeft => self.pressed_arrow_left,
            Key::ArrowRight => self.pressed_arrow_right,
        }
    }

    /// The fold of two outputs: every event that either reports, keeping the
    /// first cursor seen.
    pub open spec fn spec_union(self, other: Self) -> Self {
        ChipEditOutput {
            changed: self.changed || other.changed,
            gained_focus: self.gained_focus || other.gained_focus,
            clicked: self.clicked || other.clicked,
            lost_focus: self.lost_focus || other.lost_focus,
            has_focus: self.has_focus || other.has_focus,
            cursor: if self.cursor is Some {
                self.cursor
            } else {
                other.cursor
            },
            pressed_delete: self.pressed_delete || other.pressed_delete,
            pressed_backspace: self.pressed_backspace || other.pressed_backspace,
            pressed_arrow_left: self.pressed_arrow_left || other.pressed_arrow_left,
            pressed_arrow_right: self.pressed_arrow_right || other.pressed_arrow_right,
        }
    }

    /// An output that reports no interaction at all.
    pub fn quiet() -> (r: Self)
        ensures
            r == (ChipEditOutput {
                changed: false,
                gained_focus: false,
                clicked: false,
                lost_focus: false,
                has_focus: false,
                cursor: None::<CursorSpan>,
                pressed_delete: false,
                pressed_backspace: false,
                pressed_arrow_left: false,
                pressed_arrow_right: false,
            }),
    {
        ChipEditOutput {
            changed: false,
            gained_focus: false,
            clicked: false,
            lost_focus: false,
            has_focus: false,
            cursor: None,
            pressed_delete: false,
            pressed_backspace: false,
            pressed_arrow_left: false,
            pressed_arrow_right: false,
        }
    }

    /// Merges another output into this one.
    pub fn union(&mut self, other: Self)
        ensures
            *final(self) == old(self).spec_union(other),
    {
        self.changed = self.changed || other.changed;
        self.gained_focus = self.gained_focus || other.gained_focus;
        self.clicked = self.clicked || other.clicked;
        self.lost_focus = self.lost_focus || other.lost_focus;
        self.has_focus = self.has_focus || other.has_focus;
        if self.cursor.is_none() {
            self.cursor = other.cursor;
        }
        self.pressed_delete = self.pressed_delete || other.pressed_delete;
        self.pressed_backspace = self.pressed_backspace || other.pressed_backspace;
        self.pressed_arrow_left = self.pressed_arrow_left || other.pressed_arrow_left;
        self.pressed_arrow_right = self.pressed_arrow_right || other.pressed_arrow_right;
    }

    /// Whether a single cursor sits exactly at character offset `pos`.
    pub fn cursor_at(&self, pos: usize) -> (r: bool)
        ensures
            r == self.spec_cursor_at(pos as int),
    {
        match &self.cursor {
            Some(c) => c.start == c.end && c.end == pos,
            None => false,
        }
    }

    /// Whether a single cursor sits at the end of `text` (in characters).
    pub(crate) fn cursor_at_end(&self, text: &str) -> (r: bool)
        ensures
            r == self.spec_cursor_at(text@.len() as int),
    {
        self.cursor_at(text.unicode_len())
    }

    /// Whether a single cursor sits at the start of the text.
    pub(crate) fn cursor_at_start(&self) -> (r: bool)
        ensures
            r == self.spec_cursor_at(0),
    {
        self.cursor_at(0)
    }

    /// Whether the control took focus this frame, by keyboard or by click.
    pub fn gained_focus(&self) -> (r: bool)
        ensures
            r == self.spec_gained_focus(),
    {
        self.gained_focus || self.clicked
    }

    /// Whether the control lost focus this frame.
    pub fn lost_focus(&self) -> (r: bool)
        ensures
            r == self.lost_focus,
    {
        self.lost_focus
    }

    /// Whether `key` was pressed while this control had focus.
    pub(crate) fn is_key_pressed(&self, key: Key) -> (r: bool)
        ensures
            r == self.spec_key_pressed(key),
    {
        match key {
            Key::Delete => self.pressed_delete,
            Key::Backspace => self.pressed_backspace,
            Key::ArrowLeft => self.pressed_arrow_left,
            Key::ArrowRight => self.pressed_arrow_right,
        }
    }
}

} // verus!

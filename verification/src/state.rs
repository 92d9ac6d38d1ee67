//! The per-frame transition computation: folding one unit's interaction
//! report into the frame's single discovered transition (focus move, split,
//! or merge / delete).

use vstd::prelude::*;

use crate::chip::Chip;
use crate::output::ChipEditOutput;
use crate::output::Key;
use crate::text_ops::seq_contains;
use crate::text_ops::str_contains;

verus! {

/// The frame-local scratch state, built fresh each frame from the sequence's
/// current focus and discarded after the post-scan application.
#[derive(Clone, Copy, Debug)]
pub struct State {
    /// The unit index to focus; `None` means focus is elsewhere in the host.
    pub focus: Option<usize>,
    /// Whether this frame altered `focus`.
    pub focus_changed: bool,
    /// The unit pair whose surrounding text must be concatenated.
    pub merge: Option<(usize, usize)>,
    /// The unit whose text must be re-split.
    pub split: Option<usize>,
    /// The unit to drop during the merge rebuild.
    pub delete: Option<usize>,
}

/// `s` with focus set to `i` and the change recorded.
pub open spec fn spec_set_focus(s: State, i: usize) -> State {
    State { focus: Some(i), focus_changed: true, ..s }
}

/// `s` with focus cleared and the change recorded.
pub open spec fn spec_clear_focus(s: State) -> State {
    State { focus: None, focus_changed: true, ..s }
}

/// Rule one, a separator grew: typing into an empty boundary gap
/// materializes a new chip, so schedule a split there and aim focus just
/// past the freshly created separator.
pub open spec fn spec_rule_separator_grew(
    s: State,
    index: usize,
    unit: Chip,
    out: ChipEditOutput,
    text: Seq<char>,
) -> State {
    if out.changed && unit.spec_is_separator() && text.len() > 0 {
        State { split: Some(index), ..spec_set_focus(s, (index + 1) as usize) }
    } else {
        s
    }
}

/// Rule two, a unit's text now holds the delimiter: schedule a split there,
/// keeping focus on the same logical position, unless a split is already
/// scheduled.
pub open spec fn spec_rule_delimiter_typed(
    s: State,
    index: usize,
    out: ChipEditOutput,
    sep: Seq<char>,
    text: Seq<char>,
) -> State {
    if s.split is None && out.changed && seq_contains(text, sep) {
        State { split: Some(index), ..spec_set_focus(s, index) }
    } else {
        s
    }
}

/// Rule three, focus tracking. Returns the new state and whether the
/// remaining rules are skipped for this unit: once an earlier rule already
/// moved focus this frame, a unit that reports no focus event of its own is
/// done.
pub open spec fn spec_rule_focus(s: State, index: usize, out: ChipEditOutput) -> (State, bool) {
    if out.spec_gained_focus() {
        (spec_set_focus(s, index), false)
    } else if out.lost_focus && s.focus == Some(index) {
        (spec_clear_focus(s), false)
    } else if s.focus_changed {
        (s, true)
    } else {
        (s, false)
    }
}

/// Rule four, keyboard handling for the focused control: Delete and
/// Backspace at a boundary merge across or drop a neighbour, the arrows move
/// focus; only the first satisfied case fires.
pub open spec fn spec_rule_keys(
    s: State,
    max_index: usize,
    index: usize,
    unit: Chip,
    out: ChipEditOutput,
    text: Seq<char>,
) -> State {
    let act_at_end = unit.at_end && out.spec_cursor_at(text.len() as int);
    let act_at_start = unit.at_start && out.spec_cursor_at(0);
    if out.has_focus {
        if out.pressed_delete && act_at_end && index < max_index {
            if unit.spec_is_separator() {
                State { delete: Some((index + 1) as usize), ..spec_set_focus(s, index) }
            } else {
                State {
                    merge: Some((index, (index + 2) as usize)),
                    ..spec_set_focus(s, index)
                }
            }
        } else if out.pressed_backspace && act_at_start && index > 1 {
            if unit.spec_is_separator() {
                State {
                    delete: Some((index - 1) as usize),
                    ..spec_set_focus(s, (index - 2) as usize)
                }
            } else {
                State {
                    merge: Some(((index - 2) as usize, index)),
                    ..spec_set_focus(s, (index - 2) as usize)
                }
            }
        } else if out.pressed_arrow_right && act_at_end && index < max_index {
            spec_set_focus(s, (index + 1) as usize)
        } else if out.pressed_arrow_left && act_at_start && index > 0 {
            spec_set_focus(s, (index - 1) as usize)
        } else {
            s
        }
    } else {
        s
    }
}

/// The whole per-unit update: the four rules in priority order.
pub open spec fn spec_update(
    s: State,
    max_index: usize,
    index: usize,
    unit: Chip,
    out: ChipEditOutput,
    sep: Seq<char>,
    text: Seq<char>,
) -> State {
    let s1 = spec_rule_separator_grew(s, index, unit, out, text);
    let s2 = spec_rule_delimiter_typed(s1, index, out, sep, text);
    let (s3, done) = spec_rule_focus(s2, index, out);
    if done {
        s3
    } else {
        spec_rule_keys(s3, max_index, index, unit, out, text)
    }
}

impl State {
    /// A state with no focus and no transition discovered.
    pub fn new() -> (s: Self)
        ensures
            s.focus is None,
            !s.focus_changed,
            s.merge is None,
            s.split is None,
            s.delete is None,
    {
        Self { focus: None, focus_changed: false, merge: None, split: None, delete: None }
    }

    /// The state a frame starts from: the sequence's current focus, with no
    /// change recorded yet.
    pub fn from_focus(focus: Option<usize>) -> (s: Self)
        ensures
            s.focus == focus,
            !s.focus_changed,
            s.merge is None,
            s.split is None,
            s.delete is None,
    {
        let mut ret = Self::new();
        ret.focus = focus;
        ret
    }

    /// Aims focus at `index` and records the change.
    pub fn set_focus(&mut self, index: usize)
        ensures
            *final(self) == spec_set_focus(*old(self), index),
    {
        self.focus = Some(index);
        self.focus_changed = true;
    }

    /// Schedules the units at `a` and `b` for a merge.
    pub fn set_merge(&mut self, a: usize, b: usize)
        ensures
            *final(self) == (State { merge: Some((a, b)), ..*old(self) }),
    {
        self.merge = Some((a, b));
    }

    /// Drops focus and records the change.
    pub fn clear_focus(&mut self)
        ensures
            *final(self) == spec_clear_focus(*old(self)),
    {
        self.focus = None;
        self.focus_changed = true;
    }

    /// Folds one unit's interaction report into the frame state, with
    /// `max_index` the last valid unit index, `text` the unit's current text
    /// and `separator` the sequence's delimiter.
    pub fn update(
        &mut self,
        max_index: usize,
        index: usize,
        unit: &Chip,
        output: &ChipEditOutput,
        separator: &str,
        text: &str,
    )
        requires
            index <= max_index,
            max_index < usize::MAX,
        ensures
            *final(self) == spec_update(
                *old(self),
                max_index,
                index,
                *unit,
                *output,
                separator@,
                text@,
            ),
    {
        if output.changed && unit.is_separator() && text.unicode_len() > 0 {
            self.split = Some(index);
            self.set_focus(index + 1);
        }

        if self.split.is_none() && output.changed && str_contains(text, separator) {
            self.split = Some(index);
            self.set_focus(index);
        }

        if output.gained_focus() {
            self.set_focus(index);
        } else if output.lost_focus() && self.focus == Some(index) {
            self.clear_focus();
        } else if self.focus_changed {
            return ;
        }

        let act_at_end = unit.at_end && output.cursor_at_end(text);
        let act_at_start = unit.at_start && output.cursor_at_start();

        if output.has_focus {
            if output.is_key_pressed(Key::Delete) && act_at_end && index < max_index {
                self.set_focus(index);
                if unit.is_separator() {
                    self.delete = Some(index + 1);
                } else {
                    self.set_merge(index, index + 2);
                }
            } else if output.is_key_pressed(Key::Backspace) && act_at_start && index > 1 {
                self.set_focus(index - 2);
                if unit.is_separator() {
                    self.delete = Some(index - 1);
                } else {
                    self.set_merge(index - 2, index);
                }
            } else if output.is_key_pressed(Key::ArrowRight) && act_at_end && index < max_index {
                self.set_focus(index + 1);
            } else if output.is_key_pressed(Key::ArrowLeft) && act_at_start && index > 0 {
                self.set_focus(index - 1);
            }
        }
    }
}

} // verus!

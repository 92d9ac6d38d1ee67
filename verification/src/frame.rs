//! One whole frame over the chip sequence: folding every unit's interaction
//! report into a single [`State`], then applying the discovered transition
//! exactly once — commit the focus change, then split, else merge.

use vstd::prelude::*;

use crate::chip::Chip;
use crate::output::ChipEditOutput;
use crate::state::State;
use crate::state::spec_clear_focus;
use crate::state::spec_update;
use crate::unowned_chip_edit::UnownedChipEdit;
use crate::unowned_chip_edit::lemma_gather_from_len;
use crate::unowned_chip_edit::lemma_gather_from_len_extra;
use crate::unowned_chip_edit::lemma_merge_pair_from_len;
use crate::unowned_chip_edit::lemma_merge_sentinel_from_len;
use crate::unowned_chip_edit::spec_gather_from;
use crate::unowned_chip_edit::spec_merge_request_ok;
use crate::unowned_chip_edit::spec_merged;

verus! {

/// Whether a unit's report can start a transition or take focus this
/// frame.
pub open spec fn spec_active(o: ChipEditOutput) -> bool {
    o.changed || o.gained_focus || o.clicked || o.has_focus
}

/// At most one unit reports interaction this frame: what a host with one
/// pointer and one keyboard focus delivers in a single pass.
pub open spec fn spec_at_most_one_active(outputs: Seq<ChipEditOutput>) -> bool {
    forall|i1: int, i2: int|
        0 <= i1 < i2 < outputs.len() ==> !(spec_active(#[trigger] outputs[i1]) && spec_active(
            #[trigger] outputs[i2],
        ))
}

/// Whether any unit at index `i` or beyond reports interaction.
spec fn spec_has_active_from(outputs: Seq<ChipEditOutput>, i: int) -> bool {
    exists|j: int| i <= j < outputs.len() && spec_active(#[trigger] outputs[j])
}

/// A mid-scan state into which no interaction has been folded yet: no
/// transition discovered, focus still the initial one or cleared.
spec fn spec_scan_untouched(s: State, focus0: Option<usize>) -> bool {
    &&& s.split is None
    &&& s.merge is None
    &&& s.delete is None
    &&& (s.focus == focus0 || s.focus is None)
}

/// The shapes a frame scan leaves the state in when at most one unit
/// reported interaction; the post-scan application's index bounds rest on
/// these.
pub open spec fn spec_scan_shape(w: UnownedChipEdit, texts: Seq<Seq<char>>, s: State) -> bool {
    let len = w.units@.len() as int;
    let n = texts.len() as int;
    &&& ((s.split is Some || s.merge is Some || s.delete is Some) ==> s.focus_changed)
    &&& (s.split is Some ==> {
        &&& 0 <= s.split->0 < len
        &&& (s.focus is Some ==> s.focus->0 <= len)
        &&& ((s.focus is Some && s.focus->0 == len) ==> w.separator_text.deep_view()[(len - 1)
            / 2].len() > 0)
    })
    &&& ((s.split is None && s.merge is Some) ==> {
        let a = (s.merge->0).0 as int;
        let b = (s.merge->0).1 as int;
        &&& a % 2 == 1
        &&& 1 <= a <= 2 * n - 1
        &&& b == a + 2
        &&& s.delete is None
        &&& (s.focus is Some ==> s.focus->0 as int == a)
    })
    &&& ((s.split is None && s.delete is Some) ==> {
        let d = s.delete->0 as int;
        &&& d % 2 == 1
        &&& 1 <= d <= 2 * n - 1
        &&& s.merge is None
        &&& (s.focus is Some ==> s.focus->0 as int == d - 1)
    })
    &&& ((s.split is None && s.merge is None && s.delete is None) ==> (s.focus is Some ==> (
    s.focus->0 < len || s.focus == w.focused)))
}

/// A unit that reports no interaction leaves the state alone, or clears a
/// focus it was about to lose.
proof fn lemma_update_inactive(
    s: State,
    max_index: usize,
    index: usize,
    unit: Chip,
    out: ChipEditOutput,
    sep: Seq<char>,
    text: Seq<char>,
)
    requires
        !spec_active(out),
    ensures
        spec_update(s, max_index, index, unit, out, sep, text) == s || spec_update(
            s,
            max_index,
            index,
            unit,
            out,
            sep,
            text,
        ) == spec_clear_focus(s),
{
}

/// Folding the remaining units preserves the scan shapes: the single
/// interactive unit turns an untouched state into one of the shapes, and
/// every quiet unit preserves them.
proof fn lemma_scan_shape_from(
    w: UnownedChipEdit,
    texts: Seq<Seq<char>>,
    outputs: Seq<ChipEditOutput>,
    s: State,
    i: int,
)
    requires
        w.wf(),
        texts.len() == w.texts_len as int,
        outputs.len() == w.units@.len(),
        w.units@.len() <= usize::MAX as int,
        spec_at_most_one_active(outputs),
        0 <= i <= w.units@.len(),
        spec_has_active_from(outputs, i) ==> spec_scan_untouched(s, w.focused),
        spec_scan_shape(w, texts, s),
    ensures
        spec_scan_shape(
            w,
            texts,
            spec_scan_from(
                w.units@,
                w.separator_text.deep_view(),
                texts,
                w.separator@,
                outputs,
                s,
                i,
            ),
        ),
    decreases w.units@.len() - i,
{
    let len = w.units@.len() as int;
    if i < len {
        let o = outputs[i];
        let text = spec_unit_text(w.units@, w.separator_text.deep_view(), texts, i);
        let s2 = spec_update(
            s,
            (w.units@.len() - 1) as usize,
            i as usize,
            w.units@[i],
            o,
            w.separator@,
            text,
        );
        if spec_active(o) {
            assert(!spec_has_active_from(outputs, i + 1)) by {
                if spec_has_active_from(outputs, i + 1) {
                    let j = choose|j: int|
                        i + 1 <= j < outputs.len() && spec_active(#[trigger] outputs[j]);
                    assert(!(spec_active(outputs[i]) && spec_active(outputs[j])));
                }
            }
            assert(spec_scan_shape(w, texts, s2));
        } else {
            lemma_update_inactive(
                s,
                (w.units@.len() - 1) as usize,
                i as usize,
                w.units@[i],
                o,
                w.separator@,
                text,
            );
        }
        lemma_scan_shape_from(w, texts, outputs, s2, i + 1);
    }
}

/// When at most one unit reports interaction, the frame scan only produces
/// merge requests the merge rebuild is specified for; a caller may
/// discharge [`UnownedChipEdit::spec_frame_safe`] with this.
pub proof fn lemma_coherent_frame_safe(
    w: UnownedChipEdit,
    texts: Seq<Seq<char>>,
    outputs: Seq<ChipEditOutput>,
)
    requires
        w.wf(),
        texts.len() == w.texts_len as int,
        outputs.len() == w.units@.len(),
        w.units@.len() <= usize::MAX as int,
        spec_at_most_one_active(outputs),
    ensures
        w.spec_frame_safe(texts, outputs),
        spec_scan_shape(w, texts, w.spec_scan(texts, outputs)),
{
    lemma_scan_shape_from(w, texts, outputs, spec_initial_state(w.focused), 0);
    let st = w.spec_scan(texts, outputs);
    let n = texts.len() as int;
    if st.split is None && (st.merge is Some || st.delete is Some) {
        if st.merge is Some {
            let a = (st.merge->0).0 as int;
            assert(a <= 2 * n - 1 < w.units@.len() as int <= usize::MAX as int);
            assert(spec_merge_request_ok(
                spec_merge_args(st).0,
                spec_merge_args(st).1,
                spec_merge_args(st).2,
                n,
            ));
        } else {
            assert(forall|k: int|
                0 <= k < n ==> #[trigger] (2 * k + 1) != spec_merge_args(st).1) by {
                assert(2 * n + 1 <= usize::MAX as int);
            }
        }
    }
}

/// The text belonging to the unit at index `i`: separators read from the
/// sequence's own separator texts, text chips from the caller's list.
pub open spec fn spec_unit_text(
    units: Seq<Chip>,
    septexts: Seq<Seq<char>>,
    texts: Seq<Seq<char>>,
    i: int,
) -> Seq<char> {
    if units[i].kind is Separator {
        septexts[i / 2]
    } else {
        texts[i / 2]
    }
}

/// The frame state after folding the units at indices `i` and beyond into
/// `s`, in left-to-right order.
pub open spec fn spec_scan_from(
    units: Seq<Chip>,
    septexts: Seq<Seq<char>>,
    texts: Seq<Seq<char>>,
    sep: Seq<char>,
    outputs: Seq<ChipEditOutput>,
    s: State,
    i: int,
) -> State
    decreases units.len() - i,
{
    if i < 0 || i >= units.len() {
        s
    } else {
        let s2 = spec_update(
            s,
            (units.len() - 1) as usize,
            i as usize,
            units[i],
            outputs[i],
            sep,
            spec_unit_text(units, septexts, texts, i),
        );
        spec_scan_from(units, septexts, texts, sep, outputs, s2, i + 1)
    }
}

/// The state a frame starts from: the sequence's current focus, nothing
/// changed, no transition discovered.
pub open spec fn spec_initial_state(focus: Option<usize>) -> State {
    State { focus, focus_changed: false, merge: None, split: None, delete: None }
}

/// The merge-rebuild arguments the post-scan application derives from a
/// frame state: the merge pair and the deletion index, with `usize::MAX` as
/// the never-matching sentinel for an absent one.
pub open spec fn spec_merge_args(st: State) -> (int, int, int) {
    let ab = match st.merge {
        Some(p) => (p.0 as int, p.1 as int),
        None => (usize::MAX as int, usize::MAX as int),
    };
    let d = match st.delete {
        Some(x) => x as int,
        None => usize::MAX as int,
    };
    (ab.0, ab.1, d)
}

/// Splitting on the delimiter reads a unit's kind and text but never its
/// cursor flags, so two unit lists agreeing on kinds gather alike.
proof fn lemma_gather_from_kinds(
    units1: Seq<Chip>,
    units2: Seq<Chip>,
    septexts: Seq<Seq<char>>,
    texts: Seq<Seq<char>>,
    sep: Seq<char>,
    i: int,
)
    requires
        units1.len() == units2.len(),
        forall|j: int| 0 <= j < units1.len() ==> (#[trigger] units1[j]).kind == units2[j].kind,
    ensures
        spec_gather_from(units1, septexts, texts, sep, i) == spec_gather_from(
            units2,
            septexts,
            texts,
            sep,
            i,
        ),
    decreases units1.len() - i,
{
    if 0 <= i < units1.len() {
        lemma_gather_from_kinds(units1, units2, septexts, texts, sep, i + 1);
    }
}

impl UnownedChipEdit {
    /// The unit list after a frame's cursor-flag refresh: each unit keeps
    /// its kind and styling, with `at_start` / `at_end` recomputed from this
    /// frame's interaction report against the unit's current text.
    pub open spec fn spec_positioned_units(
        self,
        texts: Seq<Seq<char>>,
        outputs: Seq<ChipEditOutput>,
    ) -> Seq<Chip> {
        Seq::new(
            self.units@.len(),
            |i: int|
                Chip {
                    at_start: outputs[i].spec_cursor_at(0),
                    at_end: outputs[i].spec_cursor_at(
                        spec_unit_text(
                            self.units@,
                            self.separator_text.deep_view(),
                            texts,
                            i,
                        ).len() as int,
                    ),
                    ..self.units@[i]
                },
        )
    }

    /// The frame state a full left-to-right pass over this sequence
    /// computes from the given per-unit interaction reports.
    pub open spec fn spec_scan(
        self,
        texts: Seq<Seq<char>>,
        outputs: Seq<ChipEditOutput>,
    ) -> State {
        spec_scan_from(
            self.units@,
            self.separator_text.deep_view(),
            texts,
            self.separator@,
            outputs,
            spec_initial_state(self.focused),
            0,
        )
    }

    /// Whether the post-scan application of this frame stays within the
    /// merge requests the rebuild is specified for; the scan produces only
    /// such requests when at most one unit reports interaction.
    pub open spec fn spec_frame_safe(
        self,
        texts: Seq<Seq<char>>,
        outputs: Seq<ChipEditOutput>,
    ) -> bool {
        let st = self.spec_scan(texts, outputs);
        (st.split is None && (st.merge is Some || st.delete is Some))
            ==> spec_merge_request_ok(
            spec_merge_args(st).0,
            spec_merge_args(st).1,
            spec_merge_args(st).2,
            texts.len() as int,
        )
    }

    /// Runs one frame: folds every unit's interaction report into one
    /// [`State`] (each unit judged with the boundary flags of the previous
    /// frame, then given fresh ones), commits the focus change, and applies
    /// the single discovered transition — a scheduled split wins over a
    /// merge or deletion. Returns the folded frame state.
    pub fn run_frame(&mut self, texts: &mut Vec<String>, outputs: &Vec<ChipEditOutput>) -> (r:
        State)
        requires
            old(self).wf(),
            old(texts)@.len() == old(self).texts_len,
            outputs@.len() == old(self).units@.len(),
            old(self).spec_frame_safe(old(texts).deep_view(), outputs@),
        ensures
            r == old(self).spec_scan(old(texts).deep_view(), outputs@),
            final(self).focused == (if r.focus_changed {
                r.focus
            } else {
                old(self).focused
            }),
            final(self).separator == old(self).separator,
            final(self).widget_bg == old(self).widget_bg,
            final(self).widget_fg == old(self).widget_fg,
            final(self).chip_bg == old(self).chip_bg,
            final(self).chip_fg == old(self).chip_fg,
            final(self).frame == old(self).frame,
            final(self).chip_size == old(self).chip_size,
            final(self).icon == old(self).icon,
            final(self).wf(),
            r.split is Some ==> final(texts).deep_view() == old(self).spec_gather(
                old(texts).deep_view(),
            ),
            (r.split is None && (r.merge is Some || r.delete is Some)) ==> final(
                texts
            ).deep_view() == spec_merged(
                old(texts).deep_view(),
                spec_merge_args(r).0,
                spec_merge_args(r).1,
                spec_merge_args(r).2,
            ),
            (r.split is Some || r.merge is Some || r.delete is Some) ==> {
                &&& final(self).units@ == old(self).spec_rebuilt_units(final(texts)@.len())
                &&& final(self).separator_text.deep_view() == Seq::new(
                    final(texts)@.len() + 1,
                    |k: int| Seq::<char>::empty(),
                )
                &&& final(self).texts_len == final(texts)@.len()
            },
            (r.split is None && r.merge is None && r.delete is None) ==> {
                &&& final(texts)@ == old(texts)@
                &&& final(self).units@ == old(self).spec_positioned_units(
                    old(texts).deep_view(),
                    outputs@,
                )
                &&& final(self).separator_text@ == old(self).separator_text@
                &&& final(self).texts_len == old(self).texts_len
            },
            (spec_at_most_one_active(outputs@) && (old(self).focused is Some
                ==> old(self).focused->0 < old(self).units@.len()))
                ==> (final(self).focused is Some
                ==> (final(self).focused->0 as int) < final(self).units@.len() as int),
    {
        let n_units = self.units.len();
        let max_index = n_units - 1;
        let ghost positioned = old(self).spec_positioned_units(old(texts).deep_view(), outputs@);
        let ghost scanned = old(self).spec_scan(old(texts).deep_view(), outputs@);
        let mut st = State::from_focus(self.focused);
        let mut i: usize = 0;
        while i < n_units
            invariant
                i <= n_units,
                n_units == self.units@.len(),
                n_units == old(self).units@.len(),
                n_units >= 1,
                max_index as int == n_units as int - 1,
                old(self).wf(),
                old(texts)@.len() == old(self).texts_len,
                outputs@.len() == old(self).units@.len(),
                texts@ == old(texts)@,
                self.separator == old(self).separator,
                self.separator_text@ == old(self).separator_text@,
                self.widget_bg == old(self).widget_bg,
                self.widget_fg == old(self).widget_fg,
                self.chip_bg == old(self).chip_bg,
                self.chip_fg == old(self).chip_fg,
                self.focused == old(self).focused,
                self.frame == old(self).frame,
                self.chip_size == old(self).chip_size,
                self.texts_len == old(self).texts_len,
                self.icon == old(self).icon,
                positioned == old(self).spec_positioned_units(old(texts).deep_view(), outputs@),
                scanned == old(self).spec_scan(old(texts).deep_view(), outputs@),
                forall|j: int| 0 <= j < i ==> self.units@[j] == positioned[j],
                forall|j: int| i <= j < n_units ==> self.units@[j] == old(self).units@[j],
                spec_scan_from(
                    old(self).units@,
                    old(self).separator_text.deep_view(),
                    old(texts).deep_view(),
                    old(self).separator@,
                    outputs@,
                    st,
                    i as int,
                ) == scanned,
            decreases n_units - i,
        {
            let ghost text_view = spec_unit_text(
                old(self).units@,
                old(self).separator_text.deep_view(),
                old(texts).deep_view(),
                i as int,
            );
            if self.units[i].is_separator() {
                assert(i % 2 == 0);
                let idx = i / 2;
                st.update(
                    max_index,
                    i,
                    &self.units[i],
                    &outputs[i],
                    self.separator.as_str(),
                    self.separator_text[idx].as_str(),
                );
                let mut u = self.units[i];
                u.update_position(&outputs[i], self.separator_text[idx].as_str());
                self.units.set(i, u);
            } else {
                assert(i % 2 == 1);
                let idx = i / 2;
                st.update(
                    max_index,
                    i,
                    &self.units[i],
                    &outputs[i],
                    self.separator.as_str(),
                    texts[idx].as_str(),
                );
                let mut u = self.units[i];
                u.update_position(&outputs[i], texts[idx].as_str());
                self.units.set(i, u);
            }
            assert(self.units@[i as int] == positioned[i as int]);
            i += 1;
        }
        assert(st == scanned);
        assert(self.units@ =~= positioned);
        if st.focus_changed {
            self.focused = st.focus;
        }
        proof {
            assert(self.wf());
            if spec_at_most_one_active(outputs@) {
                lemma_coherent_frame_safe(*old(self), old(texts).deep_view(), outputs@);
            }
        }
        if st.split.is_some() {
            let ghost pre_units = self.units@;
            self.split(texts);
            proof {
                lemma_gather_from_kinds(
                    pre_units,
                    old(self).units@,
                    old(self).separator_text.deep_view(),
                    old(texts).deep_view(),
                    old(self).separator@,
                    0,
                );
                assert(texts.deep_view() == old(self).spec_gather(old(texts).deep_view()));
                assert(self.units@ =~= old(self).spec_rebuilt_units(texts@.len()));
                if spec_at_most_one_active(outputs@) {
                    assert(forall|j: int|
                        0 <= j < old(self).units@.len() ==> ((#[trigger] old(
                            self,
                        ).units@[j]).kind is Separator <==> j % 2 == 0));
                    lemma_gather_from_len(
                        old(self).units@,
                        old(self).separator_text.deep_view(),
                        old(texts).deep_view(),
                        old(self).separator@,
                        0,
                    );
                    if st.focus is Some && st.focus->0 == old(self).units@.len() {
                        lemma_gather_from_len_extra(
                            old(self).units@,
                            old(self).separator_text.deep_view(),
                            old(texts).deep_view(),
                            old(self).separator@,
                            0,
                            old(self).units@.len() as int - 1,
                        );
                    }
                }
            }
        } else if st.merge.is_some() || st.delete.is_some() {
            let pr = match st.merge {
                Some(p) => p,
                None => (usize::MAX, usize::MAX),
            };
            let dl = match st.delete {
                Some(d) => d,
                None => usize::MAX,
            };
            self.merge(texts, pr, dl);
            proof {
                assert(self.units@ =~= old(self).spec_rebuilt_units(texts@.len()));
                if spec_at_most_one_active(outputs@) {
                    if st.merge is Some {
                        lemma_merge_pair_from_len(
                            old(texts).deep_view(),
                            0,
                            Seq::empty(),
                            0,
                            (st.merge->0).0 as int,
                        );
                    } else {
                        lemma_merge_sentinel_from_len(
                            old(texts).deep_view(),
                            0,
                            Seq::empty(),
                            0,
                            st.delete->0 as int,
                        );
                    }
                }
            }
        }
        st
    }
}

} // verus!

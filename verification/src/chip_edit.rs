//! The text-owning variant of the widget: the same reconciliation engine
//! around an internally held text list.

use vstd::prelude::*;

use crate::error::ChipEditError;
use crate::output::ChipEditOutput;
use crate::state::State;
use crate::unowned_chip_edit::UnownedChipEdit;
use crate::unowned_chip_edit::spec_merged;

verus! {

/// A chip-style text box that owns its texts; the embedding application
/// reads them back through [`Self::values`].
#[derive(Clone, Debug)]
pub struct ChipEdit {
    /// The chip texts, one per text chip.
    pub texts: Vec<String>,
    /// The sequence engine working over those texts.
    pub unowned: UnownedChipEdit,
}

impl ChipEdit {
    /// Well-formedness: the engine is well formed and the owned text list
    /// is the one it was last rebuilt around.
    pub open spec fn wf(self) -> bool {
        &&& self.unowned.wf()
        &&& self.texts@.len() == self.unowned.texts_len
    }

    /// Creates a widget with the given delimiter and no texts.
    ///
    /// Fails with [`ChipEditError::EmptySeparator`] exactly when the
    /// delimiter is empty; no widget is produced then.
    pub fn new(separator: &str) -> (r: Result<Self, ChipEditError>)
        ensures
            separator@.len() == 0 <==> r is Err,
            r is Err ==> r->Err_0 == ChipEditError::EmptySeparator,
            r is Ok ==> ({
                let w = r->Ok_0;
                &&& w.wf()
                &&& w.unowned.separator@ == separator@
                &&& w.texts@.len() == 0
                &&& w.unowned.units@ == w.unowned.spec_rebuilt_units(0)
                &&& w.unowned.focused is None
                &&& w.unowned.widget_bg is None
                &&& w.unowned.widget_fg is None
                &&& w.unowned.chip_bg is None
                &&& w.unowned.chip_fg is None
                &&& w.unowned.frame == true
                &&& w.unowned.chip_size == Some(crate::style::ChipSize { width: 40, height: 20 })
                &&& w.unowned.icon is None
            }),
    {
        match UnownedChipEdit::new(separator) {
            Err(e) => Err(e),
            Ok(unowned) => {
                let mut ret = ChipEdit { texts: Vec::new(), unowned };
                ret.rebuild();
                Ok(ret)
            },
        }
    }

    /// Rebuilds the unit list around the owned texts.
    pub(crate) fn rebuild(&mut self)
        ensures
            final(self).texts == old(self).texts,
            final(self).unowned.units@ == old(self).unowned.spec_rebuilt_units(
                old(self).texts@.len(),
            ),
            final(self).unowned.separator_text.deep_view() == Seq::new(
                old(self).texts@.len() + 1,
                |k: int| Seq::<char>::empty(),
            ),
            final(self).unowned.texts_len == old(self).texts@.len(),
            final(self).unowned.separator == old(self).unowned.separator,
            final(self).unowned.widget_bg == old(self).unowned.widget_bg,
            final(self).unowned.widget_fg == old(self).unowned.widget_fg,
            final(self).unowned.chip_bg == old(self).unowned.chip_bg,
            final(self).unowned.chip_fg == old(self).unowned.chip_fg,
            final(self).unowned.focused == old(self).unowned.focused,
            final(self).unowned.frame == old(self).unowned.frame,
            final(self).unowned.chip_size == old(self).unowned.chip_size,
            final(self).unowned.icon == old(self).unowned.icon,
            old(self).unowned.separator@.len() >= 1 ==> final(self).wf(),
    {
        let texts = &self.texts;
        self.unowned.rebuild(texts);
    }

    /// Replaces the chip contents with the given texts and rebuilds; a
    /// following [`Self::values`] returns exactly these texts back.
    pub fn set_text(&mut self, texts: Vec<String>)
        ensures
            final(self).texts@ == texts@,
            final(self).unowned.units@ == old(self).unowned.spec_rebuilt_units(texts@.len()),
            final(self).unowned.separator_text.deep_view() == Seq::new(
                texts@.len() + 1,
                |k: int| Seq::<char>::empty(),
            ),
            final(self).unowned.texts_len == texts@.len(),
            final(self).unowned.separator == old(self).unowned.separator,
            final(self).unowned.focused == old(self).unowned.focused,
            old(self).unowned.separator@.len() >= 1 ==> final(self).wf(),
    {
        self.texts = texts;
        self.rebuild();
    }

    /// The current text values, separators excluded, in chip order.
    pub fn values(&self) -> (r: Vec<String>)
        ensures
            r.deep_view() == self.texts.deep_view(),
            r@.len() == self.texts@.len(),
    {
        let mut r: Vec<String> = Vec::new();
        let mut i: usize = 0;
        let n = self.texts.len();
        while i < n
            invariant
                i <= n,
                n == self.texts@.len(),
                r@.len() == i,
                forall|j: int| 0 <= j < i ==> (#[trigger] r@[j])@ == self.texts@[j]@,
            decreases n - i,
        {
            r.push(self.texts[i].clone());
            i += 1;
        }
        proof {
            assert(r.deep_view() =~~= self.texts.deep_view());
        }
        r
    }

    /// Runs one frame over the owned texts: folds the per-unit interaction
    /// reports into one [`State`] and applies the discovered transition; see
    /// [`UnownedChipEdit::run_frame`].
    pub fn run_frame(&mut self, outputs: &Vec<ChipEditOutput>) -> (r: State)
        requires
            old(self).wf(),
            outputs@.len() == old(self).unowned.units@.len(),
            old(self).unowned.spec_frame_safe(old(self).texts.deep_view(), outputs@),
        ensures
            r == old(self).unowned.spec_scan(old(self).texts.deep_view(), outputs@),
            final(self).wf(),
            final(self).unowned.focused == (if r.focus_changed {
                r.focus
            } else {
                old(self).unowned.focused
            }),
            r.split is Some ==> final(self).texts.deep_view() == old(self).unowned.spec_gather(
                old(self).texts.deep_view(),
            ),
            (r.split is None && (r.merge is Some || r.delete is Some)) ==> final(
                self
            ).texts.deep_view() == spec_merged(
                old(self).texts.deep_view(),
                crate::frame::spec_merge_args(r).0,
                crate::frame::spec_merge_args(r).1,
                crate::frame::spec_merge_args(r).2,
            ),
            (r.split is None && r.merge is None && r.delete is None) ==> final(self).texts@ == old(
                self
            ).texts@,
            (crate::frame::spec_at_most_one_active(outputs@) && (old(self).unowned.focused is Some
                ==> old(self).unowned.focused->0 < old(self).unowned.units@.len()))
                ==> (final(self).unowned.focused is Some
                ==> (final(self).unowned.focused->0 as int)
                < final(self).unowned.units@.len() as int),
    {
        let texts = &mut self.texts;
        self.unowned.run_frame(texts, outputs)
    }
}

} // verus!

//! The chip sequence itself: the ordered, alternating list of separator and
//! text units, its rebuild / split / merge reconciliation, and the per-frame
//! application of the discovered transition.
//!
//! This variant does not own the chip texts: the caller passes its own text
//! list to every operation, and the sequence keeps only the per-separator
//! texts, the unit list and the focus index.

use vstd::prelude::*;

use crate::chip::Chip;
use crate::chip::ChipKind;
use crate::error::ChipEditError;
use crate::style::ChipSize;
use crate::style::Color;
use crate::style::default_chip_size;
use crate::text_ops::split_spec;
use crate::text_ops::split_text;

verus! {

/// The unit a rebuild places at every even index.
pub open spec fn spec_separator_chip() -> Chip {
    Chip {
        at_start: true,
        at_end: true,
        kind: ChipKind::Separator,
        bg_color: None,
        text_color: None,
        size: Some(ChipSize { width: 40, height: 20 }),
        icon: None,
    }
}

/// The flat text list a split derives from the units at indices `i` and
/// beyond: an empty separator contributes nothing, while a non-empty
/// separator text (kept, so that what the user typed into a gap is not
/// discarded) and every text chip contribute their delimiter-split
/// fragments, in unit order.
pub open spec fn spec_gather_from(
    units: Seq<Chip>,
    septexts: Seq<Seq<char>>,
    texts: Seq<Seq<char>>,
    sep: Seq<char>,
    i: int,
) -> Seq<Seq<char>>
    decreases units.len() - i,
{
    if i < 0 || i >= units.len() {
        Seq::empty()
    } else {
        let piece = if units[i].kind is Separator {
            if septexts[i / 2].len() == 0 {
                Seq::<Seq<char>>::empty()
            } else {
                split_spec(septexts[i / 2], sep)
            }
        } else {
            split_spec(texts[i / 2], sep)
        };
        piece + spec_gather_from(units, septexts, texts, sep, i + 1)
    }
}

/// How many text units stand at indices `i` and beyond in an alternating
/// unit list of length `len` (texts at odd indices).
pub open spec fn spec_text_units_from(len: int, i: int) -> int {
    if i >= len {
        0
    } else if i % 2 == 0 {
        (len - i) / 2
    } else {
        (len - i + 1) / 2
    }
}

/// A gather yields at least one fragment per text unit: a split never
/// returns an empty fragment list, so re-splitting cannot lose chips.
pub proof fn lemma_gather_from_len(
    units: Seq<Chip>,
    septexts: Seq<Seq<char>>,
    texts: Seq<Seq<char>>,
    sep: Seq<char>,
    i: int,
)
    requires
        forall|j: int|
            0 <= j < units.len() ==> ((#[trigger] units[j]).kind is Separator <==> j % 2 == 0),
        i >= 0,
    ensures
        spec_gather_from(units, septexts, texts, sep, i).len() >= spec_text_units_from(
            units.len() as int,
            i,
        ),
    decreases units.len() - i,
{
    if i < units.len() {
        lemma_gather_from_len(units, septexts, texts, sep, i + 1);
        if i % 2 == 1 {
            crate::text_ops::lemma_split_spec_len(texts[i / 2], sep);
        }
    }
}

/// A gather over a range that holds a non-empty separator text yields one
/// fragment more than the text units alone account for.
pub proof fn lemma_gather_from_len_extra(
    units: Seq<Chip>,
    septexts: Seq<Seq<char>>,
    texts: Seq<Seq<char>>,
    sep: Seq<char>,
    i: int,
    j: int,
)
    requires
        forall|k: int|
            0 <= k < units.len() ==> ((#[trigger] units[k]).kind is Separator <==> k % 2 == 0),
        0 <= i <= j < units.len(),
        j % 2 == 0,
        septexts[j / 2].len() > 0,
    ensures
        spec_gather_from(units, septexts, texts, sep, i).len() >= spec_text_units_from(
            units.len() as int,
            i,
        ) + 1,
    decreases units.len() - i,
{
    if i == j {
        crate::text_ops::lemma_split_spec_len(septexts[j / 2], sep);
        lemma_gather_from_len(units, septexts, texts, sep, i + 1);
    } else {
        lemma_gather_from_len_extra(units, septexts, texts, sep, i + 1, j);
        if i % 2 == 1 {
            crate::text_ops::lemma_split_spec_len(texts[i / 2], sep);
        }
    }
}

/// Whether some text unit at index `2 * k + 1`, for `k` in `[from, n)`,
/// has unit index exactly `x`: one when `x` is odd and in range, else zero.
pub open spec fn spec_match_count(x: int, from: int, n: int) -> int {
    if x % 2 == 1 && 2 * from + 1 <= x <= 2 * n - 1 {
        1int
    } else {
        0int
    }
}

/// How long a pure deletion's result is (both merge ends the never-matching
/// sentinel): one entry per text unit, less the deleted one where it
/// actually matches a text unit.
pub(crate) proof fn lemma_merge_sentinel_from_len(
    texts: Seq<Seq<char>>,
    k: int,
    acc: Seq<Seq<char>>,
    tmin: int,
    del: int,
)
    requires
        0 <= k <= texts.len(),
        2 * texts.len() + 1 <= usize::MAX as int,
    ensures
        spec_merge_from(
            texts,
            k,
            acc,
            tmin,
            usize::MAX as int,
            usize::MAX as int,
            del,
        ).len() == acc.len() + (texts.len() - k) - spec_match_count(del, k, texts.len() as int),
    decreases texts.len() - k,
{
    let n = texts.len() as int;
    if k < n {
        let i = 2 * k + 1;
        if i == del {
            lemma_merge_sentinel_from_len(texts, k + 1, acc, tmin, del);
        } else {
            lemma_merge_sentinel_from_len(texts, k + 1, acc.push(texts[k]), tmin, del);
        }
    }
}

/// How long a pair merge's result is (no deletion): one entry per text
/// unit, less the higher merge end where it actually matches a text unit —
/// its text is concatenated onto the lower end's entry, not pushed.
pub(crate) proof fn lemma_merge_pair_from_len(
    texts: Seq<Seq<char>>,
    k: int,
    acc: Seq<Seq<char>>,
    tmin: int,
    a: int,
)
    requires
        0 <= k <= texts.len(),
        a % 2 == 1,
        1 <= a <= 2 * texts.len() - 1,
        2 * texts.len() + 1 <= usize::MAX as int,
        2 * k + 1 <= a || 0 <= tmin < acc.len(),
    ensures
        spec_merge_from(texts, k, acc, tmin, a, a + 2, usize::MAX as int).len() == acc.len() + (
        texts.len() - k) - spec_match_count(a + 2, k, texts.len() as int),
    decreases texts.len() - k,
{
    let n = texts.len() as int;
    if k < n {
        let i = 2 * k + 1;
        let tmin2 = if i == a {
            acc.len() as int
        } else {
            tmin
        };
        if i != a + 2 {
            lemma_merge_pair_from_len(texts, k + 1, acc.push(texts[k]), tmin2, a);
        } else {
            lemma_merge_pair_from_len(
                texts,
                k + 1,
                acc.update(tmin2, acc[tmin2] + texts[k]),
                tmin2,
                a,
            );
        }
    }
}

/// The alternating invariant, stated of the unit list a rebuild derives:
/// it begins and ends with a separator, no two text chips are adjacent, and
/// it has exactly `2 * n + 1` units for `n > 0` texts and exactly one unit
/// for none. Rebuild, split and merge all promise their unit list equals
/// such a list.
pub proof fn lemma_rebuilt_units_shape(w: UnownedChipEdit, n: nat)
    ensures
        ({
            let us = w.spec_rebuilt_units(n);
            &&& us.len() == (if n == 0 {
                1int
            } else {
                2 * n as int + 1
            })
            &&& us[0].kind is Separator
            &&& us[us.len() - 1].kind is Separator
            &&& (forall|i: int|
                0 <= i < us.len() ==> ((#[trigger] us[i]).kind is Separator <==> i % 2 == 0))
            &&& (forall|i: int|
                0 <= i && i + 1 < us.len() ==> !((#[trigger] us[i]).kind is Text && us[i
                    + 1].kind is Text))
        }),
{
}

/// Split idempotence: when no separator holds typed text and no chip's text
/// contains the delimiter, the gathered flat list is the text list itself,
/// so a split leaves the values unchanged.
pub proof fn lemma_gather_identity_from(
    units: Seq<Chip>,
    septexts: Seq<Seq<char>>,
    texts: Seq<Seq<char>>,
    sep: Seq<char>,
    i: int,
)
    requires
        sep.len() >= 1,
        forall|j: int|
            0 <= j < units.len() ==> ((#[trigger] units[j]).kind is Separator <==> j % 2 == 0),
        units.len() == (if texts.len() == 0 {
            1int
        } else {
            2 * texts.len() as int + 1
        }),
        forall|j: int| 0 <= j < septexts.len() ==> (#[trigger] septexts[j]).len() == 0,
        septexts.len() == texts.len() + 1,
        forall|k: int|
            0 <= k < texts.len() ==> !crate::text_ops::seq_contains(#[trigger] texts[k], sep),
        0 <= i <= units.len(),
    ensures
        spec_gather_from(units, septexts, texts, sep, i) == texts.subrange(
            i / 2,
            texts.len() as int,
        ),
    decreases units.len() - i,
{
    let n = texts.len() as int;
    if i >= units.len() {
        assert(i / 2 == n);
        assert(spec_gather_from(units, septexts, texts, sep, i) =~= texts.subrange(n, n));
    } else {
        lemma_gather_identity_from(units, septexts, texts, sep, i + 1);
        if i % 2 == 0 {
            assert((i + 1) / 2 == i / 2);
            assert(spec_gather_from(units, septexts, texts, sep, i) =~= texts.subrange(i / 2, n));
        } else {
            crate::text_ops::lemma_split_spec_no_occurrence(texts[i / 2], sep);
            assert((i + 1) / 2 == i / 2 + 1);
            assert(spec_gather_from(units, septexts, texts, sep, i) =~= seq![texts[i / 2]]
                + texts.subrange(i / 2 + 1, n));
            assert(seq![texts[i / 2]] + texts.subrange(i / 2 + 1, n) =~= texts.subrange(i / 2, n));
        }
    }
}

/// Split idempotence, stated of a well-formed sequence: with every
/// separator text empty and no chip text containing the delimiter, the
/// gathered flat list is exactly the caller's texts, so a split does not
/// change the values.
pub proof fn lemma_split_noop(w: UnownedChipEdit, texts: Seq<Seq<char>>)
    requires
        w.wf(),
        texts.len() == w.texts_len as int,
        forall|j: int|
            0 <= j < w.separator_text@.len() ==> (#[trigger] w.separator_text.deep_view()[
                j
            ]).len() == 0,
        forall|k: int|
            0 <= k < texts.len() ==> !crate::text_ops::seq_contains(
                #[trigger] texts[k],
                w.separator@,
            ),
    ensures
        w.spec_gather(texts) == texts,
{
    assert(forall|j: int|
        0 <= j < w.units@.len() ==> ((#[trigger] w.units@[j]).kind is Separator <==> j % 2 == 0));
    lemma_gather_identity_from(w.units@, w.separator_text.deep_view(), texts, w.separator@, 0);
    assert(texts.subrange(0, texts.len() as int) =~= texts);
}

/// The flat text list a merge derives, scanning the text units (at unit
/// indices `2 * k + 1`) in order with accumulator `acc`: the text whose unit
/// index equals `del` is dropped outright; the one at the higher end of the
/// merge pair is appended onto the entry begun when the lower end was
/// reached (position `tmin`); every other text is pushed as its own entry.
pub open spec fn spec_merge_from(
    texts: Seq<Seq<char>>,
    k: int,
    acc: Seq<Seq<char>>,
    tmin: int,
    umin: int,
    umax: int,
    del: int,
) -> Seq<Seq<char>>
    decreases texts.len() - k,
{
    if k < 0 || k >= texts.len() {
        acc
    } else {
        let i = 2 * k + 1;
        if i == del {
            spec_merge_from(texts, k + 1, acc, tmin, umin, umax, del)
        } else {
            let tmin2 = if i == umin {
                acc.len() as int
            } else {
                tmin
            };
            if i != umax {
                spec_merge_from(texts, k + 1, acc.push(texts[k]), tmin2, umin, umax, del)
            } else {
                spec_merge_from(
                    texts,
                    k + 1,
                    acc.update(tmin2, acc[tmin2] + texts[k]),
                    tmin2,
                    umin,
                    umax,
                    del,
                )
            }
        }
    }
}

/// The flat text list a merge of the pair `(a, b)` with deletion index `del`
/// derives from `texts`.
pub open spec fn spec_merged(texts: Seq<Seq<char>>, a: int, b: int, del: int) -> Seq<Seq<char>> {
    let umin = if a < b {
        a
    } else {
        b
    };
    let umax = if a > b {
        a
    } else {
        b
    };
    spec_merge_from(texts, 0, Seq::empty(), 0, umin, umax, del)
}

/// The merge requests the frame scan produces over `n` texts: either the
/// higher end of the pair matches no text unit (an out-of-range sentinel, so
/// nothing is appended anywhere), or the lower end is a real text unit that
/// stands before the higher end and is not the deleted one, so the entry to
/// append onto exists by the time the higher end is reached.
pub open spec fn spec_merge_request_ok(a: int, b: int, del: int, n: int) -> bool {
    let lo = if a < b {
        a
    } else {
        b
    };
    let hi = if a > b {
        a
    } else {
        b
    };
    ||| (forall|k: int| 0 <= k < n ==> #[trigger] (2 * k + 1) != hi)
    ||| (lo % 2 == 1 && lo < hi && 1 <= lo && lo < 2 * n && lo != del)
}

/// A chip-style text box over a caller-owned text list.
///
/// The unit list always alternates: a separator first and last, a separator
/// between every two text chips, and one single empty separator when there
/// are no texts at all ([`Self::wf`]).
#[derive(Clone, Debug)]
pub struct UnownedChipEdit {
    /// The non-empty delimiter that splits chip texts.
    pub separator: String,
    /// One text per separator unit; entry `k` belongs to the unit at index
    /// `2 * k`.
    pub separator_text: Vec<String>,
    /// The ordered units.
    pub units: Vec<Chip>,
    /// The background color of the widget.
    pub widget_bg: Option<Color>,
    /// The foreground color of the widget.
    pub widget_fg: Option<Color>,
    /// The background color of the chips.
    pub chip_bg: Option<Color>,
    /// The text color of the chips.
    pub chip_fg: Option<Color>,
    /// The index of the focused unit, if any.
    pub focused: Option<usize>,
    /// Whether the widget draws a frame.
    pub frame: bool,
    /// The size of the chips.
    pub chip_size: Option<ChipSize>,
    /// The caller's text-list length as of the last rebuild; a mismatch on
    /// the next frame forces a rebuild.
    pub texts_len: usize,
    /// Single leading glyph drawn in every chip.
    pub icon: Option<char>,
}

impl UnownedChipEdit {
    /// The text chip a rebuild creates, carrying the current style defaults.
    pub open spec fn spec_text_chip(self) -> Chip {
        Chip {
            at_start: false,
            at_end: false,
            kind: ChipKind::Text,
            bg_color: self.chip_bg,
            text_color: self.chip_fg,
            size: self.chip_size,
            icon: self.icon,
        }
    }

    /// The unit list a rebuild derives from `n` texts: one lone separator
    /// when `n` is zero, else `2 * n + 1` alternating units.
    pub open spec fn spec_rebuilt_units(self, n: nat) -> Seq<Chip> {
        Seq::new(
            if n == 0 {
                1nat
            } else {
                2 * n + 1
            },
            |i: int|
                if i % 2 == 0 {
                    spec_separator_chip()
                } else {
                    self.spec_text_chip()
                },
        )
    }

    /// Well-formedness: the separator is non-empty, the unit list alternates
    /// (separators at even indices, texts at odd ones, an odd total, so the
    /// list begins and ends with a separator), its length matches the
    /// recorded text count, and there is one separator text per separator
    /// unit.
    pub open spec fn wf(self) -> bool {
        &&& self.separator@.len() >= 1
        &&& self.units@.len() == (if self.texts_len == 0 {
            1int
        } else {
            2 * self.texts_len as int + 1
        })
        &&& (forall|i: int|
            0 <= i < self.units@.len() ==> (#[trigger] self.units@[i]).kind == (if i % 2 == 0 {
                ChipKind::Separator
            } else {
                ChipKind::Text
            }))
        &&& self.separator_text@.len() == self.texts_len as int + 1
    }

    /// Creates a sequence with the given delimiter and no texts.
    ///
    /// Fails with [`ChipEditError::EmptySeparator`] exactly when the
    /// delimiter is empty; no sequence is produced then.
    pub fn new(separator: &str) -> (r: Result<Self, ChipEditError>)
        ensures
            separator@.len() == 0 <==> r is Err,
            r is Err ==> r->Err_0 == ChipEditError::EmptySeparator,
            r is Ok ==> ({
                let w = r->Ok_0;
                &&& w.wf()
                &&& w.separator@ == separator@
                &&& w.texts_len == 0
                &&& w.units@ == w.spec_rebuilt_units(0)
                &&& w.separator_text.deep_view() == Seq::new(1, |k: int| Seq::<char>::empty())
                &&& w.widget_bg is None
                &&& w.widget_fg is None
                &&& w.chip_bg is None
                &&& w.chip_fg is None
                &&& w.focused is None
                &&& w.frame == true
                &&& w.chip_size == Some(ChipSize { width: 40, height: 20 })
                &&& w.icon is None
            }),
    {
        if separator.is_empty() {
            Err(ChipEditError::EmptySeparator)
        } else {
            let mut ret = UnownedChipEdit {
                separator: separator.to_owned(),
                separator_text: Vec::new(),
                units: Vec::new(),
                widget_bg: None,
                widget_fg: None,
                chip_bg: None,
                chip_fg: None,
                focused: None,
                frame: true,
                chip_size: Some(default_chip_size()),
                texts_len: 0,
                icon: None,
            };
            let empty: Vec<String> = Vec::new();
            ret.rebuild(&empty);
            Ok(ret)
        }
    }

    /// Wholesale reconstruction from a text list: one leading separator,
    /// then, for every text, one text chip carrying the current style
    /// defaults followed by one separator. Every separator text starts
    /// empty. The texts themselves are not touched.
    pub fn rebuild(&mut self, texts: &Vec<String>)
        ensures
            final(self).units@ == old(self).spec_rebuilt_units(texts@.len()),
            final(self).separator_text.deep_view() == Seq::new(
                texts@.len() + 1,
                |k: int| Seq::<char>::empty(),
            ),
            final(self).texts_len == texts@.len(),
            final(self).separator == old(self).separator,
            final(self).widget_bg == old(self).widget_bg,
            final(self).widget_fg == old(self).widget_fg,
            final(self).chip_bg == old(self).chip_bg,
            final(self).chip_fg == old(self).chip_fg,
            final(self).focused == old(self).focused,
            final(self).frame == old(self).frame,
            final(self).chip_size == old(self).chip_size,
            final(self).icon == old(self).icon,
            old(self).separator@.len() >= 1 ==> final(self).wf(),
    {
        self.units.clear();
        self.separator_text.clear();
        self.texts_len = texts.len();
        self.units.push(Chip::new_separator());
        self.separator_text.push(String::new());
        let n = texts.len();
        let mut k: usize = 0;
        while k < n
            invariant
                k <= n,
                n == texts@.len(),
                self.units@.len() == 2 * k + 1,
                forall|i: int|
                    0 <= i < self.units@.len() ==> #[trigger] self.units@[i] == (if i % 2 == 0 {
                        spec_separator_chip()
                    } else {
                        old(self).spec_text_chip()
                    }),
                self.separator_text@.len() == k + 1,
                forall|j: int|
                    0 <= j < self.separator_text@.len()
                        ==> (#[trigger] self.separator_text@[j])@ == Seq::<char>::empty(),
                self.texts_len == n,
                self.separator == old(self).separator,
                self.widget_bg == old(self).widget_bg,
                self.widget_fg == old(self).widget_fg,
                self.chip_bg == old(self).chip_bg,
                self.chip_fg == old(self).chip_fg,
                self.focused == old(self).focused,
                self.frame == old(self).frame,
                self.chip_size == old(self).chip_size,
                self.icon == old(self).icon,
            decreases n - k,
        {
            let mut chip = Chip::new_chip(self.chip_size, self.icon);
            chip.bg_color = self.chip_bg;
            chip.text_color = self.chip_fg;
            self.units.push(chip);
            self.units.push(Chip::new_separator());
            self.separator_text.push(String::new());
            k += 1;
        }
        assert(self.units@ =~= old(self).spec_rebuilt_units(n as nat));
        assert(self.separator_text.deep_view() =~~= Seq::new(
            n as nat + 1,
            |j: int| Seq::<char>::empty(),
        ));
    }

    /// The flat text list this sequence's split derives, given the caller's
    /// current texts.
    pub open spec fn spec_gather(self, texts: Seq<Seq<char>>) -> Seq<Seq<char>> {
        spec_gather_from(self.units@, self.separator_text.deep_view(), texts, self.separator@, 0)
    }

    /// Re-derives the flat text list from the current unit state — every
    /// unit's text split on the delimiter, with empty separators skipped —
    /// and rebuilds around it. This is how a typed delimiter fans one chip
    /// out into several.
    pub(crate) fn split(&mut self, texts: &mut Vec<String>)
        requires
            old(self).wf(),
            old(texts)@.len() == old(self).texts_len,
        ensures
            final(texts).deep_view() == old(self).spec_gather(old(texts).deep_view()),
            final(self).units@ == old(self).spec_rebuilt_units(final(texts)@.len()),
            final(self).separator_text.deep_view() == Seq::new(
                final(texts)@.len() + 1,
                |k: int| Seq::<char>::empty(),
            ),
            final(self).texts_len == final(texts)@.len(),
            final(self).separator == old(self).separator,
            final(self).widget_bg == old(self).widget_bg,
            final(self).widget_fg == old(self).widget_fg,
            final(self).chip_bg == old(self).chip_bg,
            final(self).chip_fg == old(self).chip_fg,
            final(self).focused == old(self).focused,
            final(self).frame == old(self).frame,
            final(self).chip_size == old(self).chip_size,
            final(self).icon == old(self).icon,
            final(self).wf(),
    {
        let ghost goal = old(self).spec_gather(old(texts).deep_view());
        let mut temp: Vec<String> = Vec::new();
        let len = self.units.len();
        let mut i: usize = 0;
        while i < len
            invariant
                i <= len,
                len == self.units@.len(),
                *self == *old(self),
                texts@ == old(texts)@,
                old(self).wf(),
                old(texts)@.len() == old(self).texts_len,
                goal == old(self).spec_gather(old(texts).deep_view()),
                temp.deep_view() + spec_gather_from(
                    self.units@,
                    self.separator_text.deep_view(),
                    texts.deep_view(),
                    self.separator@,
                    i as int,
                ) == goal,
            decreases len - i,
        {
            let ghost pre = temp.deep_view();
            let ghost tail = spec_gather_from(
                self.units@,
                self.separator_text.deep_view(),
                texts.deep_view(),
                self.separator@,
                i as int,
            );
            let ghost tail_next = spec_gather_from(
                self.units@,
                self.separator_text.deep_view(),
                texts.deep_view(),
                self.separator@,
                i as int + 1,
            );
            if self.units[i].is_separator() {
                assert(i % 2 == 0);
                let keep = !self.separator_text[i / 2].as_str().is_empty();
                if keep {
                    let mut frags = split_text(
                        self.separator_text[i / 2].as_str(),
                        self.separator.as_str(),
                    );
                    let ghost fv = frags.deep_view();
                    proof {
                        assert(tail == fv + tail_next);
                    }
                    temp.append(&mut frags);
                    assert(temp.deep_view() =~~= pre + fv);
                    assert((pre + fv) + tail_next =~~= pre + tail);
                } else {
                    assert(tail =~~= tail_next);
                }
            } else {
                assert(i % 2 == 1);
                let mut frags = split_text(texts[i / 2].as_str(), self.separator.as_str());
                let ghost fv = frags.deep_view();
                proof {
                    assert(tail == fv + tail_next);
                }
                temp.append(&mut frags);
                assert(temp.deep_view() =~~= pre + fv);
                assert((pre + fv) + tail_next =~~= pre + tail);
            }
            i += 1;
        }
        proof {
            assert(spec_gather_from(
                self.units@,
                self.separator_text.deep_view(),
                texts.deep_view(),
                self.separator@,
                len as int,
            ) =~~= Seq::<Seq<char>>::empty());
            assert(temp.deep_view() =~~= goal);
        }
        *texts = temp;
        self.rebuild(texts);
    }

    /// Re-derives the flat text list with the unit at `delete` dropped and
    /// the texts of the merge pair concatenated into one entry at the lower
    /// position, then rebuilds around it. Out-of-range indices never match a
    /// real unit, so a sentinel pair or deletion index leaves that part a
    /// no-op.
    pub(crate) fn merge(&mut self, texts: &mut Vec<String>, pair: (usize, usize), delete: usize)
        requires
            old(self).wf(),
            old(texts)@.len() == old(self).texts_len,
            spec_merge_request_ok(
                pair.0 as int,
                pair.1 as int,
                delete as int,
                old(texts)@.len() as int,
            ),
        ensures
            final(texts).deep_view() == spec_merged(
                old(texts).deep_view(),
                pair.0 as int,
                pair.1 as int,
                delete as int,
            ),
            final(self).units@ == old(self).spec_rebuilt_units(final(texts)@.len()),
            final(self).separator_text.deep_view() == Seq::new(
                final(texts)@.len() + 1,
                |k: int| Seq::<char>::empty(),
            ),
            final(self).texts_len == final(texts)@.len(),
            final(self).separator == old(self).separator,
            final(self).widget_bg == old(self).widget_bg,
            final(self).widget_fg == old(self).widget_fg,
            final(self).chip_bg == old(self).chip_bg,
            final(self).chip_fg == old(self).chip_fg,
            final(self).focused == old(self).focused,
            final(self).frame == old(self).frame,
            final(self).chip_size == old(self).chip_size,
            final(self).icon == old(self).icon,
            final(self).wf(),
    {
        let a = pair.0;
        let b = pair.1;
        let unit_min = if a < b {
            a
        } else {
            b
        };
        let unit_max = if a > b {
            a
        } else {
            b
        };
        let ghost goal = spec_merged(old(texts).deep_view(), a as int, b as int, delete as int);
        let total_units = self.units.len();
        let n = texts.len();
        proof {
            assert(n == 0 || 2 * n as int + 1 == total_units as int);
        }
        let mut text_min: usize = 0;
        let mut temp: Vec<String> = Vec::new();
        proof {
            assert(temp.deep_view() =~~= Seq::<Seq<char>>::empty());
        }
        let mut k: usize = 0;
        while k < n
            invariant
                k <= n,
                n == texts@.len(),
                n == 0 || 2 * n as int + 1 <= usize::MAX as int,
                *self == *old(self),
                texts@ == old(texts)@,
                old(self).wf(),
                unit_min == (if a < b {
                    a
                } else {
                    b
                }),
                unit_max == (if a > b {
                    a
                } else {
                    b
                }),
                spec_merge_request_ok(a as int, b as int, delete as int, n as int),
                goal == spec_merged(old(texts).deep_view(), a as int, b as int, delete as int),
                spec_merge_from(
                    texts.deep_view(),
                    k as int,
                    temp.deep_view(),
                    text_min as int,
                    unit_min as int,
                    unit_max as int,
                    delete as int,
                ) == goal,
                (unit_min % 2 == 1 && unit_min < unit_max && 1 <= unit_min && (unit_min as int) < 2
                    * n as int && unit_min != delete && (unit_min as int) < 2 * k as int + 1) ==> (
                text_min as int) < temp@.len(),
            decreases n - k,
        {
            let ghost pre = temp.deep_view();
            let i2 = 2 * k + 1;
            if i2 != delete {
                if i2 == unit_min {
                    text_min = temp.len();
                }
                if i2 != unit_max {
                    temp.push(texts[k].clone());
                    assert(temp.deep_view() =~~= pre.push(texts.deep_view()[k as int]));
                } else {
                    proof {
                        assert(2 * k as int + 1 == unit_max as int);
                        assert(!(forall|j: int|
                            0 <= j < n as int ==> #[trigger] (2 * j + 1) != unit_max as int)) by {
                            assert(2 * (k as int) + 1 == unit_max as int);
                        }
                        assert(unit_min % 2 == 1 && unit_min < unit_max && 1 <= unit_min && (
                        unit_min as int) < 2 * n as int && unit_min != delete);
                        assert((unit_min as int) < 2 * k as int + 1);
                        assert((text_min as int) < temp@.len());
                    }
                    let mut combined = temp[text_min].clone();
                    combined.append(texts[k].as_str());
                    temp.set(text_min, combined);
                    assert(temp.deep_view() =~~= pre.update(
                        text_min as int,
                        pre[text_min as int] + texts.deep_view()[k as int],
                    ));
                }
            }
            k += 1;
        }
        proof {
            assert(temp.deep_view() == goal);
        }
        *texts = temp;
        self.rebuild(texts);
    }

    /// Replaces the chip contents: rebuilds the unit list around the given
    /// texts.
    pub fn set_text(&mut self, texts: &Vec<String>)
        ensures
            final(self).units@ == old(self).spec_rebuilt_units(texts@.len()),
            final(self).separator_text.deep_view() == Seq::new(
                texts@.len() + 1,
                |k: int| Seq::<char>::empty(),
            ),
            final(self).texts_len == texts@.len(),
            final(self).separator == old(self).separator,
            final(self).widget_bg == old(self).widget_bg,
            final(self).widget_fg == old(self).widget_fg,
            final(self).chip_bg == old(self).chip_bg,
            final(self).chip_fg == old(self).chip_fg,
            final(self).focused == old(self).focused,
            final(self).frame == old(self).frame,
            final(self).chip_size == old(self).chip_size,
            final(self).icon == old(self).icon,
            old(self).separator@.len() >= 1 ==> final(self).wf(),
    {
        self.rebuild(texts);
    }
}

} // verus!

//! A fluent builder assembling a configured widget from declarative
//! options, validating the delimiter and the icon eagerly.

use vstd::prelude::*;

use crate::chip_edit::ChipEdit;
use crate::error::ChipEditError;
use crate::style::ChipSize;
use crate::style::Color;
use crate::unowned_chip_edit::UnownedChipEdit;

verus! {

/// Collects options for a [`ChipEdit`] and builds it.
pub struct ChipEditBuilder {
    /// The widget being configured.
    pub chip_edit: ChipEdit,
    /// The initial texts, applied at build time.
    pub texts: Vec<String>,
}

impl ChipEditBuilder {
    /// Well-formedness: the widget under construction is well formed.
    pub open spec fn wf(self) -> bool {
        self.chip_edit.wf()
    }

    /// Starts a builder with the given delimiter.
    ///
    /// Fails with [`ChipEditError::EmptySeparator`] exactly when the
    /// delimiter is empty.
    pub fn new(separator: &str) -> (r: Result<Self, ChipEditError>)
        ensures
            separator@.len() == 0 <==> r is Err,
            r is Err ==> r->Err_0 == ChipEditError::EmptySeparator,
            r is Ok ==> ({
                let b = r->Ok_0;
                &&& b.wf()
                &&& b.chip_edit.unowned.separator@ == separator@
                &&& b.texts@.len() == 0
                &&& b.chip_edit.unowned.icon is None
            }),
    {
        match ChipEdit::new(separator) {
            Err(e) => Err(e),
            Ok(chip_edit) => Ok(ChipEditBuilder { chip_edit, texts: Vec::new() }),
        }
    }

    /// Sets the initial texts for the chips.
    pub fn texts(self, texts: Vec<String>) -> (r: Self)
        ensures
            r.chip_edit == self.chip_edit,
            r.texts == texts,
    {
        let ChipEditBuilder { chip_edit, texts: _ } = self;
        ChipEditBuilder { chip_edit, texts }
    }

    /// Sets the background and text colors of the chips.
    pub fn chip_colors(self, bg_color: Color, text_color: Color) -> (r: Self)
        ensures
            r == (ChipEditBuilder {
                chip_edit: ChipEdit {
                    unowned: UnownedChipEdit {
                        chip_bg: Some(bg_color),
                        chip_fg: Some(text_color),
                        ..self.chip_edit.unowned
                    },
                    ..self.chip_edit
                },
                ..self
            }),
    {
        let mut ret = self;
        ret.chip_edit.unowned.chip_bg = Some(bg_color);
        ret.chip_edit.unowned.chip_fg = Some(text_color);
        ret
    }

    /// Sets the background and foreground colors of the widget.
    pub fn widget_colors(self, bg_color: Color, fg_color: Color) -> (r: Self)
        ensures
            r == (ChipEditBuilder {
                chip_edit: ChipEdit {
                    unowned: UnownedChipEdit {
                        widget_bg: Some(bg_color),
                        widget_fg: Some(fg_color),
                        ..self.chip_edit.unowned
                    },
                    ..self.chip_edit
                },
                ..self
            }),
    {
        let mut ret = self;
        ret.chip_edit.unowned.widget_bg = Some(bg_color);
        ret.chip_edit.unowned.widget_fg = Some(fg_color);
        ret
    }

    /// Sets whether the widget draws a frame.
    pub fn frame(self, frame: bool) -> (r: Self)
        ensures
            r == (ChipEditBuilder {
                chip_edit: ChipEdit {
                    unowned: UnownedChipEdit { frame, ..self.chip_edit.unowned },
                    ..self.chip_edit
                },
                ..self
            }),
    {
        let mut ret = self;
        ret.chip_edit.unowned.frame = frame;
        ret
    }

    /// Sets the size of the chips.
    pub fn chip_size(self, chip_size: Option<ChipSize>) -> (r: Self)
        ensures
            r == (ChipEditBuilder {
                chip_edit: ChipEdit {
                    unowned: UnownedChipEdit { chip_size, ..self.chip_edit.unowned },
                    ..self.chip_edit
                },
                ..self
            }),
    {
        let mut ret = self;
        ret.chip_edit.unowned.chip_size = chip_size;
        ret
    }

    /// Sets the single leading glyph drawn in every chip.
    ///
    /// Fails with [`ChipEditError::InvalidIconLength`] exactly when an icon
    /// text is given whose length is not one character.
    pub fn chip_icon(self, icon: Option<&str>) -> (r: Result<Self, ChipEditError>)
        ensures
            (icon matches Some(s) && s@.len() != 1) <==> r is Err,
            r is Err ==> r->Err_0 == ChipEditError::InvalidIconLength,
            (r is Ok && icon is None) ==> r->Ok_0 == (ChipEditBuilder {
                chip_edit: ChipEdit {
                    unowned: UnownedChipEdit { icon: None, ..self.chip_edit.unowned },
                    ..self.chip_edit
                },
                ..self
            }),
            icon is Some && icon->0@.len() == 1 ==> r is Ok && r->Ok_0 == (ChipEditBuilder {
                chip_edit: ChipEdit {
                    unowned: UnownedChipEdit {
                        icon: Some(icon->0@[0]),
                        ..self.chip_edit.unowned
                    },
                    ..self.chip_edit
                },
                ..self
            }),
    {
        match icon {
            None => {
                let mut ret = self;
                ret.chip_edit.unowned.icon = None;
                Ok(ret)
            },
            Some(s) => {
                if s.unicode_len() == 1 {
                    let glyph = s.get_char(0);
                    let mut ret = self;
                    ret.chip_edit.unowned.icon = Some(glyph);
                    Ok(ret)
                } else {
                    Err(ChipEditError::InvalidIconLength)
                }
            },
        }
    }

    /// Builds the text-owning widget around the collected texts.
    pub fn build(self) -> (r: ChipEdit)
        requires
            self.wf(),
        ensures
            r.wf(),
            r.texts@ == self.texts@,
            r.unowned.separator == self.chip_edit.unowned.separator,
            r.unowned.focused == self.chip_edit.unowned.focused,
            r.unowned.units@ == self.chip_edit.unowned.spec_rebuilt_units(self.texts@.len()),
    {
        let ChipEditBuilder { mut chip_edit, texts } = self;
        chip_edit.set_text(texts);
        chip_edit
    }

    /// Builds the variant that edits a caller-owned text list; the caller
    /// passes a list of the same length to every frame.
    pub fn build_unowned(self) -> (r: UnownedChipEdit)
        requires
            self.wf(),
        ensures
            r.wf(),
            r.texts_len == self.texts@.len(),
            r.separator == self.chip_edit.unowned.separator,
            r.units@ == self.chip_edit.unowned.spec_rebuilt_units(self.texts@.len()),
    {
        let ChipEditBuilder { mut chip_edit, texts } = self;
        chip_edit.set_text(texts);
        let ChipEdit { texts: _, unowned } = chip_edit;
        unowned
    }
}

} // verus!

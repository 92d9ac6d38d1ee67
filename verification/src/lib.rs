//! A chip-style text editing widget core: an ordered row of editable text
//! segments ("chips") separated by a delimiter string, with keyboard-driven
//! focus movement, splitting a chip when the delimiter is typed into it, and
//! merging adjacent chips when one is deleted at a boundary.
//!
//! This crate holds the widget's state machine and list reconciliation,
//! specified and verified with Verus. Rendering is left to a host toolkit:
//! the host draws each unit, reports the interaction as a plain
//! [`ChipEditOutput`] value, and the library decides the focus change and the
//! structural transition to apply.

mod builder;
mod chip;
mod chip_edit;
mod error;
mod frame;
mod output;
mod state;
mod style;
mod text_ops;
mod unowned_chip_edit;

pub use builder::ChipEditBuilder;
pub use chip::Chip;
pub use chip::ChipKind;
pub use chip_edit::ChipEdit;
pub use error::ChipEditError;
pub use frame::lemma_coherent_frame_safe;
pub use frame::spec_active;
pub use frame::spec_at_most_one_active;
pub use frame::spec_merge_args;
pub use frame::spec_scan_shape;
pub use output::ChipEditOutput;
pub use output::CursorSpan;
pub use output::Key;
pub use state::State;
pub use style::ChipSize;
pub use style::Color;
pub use style::default_chip_size;
pub use text_ops::seq_contains;
pub use text_ops::split_spec;
pub use text_ops::split_text;
pub use text_ops::str_contains;
pub use unowned_chip_edit::UnownedChipEdit;
pub use unowned_chip_edit::lemma_gather_identity_from;
pub use unowned_chip_edit::lemma_rebuilt_units_shape;
pub use unowned_chip_edit::lemma_split_noop;
pub use unowned_chip_edit::spec_separator_chip;

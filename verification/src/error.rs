//! The two configuration errors the widget can report; both are raised
//! eagerly, before any frame runs.

use vstd::prelude::*;

verus! {

/// Why a configuration was rejected.
#[derive(Clone, Copy, Debug, PartialEq, Eq, Structural)]
pub enum ChipEditError {
    /// The separator string is empty.
    EmptySeparator,
    /// The icon text is not exactly one character.
    InvalidIconLength,
}

} // verus!

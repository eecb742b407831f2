//! Predefined glyph class codes of the extended state machine.

use vstd::prelude::*;

verus! {

/// The class fed to the machine when the input stream ends.
pub const END_OF_TEXT: u16 = 0;

/// The class any out-of-range class code is coerced to.
pub const OUT_OF_BOUNDS: u16 = 1;

/// The class of the deleted glyph 0xFFFF.
pub const DELETED_GLYPH: u16 = 2;

} // verus!

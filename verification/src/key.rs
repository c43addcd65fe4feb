//! Types describing a single key of a keyboard.

use vstd::prelude::*;

verus! {

/// The hand with which a key is pressed.
#[derive(Clone, Copy, Debug, PartialEq, Eq)]
pub enum Hand {
    Left,
    Right,
}

/// The finger with which a key is pressed.
#[derive(Clone, Copy, Debug, PartialEq, Eq)]
pub enum Finger {
    Thumb,
    Index,
    Middle,
    Ring,
    Pinky,
}

/// The row/column address of a key within the physical switch-wiring grid.
#[derive(Clone, Copy, Debug, Eq)]
pub struct MatrixPosition(pub u8, pub u8);

impl PartialEq for MatrixPosition {
    fn eq(&self, other: &MatrixPosition) -> (r: bool) {
        self.0 == other.0 && self.1 == other.1
    }
}

impl vstd::std_specs::cmp::PartialEqSpecImpl for MatrixPosition {
    open spec fn obeys_eq_spec() -> bool {
        true
    }

    open spec fn eq_spec(&self, other: &MatrixPosition) -> bool {
        self.0 == other.0 && self.1 == other.1
    }
}

/// The key's physical placement, used for visual layout and plotting.
///
/// Each coordinate is held as a 64-bit integer code.  A caller whose source
/// coordinates are not integers chooses an encoding into codes (for example
/// a fixed-point scaling).  This crate only ever compares positions for
/// equality, so its duplicate check decides as the source intends exactly
/// when the encoding gives two source coordinates the same code if and only
/// if the source considers them equal.  Injectivity alone is not enough when
/// source equality is coarser than identity: the raw IEEE-754 bit pattern,
/// say, gives distinct codes to positive and negative zero, though they
/// compare equal as floating-point numbers, and one code to two
/// bitwise-identical NaNs, though they do not.
#[derive(Clone, Copy, Debug, Eq)]
pub struct Position(pub u64, pub u64);

impl PartialEq for Position {
    fn eq(&self, other: &Position) -> (r: bool) {
        self.0 == other.0 && self.1 == other.1
    }
}

impl vstd::std_specs::cmp::PartialEqSpecImpl for Position {
    open spec fn obeys_eq_spec() -> bool {
        true
    }

    open spec fn eq_spec(&self, other: &Position) -> bool {
        self.0 == other.0 && self.1 == other.1
    }
}

/// One key of a keyboard: all seven per-key attributes, simultaneously
/// present for every key.
///
/// `cost` and `unbalancing` are 64-bit integer codes standing for the source
/// numbers under an encoding of the caller's choice; this crate carries them
/// through unchanged and never computes with or compares them.
#[derive(Clone, Copy, Debug, PartialEq, Eq)]
pub struct Key {
    /// The hand used to press this key
    pub hand: Hand,
    /// The finger used to press this key
    pub finger: Finger,
    /// The position of this key in the keyboard's wiring matrix
    pub matrix_position: MatrixPosition,
    /// The spatial position of this key, e.g. for plotting
    pub position: Position,
    /// An index grouping keys that are mirror-symmetric counterparts
    pub symmetry_index: u8,
    /// The ergonomic cost of using this key
    pub cost: u64,
    /// A weight penalizing asymmetric finger usage on this key
    pub unbalancing: u64,
}

} // verus!

//! The stroke geometry choices a paint carries.

use vstd::prelude::*;

verus! {

/// The geometry drawn at the beginning and end of strokes.
#[derive(Clone, Copy, PartialEq, Eq, Structural, Debug)]
pub enum Cap {
    Butt,
    Round,
    Square,
}

/// The geometry drawn at the corners of strokes.
#[derive(Clone, Copy, PartialEq, Eq, Structural, Debug)]
pub enum Join {
    Miter,
    Round,
    Bevel,
}

} // verus!

//! Platform independent window geometry.

use vstd::prelude::*;

verus! {

/// A rectangle: position and size.
#[derive(Copy, Clone, Debug, PartialEq, Eq, Structural)]
pub struct Rect<T> {
    pub x: T,
    pub y: T,
    pub width: T,
    pub height: T,
}

} // verus!

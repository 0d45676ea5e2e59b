use vstd::prelude::*;

verus! {

/// A rectangle of the screen in physical pixels, `(x, y)` being its bottom
/// left corner.
#[derive(Clone, Copy, PartialEq, Eq, Structural, Debug)]
pub struct Viewport {
    pub x: i32,
    pub y: i32,
    pub width: u32,
    pub height: u32,
}

/// The viewport of the given size whose corner is at the origin.
pub open spec fn viewport_at_origo(width: u32, height: u32) -> Viewport {
    Viewport { x: 0, y: 0, width, height }
}

impl Viewport {
    /// Creates a viewport of the given size with its corner at the origin.
    pub fn new_at_origo(width: u32, height: u32) -> (r: Self)
        ensures
            r == viewport_at_origo(width, height),
    {
        Viewport { x: 0, y: 0, width, height }
    }
}

} // verus!

//! Points of the play-field and the window that bounds it.
use vstd::prelude::*;

verus! {

/// A point of the play-field. The origin is the centre of the window, `x`
/// grows to the right and `y` grows upwards.
#[derive(Clone, Copy, Debug, PartialEq, Eq, Structural)]
pub struct Position {
    pub x: i64,
    pub y: i64,
}

impl Position {
    /// The centre of the play-field.
    pub open spec fn origin() -> Position {
        Position { x: 0, y: 0 }
    }

    /// Computes [`Position::origin`].
    pub fn at_origin() -> (p: Position)
        ensures
            p == Position::origin(),
    {
        Position { x: 0, y: 0 }
    }
}

/// The play-field: half the window's width and half its height. The field
/// reaches from `-half_width` to `half_width` and from `-half_height` to
/// `half_height`.
#[derive(Clone, Copy, Debug, PartialEq, Eq, Structural)]
pub struct WindowBounds {
    pub half_width: u32,
    pub half_height: u32,
}

/// A notice from the host that the window now has this width and height.
#[derive(Clone, Copy, Debug, PartialEq, Eq, Structural)]
pub struct Resize {
    pub width: u32,
    pub height: u32,
}

impl WindowBounds {
    /// The bounds of a window of the given width and height.
    pub open spec fn of_size(width: u32, height: u32) -> WindowBounds {
        WindowBounds { half_width: width / 2, half_height: height / 2 }
    }

    /// Computes [`WindowBounds::of_size`].
    pub fn from_size(width: u32, height: u32) -> (bounds: WindowBounds)
        ensures
            bounds == WindowBounds::of_size(width, height),
    {
        WindowBounds { half_width: width / 2, half_height: height / 2 }
    }
}

impl Default for WindowBounds {
    /// Before the host has reported a size the field is empty.
    fn default() -> (bounds: WindowBounds)
        ensures
            bounds == WindowBounds::of_size(0, 0),
    {
        WindowBounds { half_width: 0, half_height: 0 }
    }
}

/// The bounds after a run of resize notices: those of the last notice, or
/// the bounds as they were where there is none.
pub open spec fn resized(bounds: WindowBounds, resizes: Seq<Resize>) -> WindowBounds {
    if resizes.len() == 0 {
        bounds
    } else {
        WindowBounds::of_size(resizes.last().width, resizes.last().height)
    }
}

/// Applies the resize notices that arrived since the last tick, oldest first.
pub fn update_window_dimensions(bounds: &mut WindowBounds, resizes: &Vec<Resize>)
    ensures
        *final(bounds) == resized(*old(bounds), resizes@),
{
    let mut i: usize = 0;
    while i < resizes.len()
        invariant
            i <= resizes@.len(),
            *bounds == resized(*old(bounds), resizes@.take(i as int)),
        decreases resizes@.len() - i,
    {
        let event = resizes[i];
        bounds.half_width = event.width / 2;
        bounds.half_height = event.height / 2;
        i += 1;
        assert(resizes@.take(i as int).last() == event);
    }
    assert(resizes@.take(i as int) == resizes@);
}

} // verus!

use vstd::prelude::*;

verus! {

/// A rectangle as the window manager stores it: `right` and `bottom` hold the
/// width and the height.
#[derive(Clone, Copy, Debug, PartialEq, Eq, Structural)]
pub struct Rect {
    pub left: i32,
    pub top: i32,
    pub right: i32,
    pub bottom: i32,
}

/// The all-zero rectangle, which an overlay holds before it is first placed.
pub open spec fn zero_rect() -> Rect {
    Rect { left: 0, top: 0, right: 0, bottom: 0 }
}

/// Whether `r` shrunk by `offset` and then grown by `width` on every side is
/// representable.
pub open spec fn border_fits(r: Rect, width: i32, offset: i32) -> bool {
    let d = offset as int - width as int;
    &&& i32::MIN <= r.left + d <= i32::MAX
    &&& i32::MIN <= r.top + d <= i32::MAX
    &&& i32::MIN <= r.right - 2 * d <= i32::MAX
    &&& i32::MIN <= r.bottom - 2 * d <= i32::MAX
}

/// `r` shrunk by `offset` on every side (a negative offset grows it), then grown
/// by `width` on every side.
pub open spec fn border_rect(r: Rect, width: i32, offset: i32) -> Rect {
    let d = offset as int - width as int;
    Rect {
        left: (r.left + d) as i32,
        top: (r.top + d) as i32,
        right: (r.right - 2 * d) as i32,
        bottom: (r.bottom - 2 * d) as i32,
    }
}

impl Rect {
    pub fn zero() -> (r: Rect)
        ensures
            r == zero_rect(),
    {
        Rect { left: 0, top: 0, right: 0, bottom: 0 }
    }

    /// The frame that outlines `self` with a border of `width` drawn `offset`
    /// inside its edges.
    pub fn outlined(&self, width: i32, offset: i32) -> (r: Rect)
        requires
            border_fits(*self, width, offset),
        ensures
            r == border_rect(*self, width, offset),
    {
        let d: i64 = offset as i64 - width as i64;
        Rect {
            left: (self.left as i64 + d) as i32,
            top: (self.top as i64 + d) as i32,
            right: (self.right as i64 - 2 * d) as i32,
            bottom: (self.bottom as i64 - 2 * d) as i32,
        }
    }
}

/// An RGB colour.
#[derive(Clone, Copy, Debug, PartialEq, Eq, Structural)]
pub struct Colour {
    pub r: u8,
    pub g: u8,
    pub b: u8,
}

/// The packed form of a colour: red in the low byte, then green, then blue.
pub open spec fn packed_colour(c: Colour) -> int {
    c.r as int + 256 * (c.g as int) + 65536 * (c.b as int)
}

/// The colour held in the low three bytes of `v`.
pub open spec fn unpacked_colour(v: u32) -> Colour {
    Colour {
        r: (v as int % 256) as u8,
        g: ((v as int / 256) % 256) as u8,
        b: ((v as int / 65536) % 256) as u8,
    }
}

impl Colour {
    pub fn to_u32(&self) -> (v: u32)
        ensures
            v as int == packed_colour(*self),
    {
        self.r as u32 + 256 * (self.g as u32) + 65536 * (self.b as u32)
    }

    pub fn from_u32(v: u32) -> (c: Colour)
        ensures
            c == unpacked_colour(v),
    {
        Colour { r: (v % 256) as u8, g: ((v / 256) % 256) as u8, b: ((v / 65536) % 256) as u8 }
    }
}

/// Border colours for the three kinds of container.
#[derive(Clone, Copy, Debug, PartialEq, Eq, Structural)]
pub struct ActiveWindowBorderColours {
    /// Border colour when the container contains a single window
    pub single: Colour,
    /// Border colour when the container contains multiple windows
    pub stack: Colour,
    /// Border colour when the container is in monocle mode
    pub monocle: Colour,
}

} // verus!

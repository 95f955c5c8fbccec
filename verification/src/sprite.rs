//! Placing a sprite on the screen: which part of the texture is copied, and
//! to which rectangle of the screen, given where the sprite's middle is.

use vstd::prelude::*;

verus! {

/// A rectangle: its top left corner and its size, in pixels.
#[derive(Clone, Copy, Debug, PartialEq, Eq, Structural)]
pub struct Rect {
    pub x: i32,
    pub y: i32,
    pub w: u32,
    pub h: u32,
}

/// A point, in pixels.
#[derive(Clone, Copy, Debug, PartialEq, Eq, Structural)]
pub struct Point {
    pub x: i32,
    pub y: i32,
}

/// One rotated copy of a texture to the screen.
#[derive(Clone, Copy, Debug, PartialEq, Eq, Structural)]
pub struct Blit {
    /// The part of the texture that is copied.
    pub src: Rect,
    /// The rectangle of the screen that it is copied to.
    pub dest: Rect,
    /// The angle by which the copy is turned with the clock, in half-degrees.
    pub angle: i32,
    /// The point that the copy is rotated about, counted from the top left
    /// corner of `dest`.
    pub center: Point,
}

/// The blit of a sprite whose middle is at `(x, y)` and whose heading is
/// `rot`: the source is the top left `i_w` by `i_h` pixels of the texture,
/// the destination has the size `o_w` by `o_h` and lies half its size up and
/// left of `(x, y)`, and the copy is turned by the heading about the middle
/// of the destination. Halves round down.
pub open spec fn blit_at(x: int, y: int, rot: i32, i_w: u32, i_h: u32, o_w: u32, o_h: u32) -> Blit {
    Blit {
        src: Rect { x: 0, y: 0, w: i_w, h: i_h },
        dest: Rect { x: (x - o_w / 2) as i32, y: (y - o_h / 2) as i32, w: o_w, h: o_h },
        angle: rot,
        center: Point { x: (o_w / 2) as i32, y: (o_h / 2) as i32 },
    }
}

/// Computes the blit of a sprite whose middle is at `(x, y)` and whose
/// heading is `rot`. The top left corner of the destination must still be a
/// pixel position.
pub fn place_sprite(x: i32, y: i32, rot: i32, i_w: u32, i_h: u32, o_w: u32, o_h: u32) -> (blit:
    Blit)
    requires
        x - o_w / 2 >= i32::MIN,
        y - o_h / 2 >= i32::MIN,
    ensures
        blit == blit_at(x as int, y as int, rot, i_w, i_h, o_w, o_h),
        blit.dest.x + blit.center.x == x,
        blit.dest.y + blit.center.y == y,
{
    let half_w: i32 = (o_w / 2) as i32;
    let half_h: i32 = (o_h / 2) as i32;
    Blit {
        src: Rect { x: 0, y: 0, w: i_w, h: i_h },
        dest: Rect { x: x - half_w, y: y - half_h, w: o_w, h: o_h },
        angle: rot,
        center: Point { x: half_w, y: half_h },
    }
}

/// The rotation point is the middle of the destination: it lies within the
/// destination, at half its width and height, rounded down.
pub proof fn lemma_center_is_middle_of_dest(
    x: int,
    y: int,
    rot: i32,
    i_w: u32,
    i_h: u32,
    o_w: u32,
    o_h: u32,
)
    ensures
        ({
            let blit = blit_at(x, y, rot, i_w, i_h, o_w, o_h);
            &&& 0 <= 2 * blit.center.x <= o_w <= 2 * blit.center.x + 1
            &&& 0 <= 2 * blit.center.y <= o_h <= 2 * blit.center.y + 1
        }),
{
}

} // verus!

use vstd::prelude::*;

verus! {

/// Layout units per pixel: the text layout engine measures in 1/1024 pixel.
pub const SCALE: i64 = 1024;

/// The size of a shaped text block, in layout units.
#[derive(Clone, Copy, Debug, PartialEq, Eq, Structural)]
pub struct Size {
    pub width: i32,
    pub height: i32,
}

/// A position in layout units.
#[derive(Clone, Copy, Debug, PartialEq, Eq, Structural)]
pub struct Point {
    pub x: i64,
    pub y: i64,
}

/// A point of the layout itself, as the layout engine's queries take it.
#[derive(Clone, Copy, Debug, PartialEq, Eq, Structural)]
pub struct LayoutPoint {
    pub x: i32,
    pub y: i32,
}

/// A rectangle in layout units: its top left corner and its extent.
#[derive(Clone, Copy, Debug, PartialEq, Eq, Structural)]
pub struct Rect {
    pub x: i64,
    pub y: i64,
    pub width: i64,
    pub height: i64,
}

/// Where a block of `block` units starts along an axis of `window` pixels so
/// that it sits in the middle; halves are rounded down to a whole unit.
pub open spec fn centred(window: int, block: int) -> int {
    (window * SCALE - block) / 2
}

/// `v`, or the nearest bound of `i32` where it does not fit.
pub open spec fn clamp_i32(v: int) -> int {
    if v < i32::MIN {
        i32::MIN as int
    } else if v > i32::MAX {
        i32::MAX as int
    } else {
        v
    }
}

/// `v`, or the nearest bound of `i64` where it does not fit.
pub open spec fn clamp_i64(v: int) -> int {
    if v < i64::MIN {
        i64::MIN as int
    } else if v > i64::MAX {
        i64::MAX as int
    } else {
        v
    }
}

/// The origin that centres a block of size `block` in a window of
/// `window_width` by `window_height` pixels.
pub open spec fn centre_spec(window_width: int, window_height: int, block: Size) -> Point {
    Point {
        x: centred(window_width, block.width as int) as i64,
        y: centred(window_height, block.height as int) as i64,
    }
}

/// A window position relative to `origin`, saturated to what the layout
/// engine's queries take.
pub open spec fn relative_spec(p: Point, origin: Point) -> LayoutPoint {
    LayoutPoint { x: clamp_i32(p.x - origin.x) as i32, y: clamp_i32(p.y - origin.y) as i32 }
}

/// A rectangle of the layout moved to window coordinates, the layout being
/// drawn at `origin`.
pub open spec fn placed_spec(r: Rect, origin: Point) -> Rect {
    Rect {
        x: clamp_i64(r.x + origin.x) as i64,
        y: clamp_i64(r.y + origin.y) as i64,
        width: r.width,
        height: r.height,
    }
}

fn centre_axis(window: i32, block: i32) -> (r: i64)
    ensures
        r == centred(window as int, block as int),
{
    let d: i64 = window as i64 * SCALE - block as i64;
    if d >= 0 {
        d / 2
    } else {
        let n: i64 = 1 - d;
        -(n / 2)
    }
}

fn saturate_i32(v: i128) -> (r: i32)
    ensures
        r == clamp_i32(v as int),
{
    if v < i32::MIN as i128 {
        i32::MIN
    } else if v > i32::MAX as i128 {
        i32::MAX
    } else {
        v as i32
    }
}

fn saturate_i64(v: i128) -> (r: i64)
    ensures
        r == clamp_i64(v as int),
{
    if v < i64::MIN as i128 {
        i64::MIN
    } else if v > i64::MAX as i128 {
        i64::MAX
    } else {
        v as i64
    }
}

/// The origin, in layout units, at which a block of size `block` stands in
/// the middle of a window of `window_width` by `window_height` pixels.
pub fn centre_origin(window_width: i32, window_height: i32, block: Size) -> (r: Point)
    ensures
        r == centre_spec(window_width as int, window_height as int, block),
        r.x == centred(window_width as int, block.width as int),
        r.y == centred(window_height as int, block.height as int),
{
    Point { x: centre_axis(window_width, block.width), y: centre_axis(window_height, block.height) }
}

/// A window position as the layout engine sees it when the layout is drawn
/// at `origin`: the difference, saturated to `i32`.
pub fn relative_to(p: Point, origin: Point) -> (r: LayoutPoint)
    ensures
        r == relative_spec(p, origin),
        r.x == clamp_i32(p.x - origin.x),
        r.y == clamp_i32(p.y - origin.y),
{
    LayoutPoint {
        x: saturate_i32(p.x as i128 - origin.x as i128),
        y: saturate_i32(p.y as i128 - origin.y as i128),
    }
}

/// A rectangle of a layout drawn at `origin`, in window coordinates.
pub fn place(r: Rect, origin: Point) -> (o: Rect)
    ensures
        o == placed_spec(r, origin),
{
    Rect {
        x: saturate_i64(r.x as i128 + origin.x as i128),
        y: saturate_i64(r.y as i128 + origin.y as i128),
        width: r.width,
        height: r.height,
    }
}

/// A block that fits in the window is centred in it: twice its origin plus
/// its extent is the window's extent, less at most the one unit lost when
/// the half is rounded down, and the block starts inside the window.
pub proof fn lemma_centre_origin_centres(window: int, block: int)
    requires
        0 <= block <= window * SCALE,
    ensures
        window * SCALE - 1 <= 2 * centred(window, block) + block <= window * SCALE,
        0 <= centred(window, block),
        centred(window, block) + block <= window * SCALE,
{
}

} // verus!

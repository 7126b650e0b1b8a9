//! Screen rectangles and the placement calculator.

use vstd::prelude::*;

verus! {

/// A rectangle in screen coordinates, given by its four edges.
#[derive(Clone, Copy, Debug, PartialEq, Eq, Structural)]
pub struct Rect {
    pub left: i32,
    pub top: i32,
    pub right: i32,
    pub bottom: i32,
}

impl Rect {
    /// Horizontal extent, `right - left`, as a mathematical integer.
    pub open spec fn spec_width(self) -> int {
        self.right - self.left
    }

    /// Vertical extent, `bottom - top`, as a mathematical integer.
    pub open spec fn spec_height(self) -> int {
        self.bottom - self.top
    }

    /// The rectangle with all four edges at zero, which stands for a
    /// rectangle that could not be read.
    pub fn zero() -> (r: Rect)
        ensures
            r == (Rect { left: 0, top: 0, right: 0, bottom: 0 }),
    {
        Rect { left: 0, top: 0, right: 0, bottom: 0 }
    }

    /// Horizontal extent. Two 32-bit edges always differ by a value that
    /// fits in 64 bits.
    pub fn width(&self) -> (w: i64)
        ensures
            w == self.spec_width(),
    {
        self.right as i64 - self.left as i64
    }

    /// Vertical extent.
    pub fn height(&self) -> (h: i64)
        ensures
            h == self.spec_height(),
    {
        self.bottom as i64 - self.top as i64
    }

    /// Whether the width and the height are 32-bit screen quantities, as
    /// the system takes them when it moves a window.
    pub open spec fn movable(&self) -> bool {
        fits_i32(self.spec_width()) && fits_i32(self.spec_height())
    }

    #[verifier::when_used_as_spec(movable)]
    pub fn is_movable(&self) -> (b: bool)
        ensures
            b == self.movable(),
    {
        in_i32(self.width()) && in_i32(self.height())
    }
}

/// Whether `v` is a 32-bit screen quantity.
pub open spec fn fits_i32(v: int) -> bool {
    i32::MIN <= v <= i32::MAX
}

fn in_i32(v: i64) -> (b: bool)
    ensures
        b == fits_i32(v as int),
{
    i32::MIN as i64 <= v && v <= i32::MAX as i64
}

/// Whether the window can be placed: the left edge that puts its right edge
/// on the right edge of the screen must be a 32-bit screen coordinate.
pub open spec fn placeable(window: Rect, screen_width: i32) -> bool {
    fits_i32(screen_width - window.spec_width())
}

/// The rectangle a window is moved to: it keeps its width, spans the work
/// area from top to bottom, and its right edge lies on the right edge of the
/// primary screen. The horizontal edges of the work area play no part.
pub open spec fn target_of(window: Rect, work_area: Rect, screen_width: i32) -> Rect {
    Rect {
        left: (screen_width - window.spec_width()) as i32,
        top: work_area.top,
        right: screen_width,
        bottom: work_area.bottom,
    }
}

/// Computes where a window goes. Returns `None` exactly when the left edge
/// of the placement is not a 32-bit screen coordinate.
pub fn compute_target(window: Rect, work_area: Rect, screen_width: i32) -> (target: Option<Rect>)
    ensures
        target == if placeable(window, screen_width) {
            Some(target_of(window, work_area, screen_width))
        } else {
            None::<Rect>
        },
{
    let x: i64 = screen_width as i64 - window.width();
    if in_i32(x) {
        Some(Rect { left: x as i32, top: work_area.top, right: screen_width, bottom: work_area.bottom })
    } else {
        None
    }
}

/// A placed window has the height of the work area, its own width, the top
/// of the work area, and a right edge on the right edge of the screen.
pub proof fn lemma_target_geometry(window: Rect, work_area: Rect, screen_width: i32)
    requires
        placeable(window, screen_width),
    ensures
        target_of(window, work_area, screen_width).spec_height() == work_area.spec_height(),
        target_of(window, work_area, screen_width).spec_width() == window.spec_width(),
        target_of(window, work_area, screen_width).top == work_area.top,
        target_of(window, work_area, screen_width).left + target_of(
            window,
            work_area,
            screen_width,
        ).spec_width() == screen_width,
{
}

/// Two work areas with the same top and bottom give the same placement,
/// whatever their left and right edges are.
pub proof fn lemma_target_ignores_horizontal_work_area(
    window: Rect,
    first: Rect,
    second: Rect,
    screen_width: i32,
)
    requires
        first.top == second.top,
        first.bottom == second.bottom,
    ensures
        target_of(window, first, screen_width) == target_of(window, second, screen_width),
{
}

} // verus!

//! Window bounds bookkeeping and the best-edge heuristic: the single-slot
//! bounds store, the rectangle-overlap ratio, and the choice of which screen
//! edge a window logically belongs to.

use vstd::prelude::*;
use vstd::arithmetic::div_mod::lemma_fundamental_div_mod;
use vstd::arithmetic::mul::{lemma_mul_strictly_positive, lemma_mul_upper_bound};

use crate::animation::Direction;
use crate::geometry::Rect;

verus! {

/// Position and size of the controlled window while fully visible,
/// in screen coordinates.
#[derive(Debug, Clone, Copy, PartialEq, Eq, Structural)]
pub struct WindowBounds {
    pub x: i32,
    pub y: i32,
    pub width: i32,
    pub height: i32,
}

/// The bounds that correspond to a corner-based rectangle.
pub open spec fn bounds_of_rect(rect: Rect) -> WindowBounds {
    WindowBounds {
        x: rect.left,
        y: rect.top,
        width: (rect.right - rect.left) as i32,
        height: (rect.bottom - rect.top) as i32,
    }
}

impl WindowBounds {
    /// Convert a corner-based rectangle into position and size.
    pub fn from_rect(rect: &Rect) -> (b: WindowBounds)
        requires
            i32::MIN <= rect.right - rect.left <= i32::MAX,
            i32::MIN <= rect.bottom - rect.top <= i32::MAX,
        ensures
            b == bounds_of_rect(*rect),
            b.x == rect.left,
            b.y == rect.top,
            b.width == rect.right - rect.left,
            b.height == rect.bottom - rect.top,
    {
        WindowBounds {
            x: rect.left,
            y: rect.top,
            width: ((rect.right as i64) - (rect.left as i64)) as i32,
            height: ((rect.bottom as i64) - (rect.top as i64)) as i32,
        }
    }
}

/// Single-slot store for the last captured geometry of the controlled
/// window; saving overwrites, nothing is merged.
pub struct BoundsStore {
    slot: Option<WindowBounds>,
}

impl BoundsStore {
    /// The most recently saved bounds, if any.
    pub closed spec fn stored(self) -> Option<WindowBounds> {
        self.slot
    }

    /// An empty store, as at startup.
    pub fn new() -> (s: BoundsStore)
        ensures
            s.stored() is None,
    {
        BoundsStore { slot: None }
    }

    /// Record the window's live rectangle, as captured just before a
    /// slide-out, overwriting any earlier value. `live_rect` is the result
    /// of the caller's geometry query; when that query failed (`None`)
    /// nothing is stored and `None` is returned.
    pub fn save_bounds(&mut self, live_rect: Option<Rect>) -> (r: Option<WindowBounds>)
        requires
            old(self).save_fits(live_rect),
        ensures
            live_rect is None ==> r is None && final(self).stored() == old(self).stored(),
            live_rect matches Some(rect) ==> r == Some(bounds_of_rect(rect))
                && final(self).stored() == r,
    {
        match live_rect {
            None => None,
            Some(rect) => {
                let bounds = WindowBounds::from_rect(&rect);
                self.slot = Some(bounds);
                Some(bounds)
            },
        }
    }

    /// The rectangle, if any, is representable as position and size.
    pub open spec fn save_fits(self, live_rect: Option<Rect>) -> bool {
        live_rect matches Some(rect) ==> {
            &&& i32::MIN <= rect.right - rect.left <= i32::MAX
            &&& i32::MIN <= rect.bottom - rect.top <= i32::MAX
        }
    }

    /// The last saved value, without side effects.
    pub fn load_bounds(&self) -> (r: Option<WindowBounds>)
        ensures
            r == self.stored(),
    {
        self.slot
    }

    /// Forget the saved value.
    pub fn clear_bounds(&mut self)
        ensures
            final(self).stored() is None,
    {
        self.slot = None;
    }
}

/// Area of the intersection of a window rectangle with a region, 0 when
/// they are disjoint or either is degenerate.
pub open spec fn inter_area(b: WindowBounds, region: Rect) -> int {
    let x1 = if b.x >= region.left { b.x as int } else { region.left as int };
    let y1 = if b.y >= region.top { b.y as int } else { region.top as int };
    let x2 = if b.x + b.width <= region.right { b.x + b.width } else { region.right as int };
    let y2 = if b.y + b.height <= region.bottom { b.y + b.height } else { region.bottom as int };
    if x2 <= x1 || y2 <= y1 {
        0
    } else {
        (x2 - x1) * (y2 - y1)
    }
}

/// Area of the window rectangle itself.
pub open spec fn window_area(b: WindowBounds) -> int {
    b.width * b.height
}

/// How much of the window lies inside a region, as the exact fraction
/// `num / den`. Zero is represented as `0 / 1`; otherwise `num` is the
/// intersection area and `den` the window's own area.
#[derive(Debug, Clone, Copy, PartialEq, Eq, Structural)]
pub struct OverlapRatio {
    pub num: i64,
    pub den: i64,
}

/// The fraction that `overlap_ratio` returns.
pub open spec fn overlap_ratio_spec(b: WindowBounds, region: Rect) -> OverlapRatio {
    if inter_area(b, region) == 0 {
        OverlapRatio { num: 0, den: 1 }
    } else {
        OverlapRatio { num: inter_area(b, region) as i64, den: window_area(b) as i64 }
    }
}

/// Intersection area of the window with the region, via clipped-rectangle
/// intersection. Positive only when the window itself has positive area,
/// and then never more than that area.
fn clipped_area(b: &WindowBounds, region: &Rect) -> (area: i64)
    ensures
        area == inter_area(*b, *region),
        0 <= area,
        area > 0 ==> b.width > 0 && b.height > 0 && area <= window_area(*b),
{
    let bx: i64 = b.x as i64;
    let by: i64 = b.y as i64;
    let x1: i64 = if bx >= region.left as i64 { bx } else { region.left as i64 };
    let y1: i64 = if by >= region.top as i64 { by } else { region.top as i64 };
    let br: i64 = bx + b.width as i64;
    let bb: i64 = by + b.height as i64;
    let x2: i64 = if br <= region.right as i64 { br } else { region.right as i64 };
    let y2: i64 = if bb <= region.bottom as i64 { bb } else { region.bottom as i64 };
    if x2 <= x1 || y2 <= y1 {
        0
    } else {
        proof {
            lemma_mul_upper_bound(x2 - x1, 0x7FFF_FFFFint, y2 - y1, 0x7FFF_FFFFint);
            lemma_mul_strictly_positive(x2 - x1, y2 - y1);
            lemma_mul_upper_bound(x2 - x1, b.width as int, y2 - y1, b.height as int);
        }
        (x2 - x1) * (y2 - y1)
    }
}

/// Fraction of the window's area that lies inside `region`: exactly the
/// intersection area over the window area, `0 / 1` when they are disjoint
/// or the window has no area.
pub fn overlap_ratio(b: &WindowBounds, region: &Rect) -> (r: OverlapRatio)
    ensures
        r == overlap_ratio_spec(*b, *region),
        0 <= r.num <= r.den,
        1 <= r.den,
{
    let area = clipped_area(b, region);
    if area == 0 {
        OverlapRatio { num: 0, den: 1 }
    } else {
        proof {
            lemma_mul_strictly_positive(b.width as int, b.height as int);
            lemma_mul_upper_bound(b.width as int, 0x7FFF_FFFFint, b.height as int, 0x7FFF_FFFFint);
        }
        OverlapRatio { num: area, den: (b.width as i64) * (b.height as i64) }
    }
}

/// Horizontal midpoint of the work area, with the sum halved toward zero.
pub open spec fn mid_x(wa: Rect) -> int {
    half_toward_zero(wa.left + wa.right)
}

/// Vertical midpoint of the work area, with the sum halved toward zero.
pub open spec fn mid_y(wa: Rect) -> int {
    half_toward_zero(wa.top + wa.bottom)
}

pub open spec fn half_toward_zero(s: int) -> int {
    if s >= 0 {
        s / 2
    } else {
        -((-s) / 2)
    }
}

/// The half of the work area that belongs to a slide direction: the left or
/// right half split at the horizontal midpoint, the top or bottom half split
/// at the vertical midpoint.
pub open spec fn half_of(direction: Direction, wa: Rect) -> Rect {
    match direction {
        Direction::Left => Rect {
            left: wa.left,
            top: wa.top,
            right: mid_x(wa) as i32,
            bottom: wa.bottom,
        },
        Direction::Right => Rect {
            left: mid_x(wa) as i32,
            top: wa.top,
            right: wa.right,
            bottom: wa.bottom,
        },
        Direction::Top => Rect {
            left: wa.left,
            top: wa.top,
            right: wa.right,
            bottom: mid_y(wa) as i32,
        },
        Direction::Bottom => Rect {
            left: wa.left,
            top: mid_y(wa) as i32,
            right: wa.right,
            bottom: wa.bottom,
        },
    }
}

/// The direction whose half of the work area the window overlaps most,
/// earlier directions winning ties in the order Left, Right, Top, Bottom.
/// Because all four ratios share the window's own area as denominator,
/// comparing intersection areas compares the ratios.
pub open spec fn calc_direction_spec(b: WindowBounds, wa: Rect) -> Direction {
    let l = inter_area(b, half_of(Direction::Left, wa));
    let r = inter_area(b, half_of(Direction::Right, wa));
    let t = inter_area(b, half_of(Direction::Top, wa));
    let bo = inter_area(b, half_of(Direction::Bottom, wa));
    if l >= r && l >= t && l >= bo {
        Direction::Left
    } else if r >= t && r >= bo {
        Direction::Right
    } else if t >= bo {
        Direction::Top
    } else {
        Direction::Bottom
    }
}

/// The midpoint of two coordinates: their sum halved toward zero,
/// computed without overflow.
fn half_sum(a: i32, c: i32) -> (m: i32)
    ensures
        m == half_toward_zero(a + c),
{
    let s: i64 = a as i64 + c as i64;
    let m: i64 = if s >= 0 {
        ((s as u64) / 2) as i64
    } else {
        -(((-s) as u64 / 2) as i64)
    };
    proof {
        if a <= c {
            assert(a <= half_toward_zero(a + c) <= c);
        } else {
            assert(c <= half_toward_zero(a + c) <= a);
        }
    }
    m as i32
}

/// The screen edge this window logically belongs to: the direction whose
/// half of the work area it overlaps most, ties broken in the order Left,
/// Right, Top, Bottom.
pub fn calc_direction(b: &WindowBounds, work_area: &Rect) -> (r: Direction)
    ensures
        r == calc_direction_spec(*b, *work_area),
{
    let mx = half_sum(work_area.left, work_area.right);
    let my = half_sum(work_area.top, work_area.bottom);

    let left_half = Rect { left: work_area.left, top: work_area.top, right: mx, bottom: work_area.bottom };
    let right_half = Rect { left: mx, top: work_area.top, right: work_area.right, bottom: work_area.bottom };
    let top_half = Rect { left: work_area.left, top: work_area.top, right: work_area.right, bottom: my };
    let bottom_half = Rect { left: work_area.left, top: my, right: work_area.right, bottom: work_area.bottom };

    let l = clipped_area(b, &left_half);
    let r = clipped_area(b, &right_half);
    let t = clipped_area(b, &top_half);
    let bo = clipped_area(b, &bottom_half);

    if l >= r && l >= t && l >= bo {
        Direction::Left
    } else if r >= t && r >= bo {
        Direction::Right
    } else if t >= bo {
        Direction::Top
    } else {
        Direction::Bottom
    }
}

/// The chosen direction's half is overlapped at least as much as any other
/// direction's half.
pub proof fn lemma_calc_direction_is_best(b: WindowBounds, wa: Rect)
    ensures
        forall|d: Direction| inter_area(b, #[trigger] half_of(d, wa))
            <= inter_area(b, half_of(calc_direction_spec(b, wa), wa)),
{
    assert forall|d: Direction| inter_area(b, #[trigger] half_of(d, wa))
        <= inter_area(b, half_of(calc_direction_spec(b, wa), wa)) by {
        match d {
            Direction::Left => {},
            Direction::Right => {},
            Direction::Top => {},
            Direction::Bottom => {},
        }
    }
}

/// A window of positive area overlaps its own rectangle completely: the
/// ratio is exactly one.
pub proof fn lemma_overlap_ratio_identical(b: WindowBounds)
    requires
        b.width > 0,
        b.height > 0,
        b.x + b.width <= i32::MAX,
        b.y + b.height <= i32::MAX,
    ensures
        ({
            let region = Rect {
                left: b.x,
                top: b.y,
                right: (b.x + b.width) as i32,
                bottom: (b.y + b.height) as i32,
            };
            overlap_ratio_spec(b, region).num == overlap_ratio_spec(b, region).den
        }),
{
    let region = Rect {
        left: b.x,
        top: b.y,
        right: (b.x + b.width) as i32,
        bottom: (b.y + b.height) as i32,
    };
    lemma_mul_strictly_positive(b.width as int, b.height as int);
    assert(inter_area(b, region) == b.width * b.height);
}

/// A window disjoint from the region overlaps it not at all: the ratio is
/// exactly zero.
pub proof fn lemma_overlap_ratio_disjoint(b: WindowBounds, region: Rect)
    requires
        b.x + b.width <= region.left || region.right <= b.x || b.y + b.height <= region.top
            || region.bottom <= b.y,
    ensures
        overlap_ratio_spec(b, region).num == 0,
        overlap_ratio_spec(b, region).den == 1,
{
}

/// A region whose boundary splits the window exactly in half earns a ratio
/// of exactly one half: here the region starts at the window's horizontal
/// midpoint and spans the rest of it.
pub proof fn lemma_overlap_ratio_half_split(b: WindowBounds, region: Rect)
    requires
        b.width > 0,
        b.width % 2 == 0,
        b.height > 0,
        region.left == b.x + b.width / 2,
        b.x + b.width <= region.right,
        region.top <= b.y,
        b.y + b.height <= region.bottom,
    ensures
        2 * overlap_ratio_spec(b, region).num == overlap_ratio_spec(b, region).den,
{
    let w = b.width as int;
    let h = b.height as int;
    let hw = w / 2;
    lemma_fundamental_div_mod(w, 2);
    assert(inter_area(b, region) == (w - hw) * h);
    lemma_mul_strictly_positive(hw, h);
    lemma_mul_upper_bound(hw, 0x7FFF_FFFFint, h, 0x7FFF_FFFFint);
    lemma_mul_upper_bound(w, 0x7FFF_FFFFint, h, 0x7FFF_FFFFint);
    assert(2 * (hw * h) == (hw + hw) * h) by (nonlinear_arith);
}

/// The same halving with a horizontal boundary: the region starts at the
/// window's vertical midpoint and spans the rest of it.
pub proof fn lemma_overlap_ratio_half_split_horizontal(b: WindowBounds, region: Rect)
    requires
        b.height > 0,
        b.height % 2 == 0,
        b.width > 0,
        region.top == b.y + b.height / 2,
        b.y + b.height <= region.bottom,
        region.left <= b.x,
        b.x + b.width <= region.right,
    ensures
        2 * overlap_ratio_spec(b, region).num == overlap_ratio_spec(b, region).den,
{
    let w = b.width as int;
    let h = b.height as int;
    let hh = h / 2;
    lemma_fundamental_div_mod(h, 2);
    assert(inter_area(b, region) == w * (h - hh));
    lemma_mul_strictly_positive(w, hh);
    lemma_mul_upper_bound(w, 0x7FFF_FFFFint, hh, 0x7FFF_FFFFint);
    lemma_mul_upper_bound(w, 0x7FFF_FFFFint, h, 0x7FFF_FFFFint);
    assert(2 * (w * hh) == w * (hh + hh)) by (nonlinear_arith);
}

} // verus!

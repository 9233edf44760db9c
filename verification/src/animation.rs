//! Animation core: easing curves, integer linear interpolation and the
//! per-edge position formula that drives slide-in and slide-out runs.
//!
//! Normalized time and progress are fixed-point values: an integer
//! `t` in `0 ..= PROGRESS_SCALE` stands for the real number
//! `t / PROGRESS_SCALE`.

use vstd::prelude::*;
use vstd::arithmetic::div_mod::{
    lemma_div_basics, lemma_div_denominator, lemma_div_is_ordered,
    lemma_div_is_ordered_by_denominator, lemma_div_multiples_vanish,
    lemma_div_multiples_vanish_fancy, lemma_div_nonincreasing, lemma_div_of0,
    lemma_div_pos_is_pos, lemma_fundamental_div_mod, lemma_multiply_divide_le,
    lemma_multiply_divide_lt,
};
use vstd::arithmetic::power2::{
    lemma2_to64, lemma_pow2_pos, lemma_pow2_strictly_increases, lemma_pow2_unfold, pow2,
};
use vstd::arithmetic::mul::{lemma_mul_nonnegative, lemma_mul_strict_inequality, lemma_mul_upper_bound};

use crate::PROGRESS_SCALE;
use crate::geometry::Rect;

verus! {

/// The screen edge a window slides from and back to.
#[derive(Debug, Clone, Copy, PartialEq, Eq, Structural)]
pub enum Direction {
    Left,
    Right,
    Top,
    Bottom,
}

/// Easing curve applied to normalized time; all variants are ease-out
/// (fast start, slow end) except `Linear`.
#[derive(Debug, Clone, Copy, PartialEq, Eq, Structural)]
pub enum Easing {
    Linear,
    Quad,
    Cubic,
    Expo,
}

/// `v` divided by `2^k`, rounding down at each halving.
pub open spec fn halved(v: int, k: nat) -> int
    decreases k,
{
    if k == 0 {
        v
    } else {
        halved(v, (k - 1) as nat) / 2
    }
}

/// The exponential ease-out curve `1 - 2^(-10 t)` on the fixed-point scale,
/// with the base-2 power taken piecewise linearly between neighbouring
/// powers of two (exact whenever `10 t` is a whole number) and the
/// endpoints clamped to exact 0 and 1.
pub open spec fn ease_expo(t: int) -> int {
    if t <= 0 {
        0
    } else if t >= PROGRESS_SCALE {
        PROGRESS_SCALE as int
    } else {
        let x = 10 * t;
        let k = x / (PROGRESS_SCALE as int);
        let f = x % (PROGRESS_SCALE as int);
        PROGRESS_SCALE - halved(PROGRESS_SCALE - f / 2, k as nat)
    }
}

impl Easing {
    /// The curve's value at normalized time `t`, on the fixed-point scale.
    pub open spec fn ease(self, t: int) -> int {
        match self {
            Easing::Linear => t,
            Easing::Quad => PROGRESS_SCALE - (PROGRESS_SCALE - t) * (PROGRESS_SCALE - t)
                / (PROGRESS_SCALE as int),
            Easing::Cubic => PROGRESS_SCALE - (PROGRESS_SCALE - t) * (PROGRESS_SCALE - t)
                * (PROGRESS_SCALE - t) / (PROGRESS_SCALE as int * PROGRESS_SCALE as int),
            Easing::Expo => ease_expo(t),
        }
    }

    /// Apply the easing curve: `t` in `0 ..= PROGRESS_SCALE` is mapped to
    /// `0 ..= PROGRESS_SCALE`, with the endpoints mapped exactly.
    pub fn apply(&self, t: u32) -> (r: u32)
        requires
            t <= PROGRESS_SCALE,
        ensures
            r == self.ease(t as int),
            r <= PROGRESS_SCALE,
            t == 0 ==> r == 0,
            t == PROGRESS_SCALE ==> r == PROGRESS_SCALE,
    {
        match self {
            Easing::Linear => t,
            Easing::Quad => {
                let u: u64 = (PROGRESS_SCALE - t) as u64;
                proof {
                    assert(u * u <= 65536 * 65536) by (nonlinear_arith)
                        requires u <= 65536;
                    lemma_div_is_ordered(u * u, 65536int * 65536, PROGRESS_SCALE as int);
                    lemma_div_of0(PROGRESS_SCALE as int);
                    if t == PROGRESS_SCALE {
                        assert(u * u == 0) by (nonlinear_arith)
                            requires u == 0;
                    }
                }
                let q: u64 = u * u / (PROGRESS_SCALE as u64);
                PROGRESS_SCALE - (q as u32)
            },
            Easing::Cubic => {
                let u: u64 = (PROGRESS_SCALE - t) as u64;
                proof {
                    assert(u * u <= 65536 * 65536 && u * u * u <= 65536 * 65536 * 65536)
                        by (nonlinear_arith)
                        requires u <= 65536;
                    lemma_div_is_ordered(
                        u * u * u,
                        65536int * 65536 * 65536,
                        PROGRESS_SCALE as int * PROGRESS_SCALE as int,
                    );
                    lemma_div_multiples_vanish(65536, 65536int * 65536);
                    lemma_div_of0(PROGRESS_SCALE as int * PROGRESS_SCALE as int);
                    if t == PROGRESS_SCALE {
                        assert(u * u * u == 0) by (nonlinear_arith)
                            requires u == 0;
                    }
                }
                let q: u64 = u * u * u / (PROGRESS_SCALE as u64 * PROGRESS_SCALE as u64);
                PROGRESS_SCALE - (q as u32)
            },
            Easing::Expo => {
                if t == 0 {
                    0
                } else if t == PROGRESS_SCALE {
                    PROGRESS_SCALE
                } else {
                    let x: u32 = 10 * t;
                    let k: u32 = x / PROGRESS_SCALE;
                    let f: u32 = x % PROGRESS_SCALE;
                    let base: u32 = PROGRESS_SCALE - f / 2;
                    let mut v: u32 = base;
                    let mut i: u32 = 0;
                    while i < k
                        invariant
                            i <= k,
                            v == halved(base as int, i as nat),
                            v <= base,
                        decreases k - i,
                    {
                        v = v / 2;
                        i = i + 1;
                    }
                    PROGRESS_SCALE - v
                }
            },
        }
    }
}

/// `round(n / PROGRESS_SCALE)` with halves rounded away from zero.
pub open spec fn round_to_scale(n: int) -> int {
    if n >= 0 {
        (n + PROGRESS_SCALE / 2) / (PROGRESS_SCALE as int)
    } else {
        -(((-n) + PROGRESS_SCALE / 2) / (PROGRESS_SCALE as int))
    }
}

/// `a + (b - a) * t` for a fixed-point `t`, rounded to the nearest integer.
pub open spec fn lerp_spec(a: int, b: int, t: int) -> int {
    a + round_to_scale((b - a) * t)
}

/// The rounded quotient of a scaled nonnegative difference never overshoots
/// the difference itself.
proof fn lemma_scaled_quotient(d: int, t: int)
    requires
        0 <= d,
        0 <= t <= PROGRESS_SCALE,
    ensures
        0 <= (d * t + PROGRESS_SCALE / 2) / (PROGRESS_SCALE as int) <= d,
        t == 0 ==> (d * t + PROGRESS_SCALE / 2) / (PROGRESS_SCALE as int) == 0,
        t == PROGRESS_SCALE ==> (d * t + PROGRESS_SCALE / 2) / (PROGRESS_SCALE as int) == d,
{
    lemma_mul_nonnegative(d, t);
    lemma_div_pos_is_pos(d * t + PROGRESS_SCALE / 2, PROGRESS_SCALE as int);
    assert(d * t <= d * 65536) by (nonlinear_arith)
        requires 0 <= d, t <= 65536;
    lemma_div_is_ordered(d * t + 32768, d * 65536 + 32768, 65536);
    assert((d * 65536 + 32768) / 65536 == d) by {
        lemma_div_multiples_vanish_fancy(d, 32768, 65536);
    }
    if t == 0 {
        assert(d * 0 == 0) by (nonlinear_arith);
    }
}

/// Linear interpolation between two pixel coordinates: the fixed-point
/// counterpart of `a + (b - a) * t` with the result rounded to the nearest
/// pixel, halves away from zero. `t == 0` gives exactly `a` and
/// `t == PROGRESS_SCALE` exactly `b`; the result never leaves the closed
/// interval between `a` and `b`.
pub fn lerp(a: i32, b: i32, t: u32) -> (r: i32)
    requires
        t <= PROGRESS_SCALE,
    ensures
        r == lerp_spec(a as int, b as int, t as int),
        t == 0 ==> r == a,
        t == PROGRESS_SCALE ==> r == b,
        a <= b ==> a <= r <= b,
        b <= a ==> b <= r <= a,
{
    let half: u64 = PROGRESS_SCALE as u64 / 2;
    if b >= a {
        let d: u64 = (b as i64 - a as i64) as u64;
        proof {
            lemma_mul_upper_bound(d as int, 0xFFFF_FFFFint, t as int, 65536int);
            lemma_scaled_quotient(d as int, t as int);
            assert((b as int - a as int) * (t as int) == d as int * (t as int))
                by (nonlinear_arith)
                requires d == b as int - a as int;
        }
        let q: u64 = (d * t as u64 + half) / PROGRESS_SCALE as u64;
        (a as i64 + q as i64) as i32
    } else {
        let d: u64 = (a as i64 - b as i64) as u64;
        proof {
            lemma_mul_upper_bound(d as int, 0xFFFF_FFFFint, t as int, 65536int);
            lemma_scaled_quotient(d as int, t as int);
            assert((b as int - a as int) * (t as int) == -(d as int * (t as int)))
                by (nonlinear_arith)
                requires d == a as int - b as int;
        }
        let q: u64 = (d * t as u64 + half) / PROGRESS_SCALE as u64;
        (a as i64 - q as i64) as i32
    }
}

/// Progress along the slide: a slide-out run reuses the slide-in formula
/// with the direction of travel inverted.
pub open spec fn slide_t(progress: int, slide_in: bool) -> int {
    if slide_in {
        progress
    } else {
        PROGRESS_SCALE - progress
    }
}

/// Where the window stands at a given progress. The animated axis moves
/// between the hidden endpoint (leading edge just outside the work area)
/// and the visible endpoint (flush against the inside of that edge); the
/// other axis is pinned to the work-area edge.
pub open spec fn calc_position_spec(
    direction: Direction,
    work_area: Rect,
    width: int,
    height: int,
    progress: int,
    slide_in: bool,
) -> (int, int) {
    let t = slide_t(progress, slide_in);
    match direction {
        Direction::Left => (lerp_spec(-width, 0, t), work_area.top as int),
        Direction::Right => (
            lerp_spec(work_area.right as int, work_area.right - width, t),
            work_area.top as int,
        ),
        Direction::Top => (work_area.left as int, lerp_spec(-height, 0, t)),
        Direction::Bottom => (
            work_area.left as int,
            lerp_spec(work_area.bottom as int, work_area.bottom - height, t),
        ),
    }
}

/// Top-left corner of the window at `progress` through a slide.
/// `slide_in == true` animates hidden to visible as progress runs 0 to 1;
/// `slide_in == false` animates visible to hidden.
pub fn calc_position(
    direction: Direction,
    work_area: &Rect,
    width: i32,
    height: i32,
    progress: u32,
    slide_in: bool,
) -> (r: (i32, i32))
    requires
        progress <= PROGRESS_SCALE,
        0 <= width,
        0 <= height,
        i32::MIN <= work_area.right - width,
        i32::MIN <= work_area.bottom - height,
    ensures
        r.0 == calc_position_spec(
            direction,
            *work_area,
            width as int,
            height as int,
            progress as int,
            slide_in,
        ).0,
        r.1 == calc_position_spec(
            direction,
            *work_area,
            width as int,
            height as int,
            progress as int,
            slide_in,
        ).1,
{
    let t: u32 = if slide_in {
        progress
    } else {
        PROGRESS_SCALE - progress
    };
    match direction {
        Direction::Left => {
            let x = lerp(-width, 0, t);
            (x, work_area.top)
        },
        Direction::Right => {
            let visible_x = work_area.right - width;
            let x = lerp(work_area.right, visible_x, t);
            (x, work_area.top)
        },
        Direction::Top => {
            let y = lerp(-height, 0, t);
            (work_area.left, y)
        },
        Direction::Bottom => {
            let visible_y = work_area.bottom - height;
            let y = lerp(work_area.bottom, visible_y, t);
            (work_area.left, y)
        },
    }
}

/// Configuration of one slide run, immutable for its duration. The window
/// size is taken as percentages of the work area when no captured bounds
/// dictate it.
#[derive(Debug, Clone, Copy, PartialEq, Eq, Structural)]
pub struct AnimConfig {
    pub duration_ms: u32,
    pub easing: Easing,
    pub direction: Direction,
    pub width_percent: u32,
    pub height_percent: u32,
}

impl Default for AnimConfig {
    /// The stock run: 200 ms, cubic ease-out, sliding from the left, the
    /// window 40% of the work area wide and its full height.
    fn default() -> (c: Self)
        ensures
            c == (AnimConfig {
                duration_ms: 200,
                easing: Easing::Cubic,
                direction: Direction::Left,
                width_percent: 40,
                height_percent: 100,
            }),
    {
        AnimConfig {
            duration_ms: 200,
            easing: Easing::Cubic,
            direction: Direction::Left,
            width_percent: 40,
            height_percent: 100,
        }
    }
}

/// Window size derived from the work area: the given percentages of its
/// width and height, truncated to whole pixels.
pub fn derived_size(work_area: &Rect, width_percent: u32, height_percent: u32) -> (r: (i32, i32))
    requires
        work_area.well_formed(),
        (work_area.right - work_area.left) * width_percent <= i32::MAX,
        (work_area.bottom - work_area.top) * height_percent <= i32::MAX,
    ensures
        r.0 == (work_area.right - work_area.left) * width_percent / 100,
        r.1 == (work_area.bottom - work_area.top) * height_percent / 100,
        0 <= r.0 <= work_area.right - work_area.left || width_percent > 100,
        0 <= r.1 <= work_area.bottom - work_area.top || height_percent > 100,
{
    let w: u64 = (work_area.right - work_area.left) as u64;
    let h: u64 = (work_area.bottom - work_area.top) as u64;
    let dw: u64 = w * width_percent as u64 / 100;
    let dh: u64 = h * height_percent as u64 / 100;
    proof {
        lemma_div_pos_is_pos(w * width_percent, 100);
        lemma_div_pos_is_pos(h * height_percent, 100);
        if width_percent <= 100 {
            lemma_mul_upper_bound(w as int, w as int, width_percent as int, 100);
            lemma_multiply_divide_le(w * width_percent, 100, w as int);
        }
        if height_percent <= 100 {
            lemma_mul_upper_bound(h as int, h as int, height_percent as int, 100);
            lemma_multiply_divide_le(h * height_percent, 100, h as int);
        }
    }
    (dw as i32, dh as i32)
}

/// Normalized raw time `min(elapsed / duration, 1)` on the fixed-point
/// scale; a zero duration counts as an already finished run.
pub open spec fn raw_progress(elapsed_ms: u64, duration_ms: u32) -> int {
    if duration_ms == 0 || elapsed_ms >= duration_ms {
        PROGRESS_SCALE as int
    } else {
        elapsed_ms * PROGRESS_SCALE / (duration_ms as int)
    }
}

/// The raw progress of a run at `elapsed_ms`, capped at complete.
pub fn raw_progress_at(elapsed_ms: u64, duration_ms: u32) -> (t: u32)
    ensures
        t == raw_progress(elapsed_ms, duration_ms),
        t <= PROGRESS_SCALE,
        t == PROGRESS_SCALE <==> duration_ms == 0 || elapsed_ms >= duration_ms,
{
    if duration_ms == 0 || elapsed_ms >= duration_ms as u64 {
        PROGRESS_SCALE
    } else {
        proof {
            lemma_mul_strict_inequality(
                elapsed_ms as int,
                duration_ms as int,
                PROGRESS_SCALE as int,
            );
            lemma_multiply_divide_lt(
                elapsed_ms * PROGRESS_SCALE,
                duration_ms as int,
                PROGRESS_SCALE as int,
            );
            lemma_div_pos_is_pos(elapsed_ms * PROGRESS_SCALE, duration_ms as int);
        }
        (elapsed_ms * PROGRESS_SCALE as u64 / duration_ms as u64) as u32
    }
}

/// What the window-positioning call of one frame must carry: make the
/// window visible, hide it atomically with the move, keep it from stealing
/// activation, or leave the z-order untouched.
#[derive(Debug, Clone, Copy, PartialEq, Eq, Structural)]
pub struct FrameFlags {
    pub show: bool,
    pub hide: bool,
    pub no_activate: bool,
    pub keep_zorder: bool,
}

/// Flags of a loop frame. The terminal slide-out frame hides the window in
/// the same call that moves it, so no visible frame at the hidden position
/// is ever composited; earlier slide-out frames only avoid stealing
/// activation. Slide-in frames leave the z-order alone so that normal
/// focus-follows-show semantics apply.
pub open spec fn frame_flags(slide_in: bool, is_final: bool) -> FrameFlags {
    if is_final && !slide_in {
        FrameFlags { show: false, hide: true, no_activate: true, keep_zorder: false }
    } else if slide_in {
        FrameFlags { show: false, hide: false, no_activate: false, keep_zorder: true }
    } else {
        FrameFlags { show: false, hide: false, no_activate: true, keep_zorder: false }
    }
}

/// One frame of a slide: where to put the window, at what size, with which
/// flags, and whether the run is over after this frame.
#[derive(Debug, Clone, Copy, PartialEq, Eq, Structural)]
pub struct AnimFrame {
    pub x: i32,
    pub y: i32,
    pub width: i32,
    pub height: i32,
    pub flags: FrameFlags,
    pub is_final: bool,
}

/// The frame geometry fits the work area and the interpolation scale.
pub open spec fn frame_geometry_fits(work_area: Rect, width: int, height: int) -> bool {
    &&& 0 <= width
    &&& 0 <= height
    &&& i32::MIN <= work_area.right - width
    &&& i32::MIN <= work_area.bottom - height
}

/// The frame to push at `elapsed_ms` into a slide: the eased position, the
/// window size, the flags of the positioning call, and whether this is the
/// terminal frame.
pub fn frame_at(
    config: &AnimConfig,
    work_area: &Rect,
    width: i32,
    height: i32,
    slide_in: bool,
    elapsed_ms: u64,
) -> (frame: AnimFrame)
    requires
        frame_geometry_fits(*work_area, width as int, height as int),
    ensures
        frame.is_final == (config.duration_ms == 0 || elapsed_ms >= config.duration_ms),
        ({
            let t = config.easing.ease(raw_progress(elapsed_ms, config.duration_ms));
            let pos = calc_position_spec(
                config.direction,
                *work_area,
                width as int,
                height as int,
                t,
                slide_in,
            );
            frame.x == pos.0 && frame.y == pos.1
        }),
        frame.width == width,
        frame.height == height,
        frame.flags == frame_flags(slide_in, frame.is_final),
{
    let raw = raw_progress_at(elapsed_ms, config.duration_ms);
    let t = config.easing.apply(raw);
    let is_final = raw == PROGRESS_SCALE;
    let pos = calc_position(config.direction, work_area, width, height, t, slide_in);
    let flags = if is_final && !slide_in {
        FrameFlags { show: false, hide: true, no_activate: true, keep_zorder: false }
    } else if slide_in {
        FrameFlags { show: false, hide: false, no_activate: false, keep_zorder: true }
    } else {
        FrameFlags { show: false, hide: false, no_activate: true, keep_zorder: false }
    };
    AnimFrame { x: pos.0, y: pos.1, width, height, flags, is_final }
}

/// The frame that first makes the window visible, at the fully hidden
/// position, pushed before a slide-in's loop starts so the viewer never
/// sees a flash at the window's prior position.
pub fn show_frame(config: &AnimConfig, work_area: &Rect, width: i32, height: i32) -> (frame:
    AnimFrame)
    requires
        frame_geometry_fits(*work_area, width as int, height as int),
    ensures
        ({
            let pos = calc_position_spec(
                config.direction,
                *work_area,
                width as int,
                height as int,
                0,
                true,
            );
            frame.x == pos.0 && frame.y == pos.1
        }),
        frame.width == width,
        frame.height == height,
        frame.flags == (FrameFlags {
            show: true,
            hide: false,
            no_activate: false,
            keep_zorder: false,
        }),
        !frame.is_final,
{
    let pos = calc_position(config.direction, work_area, width, height, 0, true);
    AnimFrame {
        x: pos.0,
        y: pos.1,
        width,
        height,
        flags: FrameFlags { show: true, hide: false, no_activate: false, keep_zorder: false },
        is_final: false,
    }
}

/// Where one slide run stands.
#[derive(Debug, Clone, Copy, PartialEq, Eq, Structural)]
pub enum RunState {
    NotStarted,
    Running,
    Done,
}

/// One slide run, not persisted across runs: the per-run inputs and where
/// the run stands. The caller owns the waiting on the display refresh and
/// the window calls; every decision of the run is taken here.
#[derive(Debug, Clone, Copy, PartialEq, Eq, Structural)]
pub struct AnimRun {
    pub config: AnimConfig,
    pub work_area: Rect,
    pub width: i32,
    pub height: i32,
    pub slide_in: bool,
    pub state: RunState,
}

impl AnimRun {
    /// A fresh run over the given geometry.
    pub fn new(
        config: AnimConfig,
        work_area: Rect,
        width: i32,
        height: i32,
        slide_in: bool,
    ) -> (run: AnimRun)
        requires
            frame_geometry_fits(work_area, width as int, height as int),
        ensures
            run == (AnimRun { config, work_area, width, height, slide_in, state: RunState::NotStarted }),
    {
        AnimRun { config, work_area, width, height, slide_in, state: RunState::NotStarted }
    }

    pub open spec fn wf(self) -> bool {
        frame_geometry_fits(self.work_area, self.width as int, self.height as int)
    }

    /// Start the run. A slide-in first shows the window at the fully
    /// hidden position, after one wait for the display refresh; a
    /// slide-out starts with the window where it is.
    pub fn begin(&mut self) -> (first: Option<AnimFrame>)
        requires
            old(self).wf(),
            old(self).state is NotStarted,
        ensures
            *final(self) == (AnimRun { state: RunState::Running, ..*old(self) }),
            old(self).slide_in ==> (first matches Some(f) && f.flags.show && !f.is_final),
            !old(self).slide_in ==> first is None,
            first matches Some(f) ==> {
                let pos = calc_position_spec(
                    old(self).config.direction,
                    old(self).work_area,
                    old(self).width as int,
                    old(self).height as int,
                    0,
                    true,
                );
                f.x == pos.0 && f.y == pos.1 && f.width == old(self).width && f.height == old(
                    self,
                ).height
            },
    {
        self.state = RunState::Running;
        if self.slide_in {
            Some(show_frame(&self.config, &self.work_area, self.width, self.height))
        } else {
            None
        }
    }

    /// One loop iteration, taken after a wait for the display refresh:
    /// the frame to push for the time elapsed since the run started. The
    /// terminal frame moves the run to Done.
    pub fn next_frame(&mut self, elapsed_ms: u64) -> (frame: AnimFrame)
        requires
            old(self).wf(),
            old(self).state is Running,
        ensures
            frame == frame_at_spec(*old(self), elapsed_ms),
            frame.is_final <==> (old(self).config.duration_ms == 0 || elapsed_ms >= old(
                self,
            ).config.duration_ms),
            frame.is_final ==> *final(self) == (AnimRun { state: RunState::Done, ..*old(self) }),
            !frame.is_final ==> *final(self) == *old(self),
    {
        let frame = frame_at(
            &self.config,
            &self.work_area,
            self.width,
            self.height,
            self.slide_in,
            elapsed_ms,
        );
        if frame.is_final {
            self.state = RunState::Done;
        }
        frame
    }

    /// After the terminal frame a slide-out owes one more wait for the
    /// display refresh, so the hide is composited before the run returns.
    pub fn needs_final_sync(&self) -> (r: bool)
        requires
            self.state is Done,
        ensures
            r == !self.slide_in,
    {
        !self.slide_in
    }
}

/// The frame `next_frame` hands out at `elapsed_ms`.
pub open spec fn frame_at_spec(run: AnimRun, elapsed_ms: u64) -> AnimFrame {
    let is_final = run.config.duration_ms == 0 || elapsed_ms >= run.config.duration_ms;
    let t = run.config.easing.ease(raw_progress(elapsed_ms, run.config.duration_ms));
    let pos = calc_position_spec(
        run.config.direction,
        run.work_area,
        run.width as int,
        run.height as int,
        t,
        run.slide_in,
    );
    AnimFrame {
        x: pos.0 as i32,
        y: pos.1 as i32,
        width: run.width,
        height: run.height,
        flags: frame_flags(run.slide_in, is_final),
        is_final,
    }
}

/// The hidden endpoint is one and the same point whichever way the slide
/// runs: progress 0 of a slide-in and progress 1 of a slide-out place the
/// window identically, for every direction.
pub proof fn lemma_hidden_endpoint_shared(
    direction: Direction,
    work_area: Rect,
    width: int,
    height: int,
)
    ensures
        calc_position_spec(direction, work_area, width, height, 0, true)
            == calc_position_spec(direction, work_area, width, height, PROGRESS_SCALE as int, false),
{
}

/// `halved` is division by the matching power of two.
proof fn lemma_halved_pow2(v: int, k: nat)
    requires
        0 <= v,
    ensures
        halved(v, k) == v / pow2(k) as int,
    decreases k,
{
    lemma_pow2_pos(k);
    if k == 0 {
        lemma2_to64();
        lemma_div_basics(v);
    } else {
        let k1 = (k - 1) as nat;
        lemma_halved_pow2(v, k1);
        lemma_pow2_pos(k1);
        lemma_div_denominator(v, pow2(k1) as int, 2);
        lemma_pow2_unfold(k);
    }
}

/// The exponential curve stays on the fixed-point scale.
proof fn lemma_ease_expo_bounds(t: int)
    ensures
        0 <= ease_expo(t) <= PROGRESS_SCALE,
{
    if 0 < t < PROGRESS_SCALE {
        let x = 10 * t;
        let k = (x / 65536) as nat;
        let f = x % 65536;
        let base = 65536 - f / 2;
        lemma_halved_pow2(base, k);
        lemma_pow2_pos(k);
        lemma_div_pos_is_pos(base, pow2(k) as int);
        lemma_div_nonincreasing(base, pow2(k) as int);
    }
}

/// The piecewise exponential approximation is monotone: the halving depth
/// never decreases with `t`, and within one depth the base never grows.
proof fn lemma_ease_expo_monotone(t1: int, t2: int)
    requires
        0 <= t1 <= t2 <= PROGRESS_SCALE,
    ensures
        ease_expo(t1) <= ease_expo(t2),
{
    lemma_ease_expo_bounds(t1);
    lemma_ease_expo_bounds(t2);
    if 0 < t1 && t2 < PROGRESS_SCALE {
        let x1 = 10 * t1;
        let x2 = 10 * t2;
        let k1 = (x1 / 65536) as nat;
        let k2 = (x2 / 65536) as nat;
        let f1 = x1 % 65536;
        let f2 = x2 % 65536;
        let b1 = 65536 - f1 / 2;
        let b2 = 65536 - f2 / 2;
        let p1 = pow2(k1) as int;
        let p2 = pow2(k2) as int;
        lemma_halved_pow2(b1, k1);
        lemma_halved_pow2(b2, k2);
        lemma_pow2_pos(k1);
        lemma_pow2_pos(k2);
        lemma_div_is_ordered(x1, x2, 65536);
        if k1 == k2 {
            lemma_fundamental_div_mod(x1, 65536);
            lemma_fundamental_div_mod(x2, 65536);
            lemma_div_is_ordered(f1, f2, 2);
            lemma_div_is_ordered(b2, b1, p1);
        } else {
            if k1 + 1 < k2 {
                lemma_pow2_strictly_increases((k1 + 1) as nat, k2);
            }
            lemma_pow2_unfold((k1 + 1) as nat);
            lemma_div_is_ordered(b2, 65536, p2);
            lemma_div_is_ordered_by_denominator(65536, 2 * p1, p2);
            lemma_div_denominator(65536, 2, p1);
            lemma_div_is_ordered(32768, b1, p1);
        }
    }
}

/// Every easing curve is monotonically non-decreasing over the whole
/// normalized time range.
pub proof fn lemma_ease_monotone(e: Easing, t1: int, t2: int)
    requires
        0 <= t1 <= t2 <= PROGRESS_SCALE,
    ensures
        e.ease(t1) <= e.ease(t2),
{
    let u1 = PROGRESS_SCALE - t1;
    let u2 = PROGRESS_SCALE - t2;
    match e {
        Easing::Linear => {},
        Easing::Quad => {
            assert(u2 * u2 <= u1 * u1) by (nonlinear_arith)
                requires 0 <= u2 <= u1;
            lemma_div_is_ordered(u2 * u2, u1 * u1, 65536);
        },
        Easing::Cubic => {
            assert(u2 * u2 * u2 <= u1 * u1 * u1) by (nonlinear_arith)
                requires 0 <= u2 <= u1;
            lemma_div_is_ordered(u2 * u2 * u2, u1 * u1 * u1, 65536int * 65536);
        },
        Easing::Expo => {
            lemma_ease_expo_monotone(t1, t2);
        },
    }
}

} // verus!

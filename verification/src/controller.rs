//! Decisions of the surrounding event loop, taken on plain values: which
//! slide to run, from which edge, over which bounds. The caller performs
//! the monitor and window queries and hands their results in; everything
//! decided from them is verified here.

use vstd::prelude::*;

use crate::animation::Direction;
use crate::error::AnimationError;
use crate::geometry::Rect;
use crate::tracking::{
    bounds_of_rect, calc_direction, calc_direction_spec, BoundsStore, WindowBounds,
};

verus! {

/// Everything one slide run needs: which way the window travels, from
/// which edge, and the rectangle it occupies while visible.
#[derive(Debug, Clone, Copy, PartialEq, Eq, Structural)]
pub struct TogglePlan {
    pub slide_in: bool,
    pub direction: Direction,
    pub bounds: WindowBounds,
}

/// Result and new stored bounds of planning a slide-out. The live
/// rectangle is captured into the store first, so the slide works from the
/// window's true current position; without monitor information or live
/// geometry the plan is abandoned before any window mutation.
pub open spec fn plan_hide_spec(
    stored: Option<WindowBounds>,
    work_area: Option<Rect>,
    live_rect: Option<Rect>,
) -> (Result<TogglePlan, AnimationError>, Option<WindowBounds>) {
    if work_area is None {
        (Err(AnimationError::MonitorInfo), stored)
    } else if live_rect is None {
        (Err(AnimationError::WindowGeometry), stored)
    } else {
        let b = bounds_of_rect(live_rect->0);
        (
            Ok(
                TogglePlan {
                    slide_in: false,
                    direction: calc_direction_spec(b, work_area->0),
                    bounds: b,
                },
            ),
            Some(b),
        )
    }
}

/// Result and new stored bounds of planning a slide-in. The stored bounds
/// are the target rectangle; only when none were ever captured is the live
/// rectangle captured instead.
pub open spec fn plan_show_spec(
    stored: Option<WindowBounds>,
    work_area: Option<Rect>,
    live_rect: Option<Rect>,
) -> (Result<TogglePlan, AnimationError>, Option<WindowBounds>) {
    if work_area is None {
        (Err(AnimationError::MonitorInfo), stored)
    } else if stored is Some {
        let b = stored->0;
        (
            Ok(TogglePlan { slide_in: true, direction: calc_direction_spec(b, work_area->0), bounds: b }),
            stored,
        )
    } else if live_rect is None {
        (Err(AnimationError::WindowGeometry), stored)
    } else {
        let b = bounds_of_rect(live_rect->0);
        (
            Ok(TogglePlan { slide_in: true, direction: calc_direction_spec(b, work_area->0), bounds: b }),
            Some(b),
        )
    }
}

/// Plan a slide-out of the visible window: capture its live rectangle
/// into the store, pick the edge it overlaps most, and slide out toward
/// that edge.
pub fn plan_hide(
    store: &mut BoundsStore,
    work_area: Option<Rect>,
    live_rect: Option<Rect>,
) -> (r: Result<TogglePlan, AnimationError>)
    requires
        old(store).save_fits(live_rect),
    ensures
        (r, final(store).stored()) == plan_hide_spec(old(store).stored(), work_area, live_rect),
{
    let wa = match work_area {
        Some(wa) => wa,
        None => {
            return Err(AnimationError::MonitorInfo);
        },
    };
    let bounds = match store.save_bounds(live_rect) {
        Some(b) => b,
        None => {
            return Err(AnimationError::WindowGeometry);
        },
    };
    let direction = calc_direction(&bounds, &wa);
    Ok(TogglePlan { slide_in: false, direction, bounds })
}

/// Plan a slide-in of the hidden window: restore it to its stored
/// rectangle (or, when nothing was ever captured, capture its live one),
/// sliding in from the edge that rectangle overlaps most.
pub fn plan_show(
    store: &mut BoundsStore,
    work_area: Option<Rect>,
    live_rect: Option<Rect>,
) -> (r: Result<TogglePlan, AnimationError>)
    requires
        old(store).save_fits(live_rect),
    ensures
        (r, final(store).stored()) == plan_show_spec(old(store).stored(), work_area, live_rect),
{
    let wa = match work_area {
        Some(wa) => wa,
        None => {
            return Err(AnimationError::MonitorInfo);
        },
    };
    let bounds = match store.load_bounds() {
        Some(b) => b,
        None => {
            match store.save_bounds(live_rect) {
                Some(b) => b,
                None => {
                    return Err(AnimationError::WindowGeometry);
                },
            }
        },
    };
    let direction = calc_direction(&bounds, &wa);
    Ok(TogglePlan { slide_in: true, direction, bounds })
}

/// Plan the slide a manual toggle asks for: a visible window slides out,
/// a hidden one slides back in.
pub fn plan_toggle(
    visible: bool,
    store: &mut BoundsStore,
    work_area: Option<Rect>,
    live_rect: Option<Rect>,
) -> (r: Result<TogglePlan, AnimationError>)
    requires
        old(store).save_fits(live_rect),
    ensures
        visible ==> (r, final(store).stored()) == plan_hide_spec(
            old(store).stored(),
            work_area,
            live_rect,
        ),
        !visible ==> (r, final(store).stored()) == plan_show_spec(
            old(store).stored(),
            work_area,
            live_rect,
        ),
        r matches Ok(plan) ==> plan.slide_in == !visible,
{
    if visible {
        plan_hide(store, work_area, live_rect)
    } else {
        plan_show(store, work_area, live_rect)
    }
}

} // verus!

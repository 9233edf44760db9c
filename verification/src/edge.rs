//! Edge trigger: a debounced four-state machine that decides when to show
//! or hide the window from the cursor's position relative to the screen
//! edge and the window's own bounds.

use vstd::prelude::*;

use crate::animation::Direction;
use crate::geometry::{Point, Rect};
use crate::tracking::{calc_direction, calc_direction_spec, WindowBounds};

verus! {

/// Failure to persist or read edge-trigger settings; the caller performs
/// the storage access and hands its failure text over.
#[derive(Debug, Clone)]
pub enum EdgeError {
    Registry { message: String },
}

impl EdgeError {
    /// The wrapped storage failure text.
    pub open spec fn registry_message(self) -> Seq<char> {
        match self {
            EdgeError::Registry { message } => message@,
        }
    }

    /// Human-readable description of the error.
    pub fn message(&self) -> (r: String)
        ensures
            r@ == "Registry access failed: "@ + self.registry_message(),
    {
        match self {
            EdgeError::Registry { message } => {
                let mut out = String::from_str("Registry access failed: ");
                out.append(message.as_str());
                out
            },
        }
    }
}

/// Edge trigger configuration, immutable per session. `threshold_px` is the
/// cursor-to-edge distance (inclusive) that counts as "at the edge"; the two
/// delays are debounce windows in milliseconds.
#[derive(Debug, Clone, Copy, PartialEq, Eq, Structural)]
pub struct EdgeConfig {
    pub threshold_px: i32,
    pub show_delay_ms: u32,
    pub hide_delay_ms: u32,
}

impl Default for EdgeConfig {
    /// The stock configuration: 1 px threshold, 100 ms show delay,
    /// 300 ms hide delay.
    fn default() -> (c: Self)
        ensures
            c == (EdgeConfig { threshold_px: 1, show_delay_ms: 100, hide_delay_ms: 300 }),
    {
        EdgeConfig { threshold_px: 1, show_delay_ms: 100, hide_delay_ms: 300 }
    }
}

impl EdgeConfig {
    /// Build a configuration from stored settings values; each missing
    /// value falls back to its default.
    pub fn from_values(
        threshold: Option<u32>,
        show_delay: Option<u32>,
        hide_delay: Option<u32>,
    ) -> (c: EdgeConfig)
        ensures
            threshold matches Some(v) ==> c.threshold_px == v as i32,
            threshold is None ==> c.threshold_px == 1,
            show_delay matches Some(v) ==> c.show_delay_ms == v,
            show_delay is None ==> c.show_delay_ms == 100,
            hide_delay matches Some(v) ==> c.hide_delay_ms == v,
            hide_delay is None ==> c.hide_delay_ms == 300,
    {
        let defaults = EdgeConfig::default();
        EdgeConfig {
            threshold_px: match threshold {
                Some(v) => #[verifier::truncate] (v as i32),
                None => defaults.threshold_px,
            },
            show_delay_ms: match show_delay {
                Some(v) => v,
                None => defaults.show_delay_ms,
            },
            hide_delay_ms: match hide_delay {
                Some(v) => v,
                None => defaults.hide_delay_ms,
            },
        }
    }

    /// The settings values to store: threshold, show delay, hide delay.
    pub fn to_values(&self) -> (r: (u32, u32, u32))
        ensures
            r.0 == self.threshold_px as u32,
            r.1 == self.show_delay_ms,
            r.2 == self.hide_delay_ms,
    {
        (#[verifier::truncate] (self.threshold_px as u32), self.show_delay_ms, self.hide_delay_ms)
    }
}

/// The state machine's mode. `since` is the millisecond timestamp at which
/// the pending debounce timer started.
#[derive(Debug, Clone, Copy, PartialEq, Eq, Structural)]
pub enum EdgeState {
    Idle,
    PendingShow { since: u64 },
    Active,
    PendingHide { since: u64 },
}

impl Default for EdgeState {
    /// The machine starts out idle.
    fn default() -> (s: Self)
        ensures
            s is Idle,
    {
        EdgeState::Idle
    }
}

/// What the caller must do after a transition.
#[derive(Debug, Clone, Copy, PartialEq, Eq, Structural)]
pub enum EdgeAction {
    NoAction,
    Show,
    Hide,
}

/// Cursor is within `threshold` (inclusive) of the work-area boundary that
/// matches the direction. The right and bottom boundaries are exclusive
/// coordinates, so the last pixel inside lies at `right - 1` / `bottom - 1`.
pub open spec fn at_edge(cursor: Point, wa: Rect, direction: Direction, threshold: int) -> bool {
    match direction {
        Direction::Left => cursor.x <= wa.left + threshold,
        Direction::Right => cursor.x >= wa.right - threshold - 1,
        Direction::Top => cursor.y <= wa.top + threshold,
        Direction::Bottom => cursor.y >= wa.bottom - threshold - 1,
    }
}

/// Whether the cursor counts as "at the edge" for this direction.
pub fn detect_edge(cursor: Point, work_area: &Rect, direction: Direction, threshold: i32) -> (r:
    bool)
    ensures
        r == at_edge(cursor, *work_area, direction, threshold as int),
{
    match direction {
        Direction::Left => cursor.x as i64 <= work_area.left as i64 + threshold as i64,
        Direction::Right => cursor.x as i64 >= work_area.right as i64 - threshold as i64 - 1,
        Direction::Top => cursor.y as i64 <= work_area.top as i64 + threshold as i64,
        Direction::Bottom => cursor.y as i64 >= work_area.bottom as i64 - threshold as i64 - 1,
    }
}

/// Cursor lies inside the window rectangle; left and top edges inclusive,
/// right and bottom exclusive.
pub open spec fn in_window(cursor: Point, b: WindowBounds) -> bool {
    &&& cursor.x >= b.x
    &&& cursor.x < b.x + b.width
    &&& cursor.y >= b.y
    &&& cursor.y < b.y + b.height
}

/// Whether the cursor is inside the window bounds.
pub fn cursor_in_window(cursor: Point, bounds: &WindowBounds) -> (r: bool)
    ensures
        r == in_window(cursor, *bounds),
{
    cursor.x >= bounds.x && (cursor.x as i64) < bounds.x as i64 + bounds.width as i64
        && cursor.y >= bounds.y && (cursor.y as i64) < bounds.y as i64 + bounds.height as i64
}

/// Milliseconds since a debounce timer started; a timestamp from the
/// future counts as no time elapsed.
pub open spec fn elapsed_ms(since: u64, now: u64) -> int {
    if now >= since {
        now - since
    } else {
        0
    }
}

/// Cursor is inside the window, when bounds are known at all.
pub open spec fn opt_in_window(cursor: Point, bounds: Option<WindowBounds>) -> bool {
    bounds matches Some(b) && in_window(cursor, b)
}

/// One tick of the state machine: next state and emitted action.
///
/// Idle arms a show timer when the hidden window's edge is touched;
/// PendingShow fires Show once the cursor has stayed at the edge for the
/// show delay, or disarms when it leaves; Active arms a hide timer when
/// the cursor has left both the visible window and the edge; PendingHide
/// fires Hide after the hide delay, or disarms when the cursor returns.
pub open spec fn step_spec(
    state: EdgeState,
    config: EdgeConfig,
    direction: Direction,
    visible: bool,
    cursor: Point,
    wa: Rect,
    bounds: Option<WindowBounds>,
    now_ms: u64,
) -> (EdgeState, EdgeAction) {
    let at = at_edge(cursor, wa, direction, config.threshold_px as int);
    let inside = opt_in_window(cursor, bounds);
    match state {
        EdgeState::Idle => {
            if !visible && at {
                (EdgeState::PendingShow { since: now_ms }, EdgeAction::NoAction)
            } else {
                (EdgeState::Idle, EdgeAction::NoAction)
            }
        },
        EdgeState::PendingShow { since } => {
            if !at {
                (EdgeState::Idle, EdgeAction::NoAction)
            } else if elapsed_ms(since, now_ms) >= config.show_delay_ms {
                (EdgeState::Active, EdgeAction::Show)
            } else {
                (state, EdgeAction::NoAction)
            }
        },
        EdgeState::Active => {
            if visible && !inside && !at {
                (EdgeState::PendingHide { since: now_ms }, EdgeAction::NoAction)
            } else {
                (EdgeState::Active, EdgeAction::NoAction)
            }
        },
        EdgeState::PendingHide { since } => {
            if inside || at {
                (EdgeState::Active, EdgeAction::NoAction)
            } else if elapsed_ms(since, now_ms) >= config.hide_delay_ms {
                (EdgeState::Idle, EdgeAction::Hide)
            } else {
                (state, EdgeAction::NoAction)
            }
        },
    }
}

/// The bounds the spec-level step sees, with the reference peeled off.
pub open spec fn spec_bounds(bounds: Option<&WindowBounds>) -> Option<WindowBounds> {
    match bounds {
        Some(b) => Some(*b),
        None => None,
    }
}

/// Advance the state machine by one tick, taken at `now_ms`, and report
/// the action the caller must perform. Pure aside from the state cell:
/// the exact transition table is `step_spec`.
pub fn check_and_transition(
    state: &mut EdgeState,
    config: &EdgeConfig,
    direction: Direction,
    visible: bool,
    cursor: Point,
    work_area: &Rect,
    bounds: Option<&WindowBounds>,
    now_ms: u64,
) -> (action: EdgeAction)
    ensures
        (*final(state), action) == step_spec(
            *old(state),
            *config,
            direction,
            visible,
            cursor,
            *work_area,
            spec_bounds(bounds),
            now_ms,
        ),
{
    let at = detect_edge(cursor, work_area, direction, config.threshold_px);
    let inside = match bounds {
        Some(b) => cursor_in_window(cursor, b),
        None => false,
    };
    match *state {
        EdgeState::Idle => {
            if !visible && at {
                *state = EdgeState::PendingShow { since: now_ms };
            }
            EdgeAction::NoAction
        },
        EdgeState::PendingShow { since } => {
            if !at {
                *state = EdgeState::Idle;
                EdgeAction::NoAction
            } else if elapsed(since, now_ms) >= config.show_delay_ms as u64 {
                *state = EdgeState::Active;
                EdgeAction::Show
            } else {
                EdgeAction::NoAction
            }
        },
        EdgeState::Active => {
            if visible && !inside && !at {
                *state = EdgeState::PendingHide { since: now_ms };
            }
            EdgeAction::NoAction
        },
        EdgeState::PendingHide { since } => {
            if inside || at {
                *state = EdgeState::Active;
                EdgeAction::NoAction
            } else if elapsed(since, now_ms) >= config.hide_delay_ms as u64 {
                *state = EdgeState::Idle;
                EdgeAction::Hide
            } else {
                EdgeAction::NoAction
            }
        },
    }
}

/// Milliseconds since the timer started, clamped at zero.
fn elapsed(since: u64, now: u64) -> (r: u64)
    ensures
        r == elapsed_ms(since, now),
{
    if now >= since {
        now - since
    } else {
        0
    }
}

/// Force the machine back to Idle: the out-of-band reset for manual
/// toggles, focus loss, an invalid window or the feature being disabled.
/// From any state this yields Idle and emits no action.
pub fn reset_state(state: &mut EdgeState)
    ensures
        *final(state) is Idle,
{
    *state = EdgeState::Idle;
}

/// The session's on/off switch for the edge trigger. The caller persists
/// it to settings storage; this is the authoritative in-session value.
#[derive(Debug, Clone, Copy, PartialEq, Eq, Structural)]
pub struct EdgeSettings {
    pub enabled: bool,
}

impl EdgeSettings {
    pub fn new(enabled: bool) -> (s: EdgeSettings)
        ensures
            s.enabled == enabled,
    {
        EdgeSettings { enabled }
    }

    /// Whether the edge trigger is on.
    pub fn is_enabled(&self) -> (r: bool)
        ensures
            r == self.enabled,
    {
        self.enabled
    }

    /// Switch the edge trigger on or off.
    pub fn set_enabled(&mut self, enabled: bool)
        ensures
            final(self).enabled == enabled,
    {
        self.enabled = enabled;
    }

    /// Flip the switch; the new state is returned.
    pub fn toggle(&mut self) -> (r: bool)
        ensures
            final(self).enabled == !old(self).enabled,
            r == final(self).enabled,
    {
        self.enabled = !self.enabled;
        self.enabled
    }
}

/// One polling tick as the event loop performs it: derive the direction
/// from the stored bounds (Left when none are stored), advance the state
/// machine, and pass a decision on only when there is one.
pub fn check_edge_trigger(
    state: &mut EdgeState,
    config: &EdgeConfig,
    visible: bool,
    cursor: Point,
    work_area: &Rect,
    bounds: Option<&WindowBounds>,
    now_ms: u64,
) -> (action: Option<EdgeAction>)
    ensures
        ({
            let direction = match spec_bounds(bounds) {
                Some(b) => calc_direction_spec(b, *work_area),
                None => Direction::Left,
            };
            let (s2, a) = step_spec(
                *old(state),
                *config,
                direction,
                visible,
                cursor,
                *work_area,
                spec_bounds(bounds),
                now_ms,
            );
            &&& *final(state) == s2
            &&& action == (if a is NoAction {
                None::<EdgeAction>
            } else {
                Some(a)
            })
        }),
{
    let direction = match bounds {
        Some(b) => calc_direction(b, work_area),
        None => Direction::Left,
    };
    let action = check_and_transition(
        state,
        config,
        direction,
        visible,
        cursor,
        work_area,
        bounds,
        now_ms,
    );
    match action {
        EdgeAction::NoAction => None,
        _ => Some(action),
    }
}

/// Whether an emitted decision must start a slide right now: Show only
/// matters while the window is hidden, Hide only while it is visible.
pub fn action_requires_toggle(action: EdgeAction, visible: bool) -> (r: bool)
    ensures
        r == (action is Show && !visible || action is Hide && visible),
{
    match action {
        EdgeAction::Show => !visible,
        EdgeAction::Hide => visible,
        EdgeAction::NoAction => false,
    }
}

} // verus!

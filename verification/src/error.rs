//! Typed outcomes for the operations around the core: window lookup,
//! animation setup and focus tracking.

use vstd::prelude::*;

verus! {

/// A window lookup that found nothing matching the pattern.
#[derive(Debug, Clone)]
pub enum WindowError {
    NotFound { pattern: String },
}

impl WindowError {
    /// The pattern that matched no window.
    pub open spec fn pattern_view(self) -> Seq<char> {
        match self {
            WindowError::NotFound { pattern } => pattern@,
        }
    }

    /// Human-readable description of the error.
    pub fn message(&self) -> (r: String)
        ensures
            r@ == "FindWindow(\""@ + self.pattern_view() + "\") → ∅"@,
    {
        match self {
            WindowError::NotFound { pattern } => {
                let mut out = String::from_str("FindWindow(\"");
                out.append(pattern.as_str());
                out.append("\") → ∅");
                out
            },
        }
    }
}

/// A slide that had to be abandoned before any window mutation: either no
/// monitor information was available, or the window's live geometry could
/// not be read.
#[derive(Debug, Clone, Copy, PartialEq, Eq, Structural)]
pub enum AnimationError {
    MonitorInfo,
    WindowGeometry,
}

impl AnimationError {
    /// Human-readable description of the error.
    pub fn message(&self) -> (r: String)
        ensures
            *self is MonitorInfo ==> r@ == "GetMonitorInfo failed"@,
            *self is WindowGeometry ==> r@ == "GetWindowRect failed"@,
    {
        match self {
            AnimationError::MonitorInfo => String::from_str("GetMonitorInfo failed"),
            AnimationError::WindowGeometry => String::from_str("GetWindowRect failed"),
        }
    }
}

/// Failure to install or remove the focus-change hook.
#[derive(Debug, Clone, Copy, PartialEq, Eq, Structural)]
pub enum FocusError {
    HookInstall,
    HookUninstall,
}

impl FocusError {
    /// Human-readable description of the error.
    pub fn message(&self) -> (r: String)
        ensures
            *self is HookInstall ==> r@ == "SetWinEventHook → invalid handle"@,
            *self is HookUninstall ==> r@ == "UnhookWinEvent failed"@,
    {
        match self {
            FocusError::HookInstall => String::from_str("SetWinEventHook → invalid handle"),
            FocusError::HookUninstall => String::from_str("UnhookWinEvent failed"),
        }
    }
}

} // verus!

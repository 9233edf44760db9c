//! Auto-launch switch: the session-side state of the "start with the
//! desktop session" toggle. The caller mirrors the value into persistent
//! storage; this is the authoritative in-session value.

use vstd::prelude::*;

verus! {

/// Failure to persist the auto-launch entry; the caller performs the
/// storage access and hands its failure text over, or could not learn the
/// executable's own path.
#[derive(Debug, Clone)]
pub enum AutoLaunchError {
    Registry { message: String },
    ExePath,
}

impl AutoLaunchError {
    /// The wrapped storage failure text, empty for `ExePath`.
    pub open spec fn registry_message(self) -> Seq<char> {
        match self {
            AutoLaunchError::Registry { message } => message@,
            AutoLaunchError::ExePath => Seq::<char>::empty(),
        }
    }

    /// Human-readable description of the error.
    pub fn message(&self) -> (r: String)
        ensures
            self matches AutoLaunchError::Registry { .. } ==> r@ == "Registry access failed: "@
                + self.registry_message(),
            *self is ExePath ==> r@ == "Executable path not found"@,
    {
        match self {
            AutoLaunchError::Registry { message } => {
                let mut out = String::from_str("Registry access failed: ");
                out.append(message.as_str());
                out
            },
            AutoLaunchError::ExePath => String::from_str("Executable path not found"),
        }
    }
}

/// The auto-launch switch as the session holds it.
#[derive(Debug, Clone, Copy, PartialEq, Eq, Structural)]
pub struct AutoLaunch {
    pub enabled: bool,
}

impl AutoLaunch {
    pub fn new(enabled: bool) -> (s: AutoLaunch)
        ensures
            s.enabled == enabled,
    {
        AutoLaunch { enabled }
    }

    /// Whether auto-launch is on.
    pub fn is_enabled(&self) -> (r: bool)
        ensures
            r == self.enabled,
    {
        self.enabled
    }

    /// Switch auto-launch on.
    pub fn enable(&mut self)
        ensures
            final(self).enabled,
    {
        self.enabled = true;
    }

    /// Switch auto-launch off.
    pub fn disable(&mut self)
        ensures
            !final(self).enabled,
    {
        self.enabled = false;
    }

    /// Flip the switch; the new state is returned.
    pub fn toggle(&mut self) -> (r: bool)
        ensures
            final(self).enabled == !old(self).enabled,
            r == final(self).enabled,
    {
        if self.is_enabled() {
            self.disable();
            false
        } else {
            self.enable();
            true
        }
    }
}

} // verus!

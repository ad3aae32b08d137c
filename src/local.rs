//! Hooks that patch a target in the current address space.
use vstd::prelude::*;

pub mod swap;
pub mod trampoline;

verus! {

/// Where a hook stands in its lifecycle.
#[derive(Debug, Clone, Copy, PartialEq, Eq, Structural)]
pub enum HookState {
    /// Not attached to any target; the hook refers to its detour.
    Uninstalled,
    /// The target's entry holds the jump to the detour.
    Installed,
    /// Attached, but the target's entry holds its original bytes again.
    Bypassed,
}

/// The state that `toggle` leads to.
pub open spec fn flipped(s: HookState) -> HookState {
    match s {
        HookState::Installed => HookState::Bypassed,
        HookState::Bypassed => HookState::Installed,
        HookState::Uninstalled => HookState::Uninstalled,
    }
}

} // verus!

//! The pure lock-or-ignore decision policy.

use vstd::prelude::*;

verus! {

/// What the agent does with one decoded power event.
#[derive(Clone, Copy, Debug, PartialEq, Eq, Structural)]
pub enum Action {
    /// Lock the interactive session.
    Lock,
    /// Do nothing: the session is remote, so the event does not signal
    /// physical absence.
    IgnoreRemote,
    /// Do nothing: the reported state is not the triggering one.
    IgnoreState,
}

/// The decision policy: state `0` is the platform's convention for "the
/// monitored condition is now in its triggering state" for both subscribed
/// notification classes, and a remote session is never locked.
pub open spec fn spec_decide(state: u32, is_remote: bool) -> Action {
    if state != 0 {
        Action::IgnoreState
    } else if is_remote {
        Action::IgnoreRemote
    } else {
        Action::Lock
    }
}

/// Maps a decoded power-event state and a fresh session-type query to the
/// action the agent takes.
pub fn decide(state: u32, is_remote: bool) -> (r: Action)
    ensures
        r == spec_decide(state, is_remote),
{
    if state != 0 {
        Action::IgnoreState
    } else if is_remote {
        Action::IgnoreRemote
    } else {
        Action::Lock
    }
}

/// The policy written out case by case: the triggering state locks a local
/// session and only a local session; every nonzero state is ignored whatever
/// the session type.
pub proof fn lemma_decide_policy()
    ensures
        spec_decide(0, false) == Action::Lock,
        spec_decide(0, true) == Action::IgnoreRemote,
        forall|s: u32, rem: bool| s != 0 ==> spec_decide(s, rem) == Action::IgnoreState,
{
}

} // verus!

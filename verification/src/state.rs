//! Lifecycle states of a native element and the results of state changes.

use vstd::prelude::*;

verus! {

/// Lifecycle state of a native element, as reported by the runtime.
#[derive(Clone, Copy, Debug, PartialEq, Eq, Structural)]
pub enum State {
    /// No state is pending; only ever reported as a pending state.
    VoidPending,
    /// The inert state: no resources are held.
    Null,
    /// Resources are allocated but the stream is not rolling.
    Ready,
    /// The stream is prerolled and frozen.
    Paused,
    /// The stream is rolling.
    Playing,
}

/// Result of a requested state change, as reported by the runtime.
#[derive(Clone, Copy, Debug, PartialEq, Eq, Structural)]
pub enum StateChangeReturn {
    /// The change failed.
    Failure,
    /// The change completed.
    Success,
    /// The change continues asynchronously in the runtime.
    Async,
    /// The change succeeded but no data can be produced before playing.
    NoPreroll,
}

/// Whether a state-change result counts as accepted: anything but a failure,
/// including a change that is still in progress or one that cannot preroll.
pub fn state_change_succeeded(ret: StateChangeReturn) -> (r: bool)
    ensures
        r == (ret !is Failure),
{
    match ret {
        StateChangeReturn::Failure => false,
        StateChangeReturn::Success => true,
        StateChangeReturn::Async => true,
        StateChangeReturn::NoPreroll => true,
    }
}

/// Whether a state report `(current, pending, ret)` shows the element settled
/// in `want`: the current state matches and the change fully completed.  A
/// change that is merely accepted, still in progress, or unable to preroll
/// does not count as settled.  The pending state never affects the answer.
pub fn settled_in_state(current: State, pending: State, ret: StateChangeReturn, want: State) -> (r: bool)
    ensures
        r == (current == want && ret is Success),
{
    current == want && matches!(ret, StateChangeReturn::Success)
}

} // verus!

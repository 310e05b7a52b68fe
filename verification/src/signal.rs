//! Who answers an interrupt: the shim, until it has started its child.

use vstd::prelude::*;

verus! {

/// The exit status of a process that an interrupt has ended.
pub const INTERRUPTED_EXIT_CODE: i32 = 130;

/// Whether the child process has been started, or is about to be.
#[derive(Clone, Copy, Debug, PartialEq, Eq, Structural)]
pub struct SignalState {
    pub shim_has_control: bool,
}

impl SignalState {
    /// The state at the start of the process: no child yet.
    pub fn new() -> (r: Self)
        ensures
            !r.shim_has_control,
    {
        SignalState { shim_has_control: false }
    }

    /// What an interrupt does: it ends the process with the status 130
    /// unless a child has been started, which then answers it itself.
    pub fn on_interrupt(&self) -> (r: Option<i32>)
        ensures
            r == if self.shim_has_control {
                None::<i32>
            } else {
                Some(INTERRUPTED_EXIT_CODE)
            },
    {
        if self.shim_has_control {
            None
        } else {
            Some(INTERRUPTED_EXIT_CODE)
        }
    }
}

/// From now on the child answers interrupts. Called right before the child
/// is started.
pub fn pass_control_to_shim(state: &mut SignalState)
    ensures
        final(state).shim_has_control,
{
    state.shim_has_control = true;
}

} // verus!

use vstd::prelude::*;

use crate::event::{KeyEvent, ModifierState};

verus! {

/// One call on the downstream receiver. Its outcome is never reported back into the chain:
/// a failed delivery is the receiver side's to log.
#[derive(Clone, Copy, Debug, PartialEq, Eq, Structural)]
pub enum ReceiverCall {
    SendKeyEvent(KeyEvent),
    ModifierStateChanged { pressed: i32, locked: i32 },
}

/// The narrow capability that lets a stage report modifier state, and nothing else.
#[derive(Clone, Copy, Debug)]
pub struct ModifierStateListener {}

impl ModifierStateListener {
    pub fn new() -> (r: ModifierStateListener) {
        ModifierStateListener {  }
    }

    /// The receiver call that reports the pressed and locked modifiers, their bits
    /// passed on verbatim.
    pub fn modifier_state_changed(
        &self,
        modifier_state: ModifierState,
        locked_modifier_state: ModifierState,
    ) -> (r: ReceiverCall)
        ensures
            r == (ReceiverCall::ModifierStateChanged {
                pressed: modifier_state.bits as i32,
                locked: locked_modifier_state.bits as i32,
            }),
    {
        ReceiverCall::ModifierStateChanged {
            pressed: modifier_state.bits() as i32,
            locked: locked_modifier_state.bits() as i32,
        }
    }
}

/// The terminal stage: every key event goes to the receiver unchanged.
pub fn base_notify_key(event: &KeyEvent) -> (r: ReceiverCall)
    ensures
        r == ReceiverCall::SendKeyEvent(*event),
{
    ReceiverCall::SendKeyEvent(*event)
}

} // verus!

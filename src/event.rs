use vstd::prelude::*;

verus! {

/// Action carried by a key event.
#[derive(Clone, Copy, Debug, PartialEq, Eq, Structural)]
pub enum KeyEventAction {
    Down,
    Up,
    Multiple,
}

/// A hardware key event, as delivered by the platform and as handed on to the receiver.
#[derive(Clone, Copy, Debug, PartialEq, Eq, Structural)]
pub struct KeyEvent {
    pub id: i32,
    pub device_id: i32,
    pub down_time: i64,
    pub read_time: i64,
    pub event_time: i64,
    pub source: i32,
    pub display_id: i32,
    pub policy_flags: i32,
    pub action: KeyEventAction,
    pub flags: i32,
    pub key_code: i32,
    pub scan_code: i32,
    pub meta_state: i32,
}

/// What the filter chain learns of one input device.
#[derive(Clone, Copy, Debug, PartialEq, Eq, Structural)]
pub struct DeviceInfo {
    pub device_id: i32,
    pub external: bool,
}

/// A set of modifier keys (shift, ctrl, alt, caps lock, ...), one bit per key.
#[derive(Clone, Copy, Debug, PartialEq, Eq, Structural)]
pub struct ModifierState {
    pub bits: u32,
}

impl ModifierState {
    /// The empty set: no modifier pressed or locked.
    pub fn none() -> (r: ModifierState)
        ensures
            r.bits == 0,
    {
        ModifierState { bits: 0 }
    }

    pub fn from_bits(bits: u32) -> (r: ModifierState)
        ensures
            r.bits == bits,
    {
        ModifierState { bits }
    }

    pub fn bits(&self) -> (r: u32)
        ensures
            r == self.bits,
    {
        self.bits
    }
}

} // verus!

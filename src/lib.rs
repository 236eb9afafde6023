//! The decision core of an input-event filter chain for accessibility features (sticky,
//! slow and bounce keys): which stages a configuration installs and in what order, where
//! each key event and device-list change goes, what a configuration change destroys and
//! builds, and the wake, sleep and timer bookkeeping of the timer thread the stages share.

use vstd::prelude::*;

pub mod config;
pub mod event;
pub mod input_filter;
pub mod receiver;
pub mod timer;
pub mod timer_queue;

verus! {

} // verus!

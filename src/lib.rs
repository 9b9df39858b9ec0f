//! Safe handles to memory-mapped peripheral registers, a GPIO output pin built on
//! them, and a busy-wait delay.
use vstd::prelude::*;

pub mod delay;
pub mod gpio;
pub mod register;

verus! {

/// Board bring-up hook, called once before any peripheral handle is issued.
/// Nothing needs preparing for the handles of this library.
pub fn init() {
}

} // verus!

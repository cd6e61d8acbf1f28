//! Control-plane core of a driver for Intel I210/I211 Gigabit Ethernet
//! controllers: the register map, a register window per device, the bring-up
//! sequence (reset, station address, descriptor rings, interrupts), the link
//! monitor, and a table of device handles.

use vstd::prelude::*;

pub mod registers;
pub mod window;
pub mod driver;
pub mod handles;

verus! {

} // verus!

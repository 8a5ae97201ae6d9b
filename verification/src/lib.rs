//! Verified core of an nRF52840 SoftDevice (S340: BLE and ANT+) support
//! library.
//!
//! The SoftDevice is driven through supervisor calls. This crate holds what
//! decides those calls and interprets their results: the requests as plain
//! values (`ant::AntRequest`, `softdevice::SdRequest`), the multi-step
//! procedures as state machines (`ant::AntChannelSetup`,
//! `softdevice::SoftdeviceSetup`, `boot_helpers::Uarte0Teardown`), the
//! register writes of the boot helpers, the fault record and its flash
//! programming, and the routing of BLE events. The code running on the chip
//! makes the calls and register accesses that these ask for.
use vstd::prelude::*;

pub mod ant;
pub mod ble;
pub mod boot_helpers;
pub mod error;
pub mod fault;
pub mod once;
pub mod softdevice;

pub use error::RawError;
pub use softdevice::{Config, Softdevice};

verus! {

} // verus!

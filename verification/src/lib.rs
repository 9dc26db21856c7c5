//! Host-side logic of an nRF7002 Wi-Fi driver.
//!
//! The crate performs no I/O. It encodes and parses the firmware messages,
//! lays out packet memory, plans bus transfers and runs the driver state
//! machines; the embedding program carries out the transfers and feeds the
//! results back.

pub mod abi;
pub mod bridge;
pub mod bus;
pub mod codec;
pub mod control;
pub mod data;
pub mod device;
pub mod driver;
pub mod embassy;
pub mod firmware;
pub mod lane;
pub mod memory;
pub mod production;
pub mod protocol;
pub mod runtime;
pub mod secure;
pub mod station;
pub mod system;

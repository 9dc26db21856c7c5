//! Fixed values and records of the Zephyr capability interface.

use vstd::prelude::*;

verus! {

/// Interface version expected from the Zephyr foundation.
pub const ABI_VERSION: u32 = 0x0002_0000;

/// Bytes in an Ethernet address.
pub const MAC_LEN: usize = 6;

/// Size in bytes of the interface record on the C side.
pub const INTERFACE_WIRE_LEN: u32 = 24;

pub const ROLE_STA: u8 = 0;

pub const ROLE_AP: u8 = 1;

pub const STATUS_DOWN: u32 = 0;

pub const STATUS_READY: u32 = 1;

pub const STATUS_CONNECTING: u32 = 2;

pub const STATUS_CONNECTED: u32 = 3;

pub const STATUS_DISCONNECTED: u32 = 4;

pub const STATUS_FAULTED: u32 = 5;

pub const EVENT_NONE: u32 = 0;

pub const EVENT_CONNECTED: u32 = 1;

pub const EVENT_ROAMED: u32 = 2;

pub const EVENT_DISCONNECTED: u32 = 3;

pub const EVENT_ADDRESS_CHANGED: u32 = 4;

pub const EVENT_EAPOL: u32 = 5;

pub const SECURITY_OPEN: u8 = 0;

pub const SECURITY_WPA2_PSK: u8 = 1;

pub const SECURITY_WPA2_PSK_SHA256: u8 = 2;

pub const SECURITY_WPA3_SAE: u8 = 3;

pub const SECURITY_WPA3_SAE_H2E: u8 = 4;

pub const SECURITY_WPA3_SAE_AUTO: u8 = 5;

pub const SECURITY_WPA_PSK: u8 = 6;

pub const SECURITY_WPA_AUTO_PERSONAL: u8 = 7;

pub const MFP_DISABLE: u8 = 0;

pub const MFP_OPTIONAL: u8 = 1;

pub const MFP_REQUIRED: u8 = 2;

pub const BAND_2_4_GHZ: u8 = 0;

pub const BAND_5_GHZ: u8 = 1;

pub const BAND_ANY: u8 = 255;

pub const CHANNEL_ANY: u8 = 255;

pub const BANDWIDTH_20_MHZ: u8 = 1;

pub const BANDWIDTH_40_MHZ: u8 = 2;

pub const BANDWIDTH_80_MHZ: u8 = 3;

pub const BANDWIDTH_AUTO: u8 = 255;

pub const RESULT_OK: i32 = 0;

pub const RESULT_EINVAL: i32 = -22;

pub const RESULT_ENOMEM: i32 = -12;

pub const RESULT_EBUSY: i32 = -16;

pub const RESULT_EIO: i32 = -5;

pub const RESULT_ENOTSUP: i32 = -95;

pub const RESULT_ETIMEDOUT: i32 = -110;

pub const RESULT_ENOTCONN: i32 = -107;

pub const RESULT_EAGAIN: i32 = -11;

pub const RESULT_EMSGSIZE: i32 = -90;

pub const RESULT_EBADF: i32 = -9;

pub const RESULT_EPROTO: i32 = -71;

pub const RESULT_ESTATE: i32 = -2000;

pub const RESULT_ENODEV: i32 = -19;

pub const RESULT_ENETDOWN: i32 = -100;

pub const RESULT_EPERM: i32 = -1;

/// Interface metadata as the foundation reports it.
#[derive(Clone, Copy)]
pub struct InterfaceWire {
    pub abi_version: u32,
    pub struct_size: u32,
    pub mac: [u8; 6],
    pub mtu: u16,
    pub reserved: u16,
    pub status: u32,
}

/// Poll outcome as the foundation reports it.
#[derive(Clone, Copy)]
pub struct PollWire {
    pub event: u32,
    pub status: u32,
}

} // verus!

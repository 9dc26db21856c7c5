//! Bounded access to the Zephyr Wi-Fi/L2 foundation.
//!
//! [`Adapter`] decides what may cross the boundary: it validates what the
//! foundation reports, the connection requests and every Ethernet frame in
//! either direction. The foundation itself is reached through [`Backend`].

use vstd::prelude::*;

use crate::abi;
use crate::abi::{InterfaceWire, PollWire, ABI_VERSION};
use crate::codec;

verus! {

/// Maximum SSID length accepted by the bridge.
pub const MAX_SSID_LEN: usize = 32;

/// Maximum WPA2/WPA3 passphrase length accepted by the bridge.
pub const MAX_PASSPHRASE_LEN: usize = 63;

/// Ethernet header length in bytes.
pub const ETHERNET_HEADER_LEN: usize = 14;

/// Maximum complete Ethernet frame accepted by the adapter.
pub const MAX_FRAME_LEN: usize = 1600;

/// Smallest supported Ethernet MTU.
pub const MIN_MTU: u16 = 576;

/// Largest supported MTU; it leaves room for an Ethernet header in
/// [`MAX_FRAME_LEN`].
pub const MAX_MTU: u16 = 1586;

/// EAPOL EtherType, owned by Zephyr and its supplicant.
pub const EAPOL_ETHERTYPE: u16 = 0x888e;

/// VLAN tags that are looked through before a frame is classified.
pub const MAX_VLAN_TAGS: usize = 8;

/// Errors exposed by the adapter.
#[derive(Clone, Copy, Debug, PartialEq, Eq, Structural)]
pub enum Error {
    /// The foundation reports a different ABI version or structure layout.
    AbiMismatch,
    /// An operation was given an invalid argument.
    InvalidArgument,
    /// A station/interface MAC address is not a usable unicast address.
    InvalidMac,
    /// The configured MTU is outside the bounded adapter range.
    InvalidMtu,
    /// A caller-owned buffer is too small for the requested operation.
    BufferTooSmall,
    /// The received or transmitted data is shorter than an Ethernet header.
    FrameTooShort,
    /// A frame exceeds the configured MTU or adapter limit.
    FrameTooLarge,
    /// A frame contains EAPOL/control traffic owned by Zephyr.
    EapolFrame,
    /// The endpoint has not been opened.
    NotOpen,
    /// The interface or supplicant has not finished becoming ready.
    NotReady,
    /// The endpoint is already open or an operation is in progress.
    Busy,
    /// The controlled port is not authorized/connected for transmission.
    NotConnected,
    /// The operation exceeded its supplied timeout.
    TimedOut,
    /// A nonblocking operation has no data yet.
    WouldBlock,
    /// The foundation does not provide the requested operation.
    Unsupported,
    /// A foundation I/O operation failed.
    Io,
    /// The foundation returned a malformed value or event.
    Protocol,
    /// The foundation entered a terminal fault state.
    Fault,
}

impl Error {
    /// The description that [`Error::description`] returns.
    pub open spec fn text(self) -> Seq<char> {
        match self {
            Error::AbiMismatch => "Zephyr L2 ABI mismatch"@,
            Error::InvalidArgument => "invalid argument"@,
            Error::InvalidMac => "invalid MAC address"@,
            Error::InvalidMtu => "invalid MTU"@,
            Error::BufferTooSmall => "buffer too small"@,
            Error::FrameTooShort => "Ethernet frame is too short"@,
            Error::FrameTooLarge => "Ethernet frame is too large"@,
            Error::EapolFrame => "EAPOL frame belongs to Zephyr"@,
            Error::NotOpen => "Zephyr L2 endpoint is not open"@,
            Error::NotReady => "Zephyr Wi-Fi interface is not ready"@,
            Error::Busy => "Zephyr L2 endpoint is busy"@,
            Error::NotConnected => "Wi-Fi controlled port is not connected"@,
            Error::TimedOut => "operation timed out"@,
            Error::WouldBlock => "operation would block"@,
            Error::Unsupported => "operation is unsupported"@,
            Error::Io => "Zephyr L2 I/O failure"@,
            Error::Protocol => "malformed Zephyr L2 response"@,
            Error::Fault => "Zephyr L2 foundation fault"@,
        }
    }

    /// Returns a stable human-readable description without allocating.
    pub fn description(self) -> (text: &'static str)
        ensures
            text@ == self.text(),
    {
        match self {
            Error::AbiMismatch => "Zephyr L2 ABI mismatch",
            Error::InvalidArgument => "invalid argument",
            Error::InvalidMac => "invalid MAC address",
            Error::InvalidMtu => "invalid MTU",
            Error::BufferTooSmall => "buffer too small",
            Error::FrameTooShort => "Ethernet frame is too short",
            Error::FrameTooLarge => "Ethernet frame is too large",
            Error::EapolFrame => "EAPOL frame belongs to Zephyr",
            Error::NotOpen => "Zephyr L2 endpoint is not open",
            Error::NotReady => "Zephyr Wi-Fi interface is not ready",
            Error::Busy => "Zephyr L2 endpoint is busy",
            Error::NotConnected => "Wi-Fi controlled port is not connected",
            Error::TimedOut => "operation timed out",
            Error::WouldBlock => "operation would block",
            Error::Unsupported => "operation is unsupported",
            Error::Io => "Zephyr L2 I/O failure",
            Error::Protocol => "malformed Zephyr L2 response",
            Error::Fault => "Zephyr L2 foundation fault",
        }
    }
}

/// Whether six octets form a station address: not a group address, not all
/// zeros and not all ones.
pub open spec fn unicast(mac: Seq<u8>) -> bool {
    &&& mac[0] % 2 == 0
    &&& exists|i: int| 0 <= i < mac.len() && mac[i] != 0
    &&& exists|i: int| 0 <= i < mac.len() && mac[i] != 0xff
}

/// Whether some octet of an address is not zero.
pub open spec fn nonzero(mac: Seq<u8>) -> bool {
    exists|i: int| 0 <= i < mac.len() && mac[i] != 0
}

/// A validated station/interface MAC address.
#[derive(Clone, Copy, Debug, PartialEq, Eq, Hash)]
pub struct MacAddress([u8; 6]);

impl MacAddress {
    #[verifier::type_invariant]
    spec fn inv(self) -> bool {
        unicast(self.0@)
    }

    /// The six address octets.
    pub closed spec fn octets(self) -> Seq<u8> {
        self.0@
    }

    /// Validates and constructs a station MAC address.
    ///
    /// Interface addresses must be unicast, non-zero, and different from the
    /// all-ones broadcast address.
    pub fn new(bytes: [u8; 6]) -> (result: Result<Self, Error>)
        ensures
            match result {
                Ok(mac) => unicast(bytes@) && mac.octets() == bytes@,
                Err(error) => !unicast(bytes@) && error == Error::InvalidMac,
            },
    {
        if !is_valid_unicast_mac(&bytes) {
            return Err(Error::InvalidMac);
        }
        Ok(MacAddress(bytes))
    }

    /// Returns the six address octets.
    pub fn as_bytes(&self) -> (bytes: &[u8; 6])
        ensures
            bytes@ == self.octets(),
            unicast(bytes@),
    {
        proof {
            use_type_invariant(self);
        }
        &self.0
    }

    /// Returns whether this is a unicast, non-zero interface address. Every
    /// constructed address is one.
    pub fn is_unicast(self) -> (unicast_address: bool)
        ensures
            unicast_address == unicast(self.octets()),
            unicast_address,
    {
        proof {
            use_type_invariant(&self);
        }
        is_valid_unicast_mac(&self.0)
    }
}

/// A validated Ethernet MTU.
#[derive(Clone, Copy, Debug, PartialEq, Eq, PartialOrd, Ord)]
pub struct Mtu(u16);

impl Mtu {
    #[verifier::type_invariant]
    spec fn inv(self) -> bool {
        MIN_MTU <= self.0 <= MAX_MTU
    }

    /// The MTU in bytes, excluding the Ethernet header.
    pub closed spec fn bytes(self) -> u16 {
        self.0
    }

    /// Validates and constructs an MTU.
    pub fn new(value: u16) -> (result: Result<Self, Error>)
        ensures
            match result {
                Ok(mtu) => MIN_MTU <= value <= MAX_MTU && mtu.bytes() == value,
                Err(error) => !(MIN_MTU <= value <= MAX_MTU) && error == Error::InvalidMtu,
            },
    {
        if value < MIN_MTU || value > MAX_MTU {
            return Err(Error::InvalidMtu);
        }
        Ok(Mtu(value))
    }

    /// Returns the MTU in bytes, excluding the Ethernet header.
    pub fn get(self) -> (value: u16)
        ensures
            value == self.bytes(),
            MIN_MTU <= value <= MAX_MTU,
    {
        proof {
            use_type_invariant(&self);
        }
        self.0
    }

    /// Returns the largest complete frame accepted at this MTU.
    pub fn frame_len(self) -> (len: usize)
        ensures
            len == ETHERNET_HEADER_LEN + self.bytes(),
            len <= MAX_FRAME_LEN,
    {
        proof {
            use_type_invariant(&self);
        }
        ETHERNET_HEADER_LEN + self.0 as usize
    }
}

/// Checks that six octets form a station address.
pub fn is_valid_unicast_mac(mac: &[u8; 6]) -> (valid: bool)
    ensures
        valid == unicast(mac@),
{
    let mut any: bool = false;
    let mut all_ones: bool = true;
    let mut index: usize = 0;
    while index < abi::MAC_LEN
        invariant
            index <= 6,
            any == exists|i: int| 0 <= i < index && mac@[i] != 0,
            all_ones == !exists|i: int| 0 <= i < index && mac@[i] != 0xff,
        decreases 6 - index,
    {
        if mac[index] != 0 {
            any = true;
        }
        if mac[index] != 0xff {
            all_ones = false;
        }
        index = index + 1;
    }
    mac[0] % 2 == 0 && any && !all_ones
}

/// Checks that a destination address has six octets and is not all zeros.
pub fn is_valid_destination_mac(mac: &[u8]) -> (valid: bool)
    ensures
        valid == (mac@.len() == 6 && nonzero(mac@)),
{
    if mac.len() != abi::MAC_LEN {
        return false;
    }
    let mut any: bool = false;
    let mut index: usize = 0;
    while index < mac.len()
        invariant
            index <= mac@.len(),
            any == exists|i: int| 0 <= i < index && mac@[i] != 0,
        decreases mac@.len() - index,
    {
        if mac[index] != 0 {
            any = true;
        }
        index = index + 1;
    }
    any
}

/// EtherTypes that announce one VLAN tag.
pub open spec fn vlan_tag(ether_type: u16) -> bool {
    ether_type == 0x8100 || ether_type == 0x88a8 || ether_type == 0x9100
}

/// Whether the EtherType at `offset`, behind at most `tags` VLAN tags, is
/// EAPOL. A frame that ends inside a tag is not EAPOL.
pub open spec fn eapol_at(frame: Seq<u8>, offset: int, tags: nat) -> bool
    decreases tags,
{
    let ether_type = codec::be16_at(frame, offset);
    if tags > 0 && vlan_tag(ether_type) {
        frame.len() >= offset + 6 && eapol_at(frame, offset + 4, (tags - 1) as nat)
    } else {
        ether_type == EAPOL_ETHERTYPE
    }
}

/// Whether a frame carries EAPOL, directly or inside VLAN tags.
pub open spec fn eapol_frame(frame: Seq<u8>) -> bool {
    frame.len() >= ETHERNET_HEADER_LEN && eapol_at(frame, 12, MAX_VLAN_TAGS as nat)
}

/// Returns whether a frame is EAPOL, including bounded VLAN encapsulations.
///
/// Eight tags cover the supported Ethernet forms while keeping the inspection
/// bounded. A truncated VLAN header is not classified as EAPOL.
pub fn is_eapol(frame: &[u8]) -> (eapol: bool)
    ensures
        eapol == eapol_frame(frame@),
{
    if frame.len() < ETHERNET_HEADER_LEN {
        return false;
    }
    let len: usize = frame.len();
    let mut offset: usize = 12;
    let mut ether_type: u16 = codec::read_be16(frame, offset);
    let mut tags: usize = 0;
    while tags < MAX_VLAN_TAGS && (ether_type == 0x8100 || ether_type == 0x88a8 || ether_type
        == 0x9100)
        invariant
            len == frame@.len(),
            tags <= MAX_VLAN_TAGS,
            offset + 2 <= len,
            ether_type == codec::be16_at(frame@, offset as int),
            eapol_frame(frame@) == eapol_at(frame@, offset as int, (MAX_VLAN_TAGS - tags) as nat),
        decreases MAX_VLAN_TAGS - tags,
    {
        if len - offset < 6 {
            return false;
        }
        offset = offset + 4;
        ether_type = codec::read_be16(frame, offset);
        tags = tags + 1;
    }
    ether_type == EAPOL_ETHERTYPE
}

/// Why a frame is no valid Ethernet frame, if it is none.
pub open spec fn frame_fault(frame: Seq<u8>) -> Option<Error> {
    if frame.len() < ETHERNET_HEADER_LEN {
        Some(Error::FrameTooShort)
    } else if !nonzero(frame.subrange(0, 6)) || !unicast(frame.subrange(6, 12)) {
        Some(Error::InvalidMac)
    } else {
        None
    }
}

/// Copies the six octets at `offset`.
pub fn mac_at(bytes: &[u8], offset: usize) -> (mac: [u8; 6])
    requires
        offset + 6 <= bytes@.len(),
    ensures
        mac@ == bytes@.subrange(offset as int, offset + 6),
{
    assert(offset + 6 <= bytes.len());
    [
        bytes[offset],
        bytes[offset + 1],
        bytes[offset + 2],
        bytes[offset + 3],
        bytes[offset + 4],
        bytes[offset + 5],
    ]
}

/// Checks the length and the addresses of a frame.
///
/// A destination may be unicast, multicast, or broadcast, but never all
/// zeros. A source must be an ordinary station address.
pub fn validate_frame(frame: &[u8]) -> (result: Result<(), Error>)
    ensures
        match result {
            Ok(()) => frame_fault(frame@) is None,
            Err(error) => frame_fault(frame@) == Some(error),
        },
{
    if frame.len() < ETHERNET_HEADER_LEN {
        return Err(Error::FrameTooShort);
    }
    if !is_valid_destination_mac(&frame[0..abi::MAC_LEN]) {
        return Err(Error::InvalidMac);
    }
    let source = mac_at(frame, abi::MAC_LEN);
    if !is_valid_unicast_mac(&source) {
        return Err(Error::InvalidMac);
    }
    Ok(())
}

/// The meaning of a raw result code; `None` stands for success.
pub open spec fn result_error(code: i32) -> Option<Error> {
    if code == abi::RESULT_OK {
        None
    } else if code == abi::RESULT_EINVAL {
        Some(Error::InvalidArgument)
    } else if code == abi::RESULT_ENOMEM || code == abi::RESULT_EIO {
        Some(Error::Io)
    } else if code == abi::RESULT_EMSGSIZE {
        Some(Error::BufferTooSmall)
    } else if code == abi::RESULT_EBUSY {
        Some(Error::Busy)
    } else if code == abi::RESULT_ENOTSUP {
        Some(Error::Unsupported)
    } else if code == abi::RESULT_ETIMEDOUT {
        Some(Error::TimedOut)
    } else if code == abi::RESULT_ENOTCONN || code == abi::RESULT_EPERM {
        Some(Error::NotConnected)
    } else if code == abi::RESULT_EAGAIN {
        Some(Error::WouldBlock)
    } else if code == abi::RESULT_EBADF {
        Some(Error::NotOpen)
    } else if code == abi::RESULT_ENODEV || code == abi::RESULT_ENETDOWN {
        Some(Error::NotReady)
    } else if code == abi::RESULT_EPROTO {
        Some(Error::Protocol)
    } else {
        Some(Error::Fault)
    }
}

/// Translates a raw foundation result into the closed error set.
pub fn map_result(result: i32) -> (mapped: Result<(), Error>)
    ensures
        match mapped {
            Ok(()) => result_error(result) is None,
            Err(error) => result_error(result) == Some(error),
        },
{
    if result == abi::RESULT_OK {
        Ok(())
    } else if result == abi::RESULT_EINVAL {
        Err(Error::InvalidArgument)
    } else if result == abi::RESULT_ENOMEM {
        Err(Error::Io)
    } else if result == abi::RESULT_EMSGSIZE {
        Err(Error::BufferTooSmall)
    } else if result == abi::RESULT_EBUSY {
        Err(Error::Busy)
    } else if result == abi::RESULT_EIO {
        Err(Error::Io)
    } else if result == abi::RESULT_ENOTSUP {
        Err(Error::Unsupported)
    } else if result == abi::RESULT_ETIMEDOUT {
        Err(Error::TimedOut)
    } else if result == abi::RESULT_ENOTCONN || result == abi::RESULT_EPERM {
        Err(Error::NotConnected)
    } else if result == abi::RESULT_EAGAIN {
        Err(Error::WouldBlock)
    } else if result == abi::RESULT_EBADF {
        Err(Error::NotOpen)
    } else if result == abi::RESULT_ENODEV || result == abi::RESULT_ENETDOWN {
        Err(Error::NotReady)
    } else if result == abi::RESULT_EPROTO {
        Err(Error::Protocol)
    } else {
        Err(Error::Fault)
    }
}

/// Wi-Fi security selected for a connect request.
#[derive(Clone, Copy, Debug, PartialEq, Eq, Structural)]
pub enum Security {
    /// No passphrase; the network is open.
    Open,
    /// WPA-Personal compatibility mode.
    WpaPsk,
    /// WPA2-Personal with an 8--63 byte passphrase.
    Wpa2Psk,
    /// WPA2-Personal using the SHA-256 AKM.
    Wpa2PskSha256,
    /// WPA3-SAE with an 8--63 byte passphrase.
    Wpa3Sae,
    /// WPA3-SAE Hash-to-Element only.
    Wpa3SaeH2e,
    /// WPA3-SAE with automatic H2E compatibility.
    Wpa3SaeAutomatic,
    /// WPA/WPA2/WPA3 personal mode.
    WpaAutomaticPersonal,
}

impl Security {
    /// The wire value of a security mode.
    pub open spec fn wire(self) -> u8 {
        match self {
            Security::Open => abi::SECURITY_OPEN,
            Security::WpaPsk => abi::SECURITY_WPA_PSK,
            Security::Wpa2Psk => abi::SECURITY_WPA2_PSK,
            Security::Wpa2PskSha256 => abi::SECURITY_WPA2_PSK_SHA256,
            Security::Wpa3Sae => abi::SECURITY_WPA3_SAE,
            Security::Wpa3SaeH2e => abi::SECURITY_WPA3_SAE_H2E,
            Security::Wpa3SaeAutomatic => abi::SECURITY_WPA3_SAE_AUTO,
            Security::WpaAutomaticPersonal => abi::SECURITY_WPA_AUTO_PERSONAL,
        }
    }

    /// Whether a passphrase of this length fits the mode.
    pub open spec fn accepts_passphrase(self, len: nat) -> bool {
        if self is Open {
            len == 0
        } else {
            8 <= len <= MAX_PASSPHRASE_LEN
        }
    }

    /// Returns the wire value.
    pub fn to_wire(self) -> (value: u8)
        ensures
            value == self.wire(),
    {
        match self {
            Security::Open => abi::SECURITY_OPEN,
            Security::WpaPsk => abi::SECURITY_WPA_PSK,
            Security::Wpa2Psk => abi::SECURITY_WPA2_PSK,
            Security::Wpa2PskSha256 => abi::SECURITY_WPA2_PSK_SHA256,
            Security::Wpa3Sae => abi::SECURITY_WPA3_SAE,
            Security::Wpa3SaeH2e => abi::SECURITY_WPA3_SAE_H2E,
            Security::Wpa3SaeAutomatic => abi::SECURITY_WPA3_SAE_AUTO,
            Security::WpaAutomaticPersonal => abi::SECURITY_WPA_AUTO_PERSONAL,
        }
    }

    /// Checks the passphrase length: none for an open network, otherwise 8 to
    /// 63 bytes.
    pub fn validate_passphrase(self, passphrase: &[u8]) -> (result: Result<(), Error>)
        ensures
            match result {
                Ok(()) => self.accepts_passphrase(passphrase@.len()),
                Err(error) => !self.accepts_passphrase(passphrase@.len()) && error
                    == Error::InvalidArgument,
            },
    {
        if self == Security::Open {
            if passphrase.len() == 0 {
                Ok(())
            } else {
                Err(Error::InvalidArgument)
            }
        } else if passphrase.len() >= 8 && passphrase.len() <= MAX_PASSPHRASE_LEN {
            Ok(())
        } else {
            Err(Error::InvalidArgument)
        }
    }
}

/// Management-frame protection policy.
#[derive(Clone, Copy, Debug, PartialEq, Eq, Structural)]
pub enum ManagementFrameProtection {
    Disabled,
    Optional,
    Required,
}

impl ManagementFrameProtection {
    /// The wire value of a policy.
    pub open spec fn wire(self) -> u8 {
        match self {
            ManagementFrameProtection::Disabled => abi::MFP_DISABLE,
            ManagementFrameProtection::Optional => abi::MFP_OPTIONAL,
            ManagementFrameProtection::Required => abi::MFP_REQUIRED,
        }
    }

    /// Returns the wire value.
    pub fn to_wire(self) -> (value: u8)
        ensures
            value == self.wire(),
    {
        match self {
            ManagementFrameProtection::Disabled => abi::MFP_DISABLE,
            ManagementFrameProtection::Optional => abi::MFP_OPTIONAL,
            ManagementFrameProtection::Required => abi::MFP_REQUIRED,
        }
    }
}

/// Radio band.
#[derive(Clone, Copy, Debug, PartialEq, Eq, Structural)]
pub enum Band {
    Ghz2_4,
    Ghz5,
}

impl Band {
    /// The wire value of a band.
    pub open spec fn wire(self) -> u8 {
        match self {
            Band::Ghz2_4 => abi::BAND_2_4_GHZ,
            Band::Ghz5 => abi::BAND_5_GHZ,
        }
    }

    /// Returns the wire value.
    pub fn to_wire(self) -> (value: u8)
        ensures
            value == self.wire(),
    {
        match self {
            Band::Ghz2_4 => abi::BAND_2_4_GHZ,
            Band::Ghz5 => abi::BAND_5_GHZ,
        }
    }
}

/// Requested channel width.
#[derive(Clone, Copy, Debug, PartialEq, Eq, Structural)]
pub enum ChannelWidth {
    Automatic,
    Mhz20,
    Mhz40,
    Mhz80,
}

impl ChannelWidth {
    /// The wire value of a width.
    pub open spec fn wire(self) -> u8 {
        match self {
            ChannelWidth::Automatic => abi::BANDWIDTH_AUTO,
            ChannelWidth::Mhz20 => abi::BANDWIDTH_20_MHZ,
            ChannelWidth::Mhz40 => abi::BANDWIDTH_40_MHZ,
            ChannelWidth::Mhz80 => abi::BANDWIDTH_80_MHZ,
        }
    }

    /// Returns the wire value.
    pub fn to_wire(self) -> (value: u8)
        ensures
            value == self.wire(),
    {
        match self {
            ChannelWidth::Automatic => abi::BANDWIDTH_AUTO,
            ChannelWidth::Mhz20 => abi::BANDWIDTH_20_MHZ,
            ChannelWidth::Mhz40 => abi::BANDWIDTH_40_MHZ,
            ChannelWidth::Mhz80 => abi::BANDWIDTH_80_MHZ,
        }
    }
}

/// Hidden-SSID behavior of a connect request.
#[derive(Clone, Copy, Debug, PartialEq, Eq, Structural)]
pub enum HiddenSsid {
    Visible,
    Hidden,
}

/// Interface role of an endpoint.
#[derive(Clone, Copy, Debug, PartialEq, Eq, Structural)]
pub enum InterfaceRole {
    Station,
    AccessPoint,
}

impl InterfaceRole {
    /// The wire value of a role.
    pub open spec fn wire(self) -> u8 {
        match self {
            InterfaceRole::Station => abi::ROLE_STA,
            InterfaceRole::AccessPoint => abi::ROLE_AP,
        }
    }

    /// Returns the wire value.
    pub fn to_wire(self) -> (value: u8)
        ensures
            value == self.wire(),
    {
        match self {
            InterfaceRole::Station => abi::ROLE_STA,
            InterfaceRole::AccessPoint => abi::ROLE_AP,
        }
    }
}

/// The scalar fields of a connect request as the foundation takes them.
#[derive(Clone, Copy, Debug, PartialEq, Eq)]
pub struct ConnectWire {
    pub bssid: [u8; 6],
    pub security: u8,
    pub mfp: u8,
    pub band: u8,
    pub channel: u8,
    pub bandwidth: u8,
    pub hidden_ssid: u8,
    pub bssid_set: u8,
    pub timeout_ms: u32,
}

/// Borrowed, bounded Wi-Fi connection parameters.
#[derive(Clone, Copy, PartialEq, Eq)]
pub struct ConnectRequest<'a> {
    pub ssid: &'a [u8],
    pub security: Security,
    pub passphrase: &'a [u8],
    pub mfp: ManagementFrameProtection,
    pub band: Option<Band>,
    pub channel: Option<u8>,
    pub channel_width: ChannelWidth,
    pub hidden_ssid: HiddenSsid,
    pub bssid: Option<MacAddress>,
    pub timeout_ms: u32,
}

/// What may be logged of a connect request: no SSID, passphrase or BSSID
/// bytes.
#[derive(Clone, Copy, Debug, PartialEq, Eq)]
pub struct ConnectSummary {
    pub ssid_len: usize,
    pub security: Security,
    pub passphrase_len: usize,
    pub mfp: ManagementFrameProtection,
    pub band: Option<Band>,
    pub channel: Option<u8>,
    pub channel_width: ChannelWidth,
    pub hidden_ssid: HiddenSsid,
    pub bssid_set: bool,
    pub timeout_ms: u32,
}

/// Bytes that the supplicant's quoted control commands cannot carry.
pub open spec fn unquotable(byte: u8) -> bool {
    byte == 0x22 || byte == 0x5c
}

/// Whether a byte string holds a quote or a backslash.
pub open spec fn has_unquotable(bytes: Seq<u8>) -> bool {
    exists|i: int| 0 <= i < bytes.len() && unquotable(#[trigger] bytes[i])
}

impl<'a> ConnectRequest<'a> {
    /// Whether the bridge accepts the request.
    pub open spec fn acceptable(self) -> bool {
        &&& 1 <= self.ssid@.len() <= MAX_SSID_LEN
        &&& self.security.accepts_passphrase(self.passphrase@.len())
        &&& self.channel matches Some(channel) ==> self.band is Some && 1 <= channel
            < abi::CHANNEL_ANY
        &&& !has_unquotable(self.ssid@)
        &&& !has_unquotable(self.passphrase@)
    }

    /// Creates a request with explicit security and borrowed credentials.
    pub fn new(ssid: &'a [u8], security: Security, passphrase: &'a [u8]) -> (request: Self)
        ensures
            request == (ConnectRequest {
                ssid,
                security,
                passphrase,
                mfp: ManagementFrameProtection::Disabled,
                band: None,
                channel: None,
                channel_width: ChannelWidth::Automatic,
                hidden_ssid: HiddenSsid::Visible,
                bssid: None,
                timeout_ms: 0,
            }),
    {
        ConnectRequest {
            ssid,
            security,
            passphrase,
            mfp: ManagementFrameProtection::Disabled,
            band: None,
            channel: None,
            channel_width: ChannelWidth::Automatic,
            hidden_ssid: HiddenSsid::Visible,
            bssid: None,
            timeout_ms: 0,
        }
    }

    /// Creates an open-network request with no credential bytes.
    pub fn open(ssid: &'a [u8]) -> (request: Self)
        ensures
            request.passphrase@ == Seq::<u8>::empty(),
            request == (ConnectRequest {
                ssid,
                security: Security::Open,
                passphrase: request.passphrase,
                mfp: ManagementFrameProtection::Disabled,
                band: None,
                channel: None,
                channel_width: ChannelWidth::Automatic,
                hidden_ssid: HiddenSsid::Visible,
                bssid: None,
                timeout_ms: 0,
            }),
    {
        ConnectRequest::new(ssid, Security::Open, &[])
    }

    /// Selects management-frame protection policy.
    pub fn with_mfp(self, mfp: ManagementFrameProtection) -> (request: Self)
        ensures
            request == (ConnectRequest { mfp, ..self }),
    {
        ConnectRequest { mfp, ..self }
    }

    /// Restricts association to one radio band.
    pub fn with_band(self, band: Band) -> (request: Self)
        ensures
            request == (ConnectRequest { band: Some(band), ..self }),
    {
        ConnectRequest { band: Some(band), ..self }
    }

    /// Restricts association to one band and channel.
    pub fn with_channel(self, band: Band, channel: u8) -> (request: Self)
        ensures
            request == (ConnectRequest { band: Some(band), channel: Some(channel), ..self }),
    {
        ConnectRequest { band: Some(band), channel: Some(channel), ..self }
    }

    /// Selects the requested channel width.
    pub fn with_channel_width(self, width: ChannelWidth) -> (request: Self)
        ensures
            request == (ConnectRequest { channel_width: width, ..self }),
    {
        ConnectRequest { channel_width: width, ..self }
    }

    /// Selects hidden-SSID behavior.
    pub fn with_hidden_ssid(self, hidden: HiddenSsid) -> (request: Self)
        ensures
            request == (ConnectRequest { hidden_ssid: hidden, ..self }),
    {
        ConnectRequest { hidden_ssid: hidden, ..self }
    }

    /// Restricts association to one BSSID.
    pub fn with_bssid(self, bssid: MacAddress) -> (request: Self)
        ensures
            request == (ConnectRequest { bssid: Some(bssid), ..self }),
    {
        ConnectRequest { bssid: Some(bssid), ..self }
    }

    /// Sets the supplicant timeout; zero explicitly authorizes no deadline.
    pub fn with_timeout_ms(self, timeout_ms: u32) -> (request: Self)
        ensures
            request == (ConnectRequest { timeout_ms, ..self }),
    {
        ConnectRequest { timeout_ms, ..self }
    }

    /// Returns the borrowed SSID.
    pub fn ssid(self) -> (ssid: &'a [u8])
        ensures
            ssid == self.ssid,
    {
        self.ssid
    }

    /// Returns the selected security mode.
    pub fn security(self) -> (security: Security)
        ensures
            security == self.security,
    {
        self.security
    }

    /// Returns the borrowed passphrase.
    pub fn passphrase(self) -> (passphrase: &'a [u8])
        ensures
            passphrase == self.passphrase,
    {
        self.passphrase
    }

    /// Returns the management-frame protection policy.
    pub fn mfp(self) -> (mfp: ManagementFrameProtection)
        ensures
            mfp == self.mfp,
    {
        self.mfp
    }

    /// Returns the selected band, or `None` for automatic selection.
    pub fn band(self) -> (band: Option<Band>)
        ensures
            band == self.band,
    {
        self.band
    }

    /// Returns the selected channel, or `None` for automatic selection.
    pub fn channel(self) -> (channel: Option<u8>)
        ensures
            channel == self.channel,
    {
        self.channel
    }

    /// Returns the selected channel width.
    pub fn channel_width(self) -> (width: ChannelWidth)
        ensures
            width == self.channel_width,
    {
        self.channel_width
    }

    /// Returns the hidden-SSID behavior.
    pub fn hidden_ssid(self) -> (hidden: HiddenSsid)
        ensures
            hidden == self.hidden_ssid,
    {
        self.hidden_ssid
    }

    /// Returns the selected BSSID, if any.
    pub fn bssid(self) -> (bssid: Option<MacAddress>)
        ensures
            bssid == self.bssid,
    {
        self.bssid
    }

    /// Returns the requested timeout in milliseconds.
    pub fn timeout_ms(self) -> (timeout_ms: u32)
        ensures
            timeout_ms == self.timeout_ms,
    {
        self.timeout_ms
    }

    /// Returns what may be logged of the request.
    pub fn summary(self) -> (summary: ConnectSummary)
        ensures
            summary == (ConnectSummary {
                ssid_len: self.ssid@.len() as usize,
                security: self.security,
                passphrase_len: self.passphrase@.len() as usize,
                mfp: self.mfp,
                band: self.band,
                channel: self.channel,
                channel_width: self.channel_width,
                hidden_ssid: self.hidden_ssid,
                bssid_set: self.bssid is Some,
                timeout_ms: self.timeout_ms,
            }),
    {
        ConnectSummary {
            ssid_len: self.ssid.len(),
            security: self.security,
            passphrase_len: self.passphrase.len(),
            mfp: self.mfp,
            band: self.band,
            channel: self.channel,
            channel_width: self.channel_width,
            hidden_ssid: self.hidden_ssid,
            bssid_set: self.bssid.is_some(),
            timeout_ms: self.timeout_ms,
        }
    }

    /// Translates the fields other than the SSID and the passphrase. What
    /// the request leaves open becomes the wire value for any band or channel.
    pub fn to_wire(self) -> (wire: ConnectWire)
        ensures
            wire.bssid@ == (match self.bssid {
                Some(bssid) => bssid.octets(),
                None => Seq::new(6, |i: int| 0u8),
            }),
            wire.bssid_set == (if self.bssid is Some {
                1u8
            } else {
                0u8
            }),
            wire.security == self.security.wire(),
            wire.mfp == self.mfp.wire(),
            wire.band == (match self.band {
                Some(band) => band.wire(),
                None => abi::BAND_ANY,
            }),
            wire.channel == (match self.channel {
                Some(channel) => channel,
                None => abi::CHANNEL_ANY,
            }),
            wire.bandwidth == self.channel_width.wire(),
            wire.hidden_ssid == (if self.hidden_ssid is Hidden {
                1u8
            } else {
                0u8
            }),
            wire.timeout_ms == self.timeout_ms,
    {
        let bssid: [u8; 6] = match self.bssid {
            Some(bssid) => *bssid.as_bytes(),
            None => [0u8; 6],
        };
        let band: u8 = match self.band {
            Some(band) => band.to_wire(),
            None => abi::BAND_ANY,
        };
        let channel: u8 = match self.channel {
            Some(channel) => channel,
            None => abi::CHANNEL_ANY,
        };
        let hidden_ssid: u8 = match self.hidden_ssid {
            HiddenSsid::Hidden => 1,
            HiddenSsid::Visible => 0,
        };
        let bssid_set: u8 = if self.bssid.is_some() {
            1
        } else {
            0
        };
        ConnectWire {
            bssid,
            security: self.security.to_wire(),
            mfp: self.mfp.to_wire(),
            band,
            channel,
            bandwidth: self.channel_width.to_wire(),
            hidden_ssid,
            bssid_set,
            timeout_ms: self.timeout_ms,
        }
    }

    /// Checks the request against the limits of the bridge.
    pub fn validate(self) -> (result: Result<(), Error>)
        ensures
            match result {
                Ok(()) => self.acceptable(),
                Err(error) => !self.acceptable() && error == Error::InvalidArgument,
            },
    {
        if self.ssid.len() == 0 || self.ssid.len() > MAX_SSID_LEN {
            return Err(Error::InvalidArgument);
        }
        self.security.validate_passphrase(self.passphrase)?;
        if let Some(channel) = self.channel {
            if self.band.is_none() || channel == 0 || channel >= abi::CHANNEL_ANY {
                return Err(Error::InvalidArgument);
            }
        }
        if contains_unquotable(self.ssid) || contains_unquotable(self.passphrase) {
            return Err(Error::InvalidArgument);
        }
        Ok(())
    }
}

/// Searches a byte string for a quote or a backslash.
pub fn contains_unquotable(bytes: &[u8]) -> (found: bool)
    ensures
        found == has_unquotable(bytes@),
{
    let mut index: usize = 0;
    while index < bytes.len()
        invariant
            index <= bytes@.len(),
            forall|i: int| 0 <= i < index ==> !unquotable(#[trigger] bytes@[i]),
        decreases bytes@.len() - index,
    {
        if bytes[index] == 0x22 || bytes[index] == 0x5c {
            assert(unquotable(bytes@[index as int]));
            return true;
        }
        index = index + 1;
    }
    false
}

/// Link status owned by the boundary.
#[derive(Clone, Copy, Debug, PartialEq, Eq, Structural)]
pub enum Status {
    /// The endpoint is down or has not completed initialization.
    Down,
    /// The endpoint is initialized and not currently associating.
    Ready,
    /// Zephyr/the supplicant is associating.
    Connecting,
    /// The controlled port is authorized and data frames may be sent.
    Connected,
    /// The station is initialized but currently disconnected.
    Disconnected,
    /// The foundation reports a terminal fault.
    Faulted,
}

/// The status that a wire value stands for.
pub open spec fn status_of_wire(value: u32) -> Option<Status> {
    if value == abi::STATUS_DOWN {
        Some(Status::Down)
    } else if value == abi::STATUS_READY {
        Some(Status::Ready)
    } else if value == abi::STATUS_CONNECTING {
        Some(Status::Connecting)
    } else if value == abi::STATUS_CONNECTED {
        Some(Status::Connected)
    } else if value == abi::STATUS_DISCONNECTED {
        Some(Status::Disconnected)
    } else if value == abi::STATUS_FAULTED {
        Some(Status::Faulted)
    } else {
        None
    }
}

impl Status {
    /// Returns whether the controlled port is authorized for data TX.
    pub fn is_connected(self) -> (connected: bool)
        ensures
            connected == (self is Connected),
    {
        match self {
            Status::Connected => true,
            _ => false,
        }
    }

    /// Translates a wire status.
    pub fn from_wire(value: u32) -> (result: Result<Self, Error>)
        ensures
            match result {
                Ok(status) => status_of_wire(value) == Some(status),
                Err(error) => status_of_wire(value) is None && error == Error::Protocol,
            },
    {
        if value == abi::STATUS_DOWN {
            Ok(Status::Down)
        } else if value == abi::STATUS_READY {
            Ok(Status::Ready)
        } else if value == abi::STATUS_CONNECTING {
            Ok(Status::Connecting)
        } else if value == abi::STATUS_CONNECTED {
            Ok(Status::Connected)
        } else if value == abi::STATUS_DISCONNECTED {
            Ok(Status::Disconnected)
        } else if value == abi::STATUS_FAULTED {
            Ok(Status::Faulted)
        } else {
            Err(Error::Protocol)
        }
    }
}

/// Link events generated by Zephyr's Wi-Fi/supplicant state machine.
///
/// `AddressChanged` is reserved for the IP layer above; the foundation never
/// produces it.
#[derive(Clone, Copy, Debug, PartialEq, Eq, Structural)]
pub enum WifiEvent {
    /// The station became connected and its controlled port is authorized.
    Connected,
    /// Zephyr changed BSSID while retaining a connected station.
    Roamed,
    /// The station lost its connection or controlled-port authorization.
    Disconnected,
    /// The interface address/state changed.
    AddressChanged,
}

/// The event that a wire value stands for: `None` for a value that may not
/// cross the boundary, `Some(None)` for no event. EAPOL notifications belong
/// to Zephyr and count as no event.
pub open spec fn event_of_wire(value: u32) -> Option<Option<WifiEvent>> {
    if value == abi::EVENT_NONE || value == abi::EVENT_EAPOL {
        Some(None)
    } else if value == abi::EVENT_CONNECTED {
        Some(Some(WifiEvent::Connected))
    } else if value == abi::EVENT_ROAMED {
        Some(Some(WifiEvent::Roamed))
    } else if value == abi::EVENT_DISCONNECTED {
        Some(Some(WifiEvent::Disconnected))
    } else {
        None
    }
}

impl WifiEvent {
    /// Translates a wire event.
    pub fn from_wire(value: u32) -> (result: Result<Option<Self>, Error>)
        ensures
            match result {
                Ok(event) => event_of_wire(value) == Some(event),
                Err(error) => event_of_wire(value) is None && error == Error::Protocol,
            },
    {
        if value == abi::EVENT_NONE || value == abi::EVENT_EAPOL {
            Ok(None)
        } else if value == abi::EVENT_CONNECTED {
            Ok(Some(WifiEvent::Connected))
        } else if value == abi::EVENT_ROAMED {
            Ok(Some(WifiEvent::Roamed))
        } else if value == abi::EVENT_DISCONNECTED {
            Ok(Some(WifiEvent::Disconnected))
        } else {
            Err(Error::Protocol)
        }
    }
}

/// Immutable interface metadata returned after opening the endpoint.
#[derive(Clone, Copy, Debug, PartialEq, Eq)]
pub struct InterfaceInfo {
    pub mac: MacAddress,
    pub mtu: Mtu,
    pub status: Status,
}

impl InterfaceInfo {
    /// Returns the station MAC address.
    pub fn mac(self) -> (mac: MacAddress)
        ensures
            mac == self.mac,
    {
        self.mac
    }

    /// Returns the configured Ethernet MTU.
    pub fn mtu(self) -> (mtu: Mtu)
        ensures
            mtu == self.mtu,
    {
        self.mtu
    }

    /// Returns the most recently observed link status.
    pub fn status(self) -> (status: Status)
        ensures
            status == self.status,
    {
        self.status
    }
}

/// Result of one bounded poll operation.
#[derive(Clone, Copy, Debug, PartialEq, Eq)]
pub struct PollResult {
    pub event: Option<WifiEvent>,
    pub status: Status,
}

impl PollResult {
    /// Returns the translated event, if one was pending.
    pub fn event(self) -> (event: Option<WifiEvent>)
        ensures
            event == self.event,
    {
        self.event
    }

    /// Returns the current link status.
    pub fn status(self) -> (status: Status)
        ensures
            status == self.status,
    {
        self.status
    }
}

/// Result of one receive attempt.
#[derive(Clone, Copy, Debug, PartialEq, Eq, Structural)]
pub enum ReceiveResult {
    /// No frame was available before the backend's bounded wait expired.
    Empty,
    /// A data frame was written to the caller's buffer.
    Frame(usize),
    /// A control/EAPOL frame was consumed and intentionally not exposed.
    Filtered,
}

/// Bounded nonblocking access to the board's provisioning console.
pub struct ProvisioningConsole {
    pub opened: bool,
}

impl ProvisioningConsole {
    /// Takes the result of opening the console byte transport.
    pub fn open(result: i32) -> (console: Result<Self, Error>)
        ensures
            match console {
                Ok(console) => result_error(result) is None && console.opened,
                Err(error) => result_error(result) == Some(error),
            },
    {
        map_result(result)?;
        Ok(ProvisioningConsole { opened: true })
    }

    /// Why a read into `capacity` bytes is refused before the transport is
    /// touched, if it is.
    pub open spec fn read_fault(&self, capacity: usize) -> Option<Error> {
        if !self.opened {
            Some(Error::NotOpen)
        } else if capacity == 0 {
            Some(Error::InvalidArgument)
        } else {
            None
        }
    }

    /// Checks that a read into `capacity` bytes may reach the transport.
    pub fn begin_read(&self, capacity: usize) -> (result: Result<(), Error>)
        ensures
            match result {
                Ok(()) => self.read_fault(capacity) is None,
                Err(error) => self.read_fault(capacity) == Some(error),
            },
    {
        if !self.opened {
            return Err(Error::NotOpen);
        }
        if capacity == 0 {
            return Err(Error::InvalidArgument);
        }
        Ok(())
    }

    /// Interprets the transport's answer to a read into `capacity` bytes.
    ///
    /// [`Error::WouldBlock`] means no byte is available yet. A count larger
    /// than the buffer is a protocol error.
    pub fn read(&self, capacity: usize, result: i32, received: usize) -> (count: Result<
        usize,
        Error,
    >)
        ensures
            match count {
                Ok(count) => {
                    &&& self.read_fault(capacity) is None
                    &&& result_error(result) is None
                    &&& count == received
                    &&& count <= capacity
                },
                Err(error) => if self.read_fault(capacity) is Some {
                    self.read_fault(capacity) == Some(error)
                } else if result_error(result) is Some {
                    result_error(result) == Some(error)
                } else {
                    received > capacity && error == Error::Protocol
                },
            },
    {
        self.begin_read(capacity)?;
        map_result(result)?;
        if received > capacity {
            return Err(Error::Protocol);
        }
        Ok(received)
    }
}

/// The foundation operations used by [`Adapter`].
pub trait Backend {
    /// Interface version of the foundation.
    fn abi_version(&mut self) -> u32;

    /// Opens the endpoint.
    fn open(&mut self) -> Result<(), Error>;

    /// Closes the endpoint.
    fn close(&mut self) -> Result<(), Error>;

    /// Reads the interface metadata.
    fn interface(&mut self) -> Result<InterfaceWire, Error>;

    /// Requests association.
    fn connect(&mut self, request: ConnectRequest<'_>) -> Result<(), Error>;

    /// Requests disassociation.
    fn disconnect(&mut self) -> Result<(), Error>;

    /// Polls one link event.
    fn poll(&mut self, timeout_ms: u32) -> Result<PollWire, Error>;

    /// Receives one frame into `buffer` and returns its length.
    fn recv(&mut self, buffer: &mut [u8]) -> Result<usize, Error>;

    /// Sends one frame.
    fn send(&mut self, frame: &[u8]) -> Result<(), Error>;
}

/// Why interface metadata is refused, if it is.
pub open spec fn interface_fault(wire: InterfaceWire) -> Option<Error> {
    if wire.abi_version != ABI_VERSION || wire.struct_size != abi::INTERFACE_WIRE_LEN {
        Some(Error::AbiMismatch)
    } else if !unicast(wire.mac@) {
        Some(Error::InvalidMac)
    } else if !(MIN_MTU <= wire.mtu <= MAX_MTU) {
        Some(Error::InvalidMtu)
    } else if status_of_wire(wire.status) is None {
        Some(Error::Protocol)
    } else {
        None
    }
}

/// What an open yields for the metadata that the open backend answered with.
pub open spec fn opened_with(answer: Result<InterfaceWire, Error>) -> Result<(), Error> {
    match answer {
        Err(error) => Err(error),
        Ok(wire) => match interface_fault(wire) {
            Some(error) => Err(error),
            None => Ok(()),
        },
    }
}

/// Validates the metadata that the foundation reported.
pub fn accept_interface(wire: InterfaceWire) -> (result: Result<InterfaceInfo, Error>)
    ensures
        match result {
            Ok(info) => {
                &&& interface_fault(wire) is None
                &&& info.mac.octets() == wire.mac@
                &&& info.mtu.bytes() == wire.mtu
                &&& status_of_wire(wire.status) == Some(info.status)
            },
            Err(error) => interface_fault(wire) == Some(error),
        },
{
    if wire.abi_version != ABI_VERSION || wire.struct_size != abi::INTERFACE_WIRE_LEN {
        return Err(Error::AbiMismatch);
    }
    let mac = MacAddress::new(wire.mac)?;
    let mtu = Mtu::new(wire.mtu)?;
    let status = Status::from_wire(wire.status)?;
    Ok(InterfaceInfo { mac, mtu, status })
}

/// Whether a reported event contradicts the reported status.
pub open spec fn event_contradicts(event: Option<WifiEvent>, status: Status) -> bool {
    match event {
        Some(WifiEvent::Connected) => !(status is Connected),
        Some(WifiEvent::Roamed) => !(status is Connected),
        Some(WifiEvent::Disconnected) => status is Connected,
        _ => false,
    }
}

/// What a poll yields for the backend's answer: an event that contradicts its
/// status, like an unknown status or event, is a protocol error.
pub open spec fn polled(answer: Result<PollWire, Error>) -> Result<PollResult, Error> {
    match answer {
        Err(error) => Err(error),
        Ok(wire) => match (status_of_wire(wire.status), event_of_wire(wire.event)) {
            (Some(status), Some(event)) => if event_contradicts(event, status) {
                Err(Error::Protocol)
            } else {
                Ok(PollResult { event, status })
            },
            _ => Err(Error::Protocol),
        },
    }
}

/// Translates a poll answer; an event that contradicts its status is a
/// protocol error.
pub fn accept_poll(wire: PollWire) -> (result: Result<PollResult, Error>)
    ensures
        result == polled(Ok(wire)),
{
    let status = Status::from_wire(wire.status)?;
    let event = WifiEvent::from_wire(wire.event)?;
    let contradiction: bool = match event {
        Some(WifiEvent::Connected) => status != Status::Connected,
        Some(WifiEvent::Roamed) => status != Status::Connected,
        Some(WifiEvent::Disconnected) => status == Status::Connected,
        _ => false,
    };
    if contradiction {
        return Err(Error::Protocol);
    }
    Ok(PollResult { event, status })
}

/// What a receive attempt yields: the backend's answer, the frame length
/// limit of the interface and the bytes of the buffer decide.
pub open spec fn received(
    answer: Result<usize, Error>,
    frame_limit: Option<usize>,
    buffer: Seq<u8>,
) -> Result<ReceiveResult, Error> {
    match answer {
        Err(Error::WouldBlock) => Ok(ReceiveResult::Empty),
        Err(Error::TimedOut) => Ok(ReceiveResult::Empty),
        Err(error) => Err(error),
        Ok(len) => match frame_limit {
            None => Err(Error::Fault),
            Some(limit) => if len > buffer.len() {
                Err(Error::Protocol)
            } else if len > limit || len > MAX_FRAME_LEN {
                Err(Error::FrameTooLarge)
            } else if len < ETHERNET_HEADER_LEN {
                Err(Error::FrameTooShort)
            } else if eapol_frame(buffer.subrange(0, len as int)) {
                Ok(ReceiveResult::Filtered)
            } else {
                match frame_fault(buffer.subrange(0, len as int)) {
                    Some(error) => Err(error),
                    None => Ok(ReceiveResult::Frame(len)),
                }
            },
        },
    }
}

/// Applies the receive policy to the backend's answer.
pub fn accept_received(
    answer: Result<usize, Error>,
    frame_limit: Option<usize>,
    buffer: &[u8],
) -> (result: Result<ReceiveResult, Error>)
    ensures
        result == received(answer, frame_limit, buffer@),
{
    let len: usize = match answer {
        Ok(len) => len,
        Err(Error::WouldBlock) => return Ok(ReceiveResult::Empty),
        Err(Error::TimedOut) => return Ok(ReceiveResult::Empty),
        Err(error) => return Err(error),
    };
    let limit: usize = match frame_limit {
        Some(limit) => limit,
        None => return Err(Error::Fault),
    };
    if len > buffer.len() {
        return Err(Error::Protocol);
    }
    if len > limit || len > MAX_FRAME_LEN {
        return Err(Error::FrameTooLarge);
    }
    if len < ETHERNET_HEADER_LEN {
        return Err(Error::FrameTooShort);
    }
    let frame = &buffer[0..len];
    if is_eapol(frame) {
        return Ok(ReceiveResult::Filtered);
    }
    validate_frame(frame)?;
    Ok(ReceiveResult::Frame(len))
}

/// The boundary state machine between the foundation and the network stack.
pub struct Adapter<B: Backend> {
    pub backend: B,
    pub interface: Option<InterfaceInfo>,
    pub status: Status,
    pub opened: bool,
}

impl<B: Backend> Adapter<B> {
    /// Interface metadata is exposed exactly while the endpoint is open, and
    /// a closed endpoint is down.
    pub open spec fn wf(&self) -> bool {
        &&& self.opened == (self.interface is Some)
        &&& !self.opened ==> self.status is Down
    }

    /// Largest complete frame of the interface, once there is one.
    pub open spec fn frame_limit(&self) -> Option<usize> {
        match self.interface {
            Some(info) => Some((ETHERNET_HEADER_LEN + info.mtu.bytes()) as usize),
            None => None,
        }
    }

    /// Why a connect request is refused before the backend is asked, if it
    /// is.
    pub open spec fn connect_fault(&self, request: ConnectRequest<'_>) -> Option<Error> {
        if !self.opened {
            Some(Error::NotOpen)
        } else if !request.acceptable() {
            Some(Error::InvalidArgument)
        } else if self.status is Connected || self.status is Connecting {
            Some(Error::Busy)
        } else {
            None
        }
    }

    /// Why a frame is refused before the backend sees it, if it is.
    pub open spec fn send_fault(&self, frame: Seq<u8>) -> Option<Error> {
        if !self.opened {
            Some(Error::NotOpen)
        } else if !(self.status is Connected) {
            Some(Error::NotConnected)
        } else if self.interface is None {
            Some(Error::Fault)
        } else if frame.len() < ETHERNET_HEADER_LEN {
            Some(Error::FrameTooShort)
        } else if frame.len() > self.frame_limit()->0 {
            Some(Error::FrameTooLarge)
        } else if eapol_frame(frame) {
            Some(Error::EapolFrame)
        } else if frame_fault(frame) is Some {
            frame_fault(frame)
        } else if frame.subrange(6, 12) != self.interface->0.mac.octets() {
            Some(Error::InvalidMac)
        } else {
            None
        }
    }

    /// What an endpoint takes over from valid metadata.
    pub open spec fn holds_interface(&self, wire: InterfaceWire) -> bool {
        &&& self.opened
        &&& self.interface matches Some(info) && {
            &&& info.mac.octets() == wire.mac@
            &&& info.mtu.bytes() == wire.mtu
            &&& status_of_wire(wire.status) == Some(info.status)
            &&& self.status == info.status
        }
    }

    /// Creates a closed endpoint.
    pub fn new(backend: B) -> (adapter: Self)
        ensures
            adapter == (Adapter { backend, interface: None, status: Status::Down, opened: false }),
            adapter.wf(),
    {
        Adapter { backend, interface: None, status: Status::Down, opened: false }
    }

    /// Takes over the metadata of a freshly opened endpoint, or refuses it.
    pub fn finish_open(&mut self, wire: InterfaceWire) -> (result: Result<(), Error>)
        requires
            !old(self).opened,
        ensures
            final(self).backend == old(self).backend,
            result == opened_with(Ok(wire)),
            match result {
                Ok(()) => final(self).holds_interface(wire),
                Err(_) => *final(self) == *old(self),
            },
            old(self).wf() ==> final(self).wf(),
    {
        let info = accept_interface(wire)?;
        self.interface = Some(info);
        self.status = info.status;
        self.opened = true;
        Ok(())
    }

    /// Opens the endpoint and validates what the foundation reports.
    ///
    /// A second open is refused without reaching the backend. Any failure
    /// leaves the endpoint closed; a failure after the backend opened closes
    /// the backend again.
    pub fn open(&mut self) -> (result: Result<(), Error>)
        ensures
            old(self).opened ==> {
                &&& result == Err::<(), Error>(Error::Busy)
                &&& *final(self) == *old(self)
            },
            !old(self).opened ==> exists|checked: &mut B, version: u32|
                {
                    &&& *checked == old(self).backend
                    &&& #[trigger] call_ensures(B::abi_version, (checked,), version)
                    &&& if version != ABI_VERSION {
                        &&& result == Err::<(), Error>(Error::AbiMismatch)
                        &&& *final(self) == (Adapter { backend: *final(checked), ..*old(self) })
                    } else {
                        exists|open: &mut B, opened: Result<(), Error>|
                            {
                                &&& *open == *final(checked)
                                &&& #[trigger] call_ensures(B::open, (open,), opened)
                                &&& match opened {
                                    Err(error) => {
                                        &&& result == Err::<(), Error>(error)
                                        &&& *final(self) == (Adapter {
                                            backend: *final(open),
                                            ..*old(self)
                                        })
                                    },
                                    Ok(()) => exists|
                                        asked: &mut B,
                                        answer: Result<InterfaceWire, Error>,
                                    |
                                        {
                                            &&& *asked == *final(open)
                                            &&& #[trigger] call_ensures(
                                                B::interface,
                                                (asked,),
                                                answer,
                                            )
                                            &&& result == opened_with(answer)
                                            &&& match result {
                                                Ok(()) => {
                                                    &&& final(self).backend == *final(asked)
                                                    &&& final(self).holds_interface(answer->Ok_0)
                                                },
                                                Err(_) => {
                                                    &&& *final(self) == (Adapter {
                                                        backend: final(self).backend,
                                                        ..*old(self)
                                                    })
                                                    &&& exists|
                                                        closing: &mut B,
                                                        closed: Result<(), Error>,
                                                    |
                                                        {
                                                            &&& *closing == *final(asked)
                                                            &&& *final(closing) == final(self).backend
                                                            &&& #[trigger] call_ensures(
                                                                B::close,
                                                                (closing,),
                                                                closed,
                                                            )
                                                        }
                                                },
                                            }
                                        },
                                }
                            }
                    }
                },
            old(self).wf() ==> final(self).wf(),
    {
        if self.opened {
            return Err(Error::Busy);
        }
        let version: u32 = self.backend.abi_version();
        if version != ABI_VERSION {
            return Err(Error::AbiMismatch);
        }
        let opened: Result<(), Error> = self.backend.open();
        opened?;
        let answer = self.backend.interface();
        let result: Result<(), Error> = match answer {
            Ok(wire) => self.finish_open(wire),
            Err(error) => Err(error),
        };
        if result.is_err() {
            let _ = self.backend.close();
        }
        result
    }

    /// Closes the endpoint. Closing an already-closed endpoint is idempotent
    /// and does not reach the backend.
    pub fn close(&mut self) -> (result: Result<(), Error>)
        ensures
            final(self).wf(),
            !final(self).opened,
            final(self).interface is None,
            final(self).status == Status::Down,
            !old(self).opened ==> {
                &&& result == Ok::<(), Error>(())
                &&& final(self).backend == old(self).backend
            },
            old(self).opened ==> exists|backend: &mut B|
                {
                    &&& *backend == old(self).backend
                    &&& *final(backend) == final(self).backend
                    &&& #[trigger] call_ensures(B::close, (backend,), result)
                },
    {
        if !self.opened {
            self.interface = None;
            self.status = Status::Down;
            return Ok(());
        }
        let result = self.backend.close();
        self.opened = false;
        self.interface = None;
        self.status = Status::Down;
        result
    }

    /// Checks that a connect request may reach the backend.
    pub fn check_connect(&self, request: ConnectRequest<'_>) -> (result: Result<(), Error>)
        ensures
            match result {
                Ok(()) => self.connect_fault(request) is None,
                Err(error) => self.connect_fault(request) == Some(error),
            },
    {
        self.require_open()?;
        request.validate()?;
        match self.status {
            Status::Connected => Err(Error::Busy),
            Status::Connecting => Err(Error::Busy),
            _ => Ok(()),
        }
    }

    /// Records the backend's answer to a connect request.
    pub fn finish_connect(&mut self, answer: Result<(), Error>) -> (result: Result<(), Error>)
        ensures
            result == answer,
            *final(self) == (match answer {
                Ok(()) => Adapter { status: Status::Connecting, ..*old(self) },
                Err(_) => *old(self),
            }),
    {
        if answer.is_ok() {
            self.status = Status::Connecting;
        }
        answer
    }

    /// Requests association using borrowed credentials.
    ///
    /// A refused request does not reach the backend.
    pub fn connect(&mut self, request: ConnectRequest<'_>) -> (result: Result<(), Error>)
        ensures
            old(self).wf() ==> final(self).wf(),
            old(self).connect_fault(request) matches Some(error) ==> result == Err::<(), Error>(
                error,
            ) && *final(self) == *old(self),
            final(self).interface == old(self).interface,
            final(self).opened == old(self).opened,
            final(self).status == (if result is Ok {
                Status::Connecting
            } else {
                old(self).status
            }),
            old(self).connect_fault(request) is None ==> exists|backend: &mut B|
                {
                    &&& *backend == old(self).backend
                    &&& *final(backend) == final(self).backend
                    &&& #[trigger] call_ensures(B::connect, (backend, request), result)
                },
    {
        self.check_connect(request)?;
        let answer = self.backend.connect(request);
        self.finish_connect(answer)
    }

    /// Records the backend's answer to a disconnect request.
    pub fn finish_disconnect(&mut self, answer: Result<(), Error>) -> (result: Result<(), Error>)
        ensures
            result == answer,
            *final(self) == (match answer {
                Ok(()) => Adapter { status: Status::Disconnected, ..*old(self) },
                Err(_) => *old(self),
            }),
    {
        if answer.is_ok() {
            self.status = Status::Disconnected;
        }
        answer
    }

    /// Requests disassociation and controlled-port closure.
    pub fn disconnect(&mut self) -> (result: Result<(), Error>)
        ensures
            old(self).wf() ==> final(self).wf(),
            !old(self).opened ==> result == Err::<(), Error>(Error::NotOpen) && *final(self)
                == *old(self),
            final(self).interface == old(self).interface,
            final(self).opened == old(self).opened,
            final(self).status == (if result is Ok {
                Status::Disconnected
            } else {
                old(self).status
            }),
            old(self).opened ==> exists|backend: &mut B|
                {
                    &&& *backend == old(self).backend
                    &&& *final(backend) == final(self).backend
                    &&& #[trigger] call_ensures(B::disconnect, (backend,), result)
                },
    {
        self.require_open()?;
        let answer = self.backend.disconnect();
        self.finish_disconnect(answer)
    }

    /// Records the backend's answer to a poll.
    pub fn finish_poll(&mut self, answer: Result<PollWire, Error>) -> (result: Result<
        PollResult,
        Error,
    >)
        ensures
            result == polled(answer),
            *final(self) == (match result {
                Ok(poll) => Adapter { status: poll.status, ..*old(self) },
                Err(_) => *old(self),
            }),
    {
        let wire = answer?;
        let poll = accept_poll(wire)?;
        self.status = poll.status;
        Ok(poll)
    }

    /// Waits for one bounded link event and translates its status.
    pub fn poll(&mut self, timeout_ms: u32) -> (result: Result<PollResult, Error>)
        ensures
            old(self).wf() ==> final(self).wf(),
            !old(self).opened ==> result == Err::<PollResult, Error>(Error::NotOpen) && *final(self)
                == *old(self),
            final(self).interface == old(self).interface,
            final(self).opened == old(self).opened,
            old(self).opened ==> exists|backend: &mut B, answer: Result<PollWire, Error>|
                {
                    &&& *backend == old(self).backend
                    &&& *final(backend) == final(self).backend
                    &&& #[trigger] call_ensures(B::poll, (backend, timeout_ms), answer)
                    &&& result == polled(answer)
                },
            final(self).status == (match result {
                Ok(poll) => poll.status,
                Err(_) => old(self).status,
            }),
    {
        self.require_open()?;
        let answer = self.backend.poll(timeout_ms);
        self.finish_poll(answer)
    }

    /// Receives directly into a caller-owned Ethernet buffer.
    ///
    /// [`ReceiveResult::Filtered`] means that an EAPOL/control frame was
    /// consumed; the bytes in the buffer must not be forwarded.
    pub fn recv(&mut self, buffer: &mut [u8]) -> (result: Result<ReceiveResult, Error>)
        ensures
            old(self).wf() ==> final(self).wf(),
            final(self).interface == old(self).interface,
            final(self).opened == old(self).opened,
            final(self).status == old(self).status,
            !old(self).opened ==> {
                &&& result == Err::<ReceiveResult, Error>(Error::NotOpen)
                &&& *final(self) == *old(self)
                &&& final(buffer)@ == old(buffer)@
            },
            old(self).opened && old(buffer)@.len() < ETHERNET_HEADER_LEN ==> {
                &&& result == Err::<ReceiveResult, Error>(Error::BufferTooSmall)
                &&& *final(self) == *old(self)
                &&& final(buffer)@ == old(buffer)@
            },
            old(self).opened && old(buffer)@.len() >= ETHERNET_HEADER_LEN ==> exists|
                backend: &mut B,
                frame: &mut [u8],
                answer: Result<usize, Error>,
            |
                {
                    &&& *backend == old(self).backend
                    &&& *final(backend) == final(self).backend
                    &&& frame@ == old(buffer)@
                    &&& final(frame)@ == final(buffer)@
                    &&& #[trigger] call_ensures(B::recv, (backend, frame), answer)
                    &&& result == received(answer, old(self).frame_limit(), final(buffer)@)
                },
            result matches Ok(ReceiveResult::Frame(len)) ==> {
                &&& ETHERNET_HEADER_LEN <= len <= final(buffer)@.len()
                &&& old(self).frame_limit() matches Some(limit) && len <= limit
                &&& !eapol_frame(final(buffer)@.subrange(0, len as int))
                &&& frame_fault(final(buffer)@.subrange(0, len as int)) is None
            },
    {
        self.require_open()?;
        if buffer.len() < ETHERNET_HEADER_LEN {
            return Err(Error::BufferTooSmall);
        }
        let answer = self.backend.recv(buffer);
        let frame_limit: Option<usize> = match self.interface {
            Some(info) => Some(info.mtu.frame_len()),
            None => None,
        };
        accept_received(answer, frame_limit, buffer)
    }

    /// Checks that a frame may be handed to the backend.
    pub fn check_send(&self, frame: &[u8]) -> (result: Result<(), Error>)
        ensures
            match result {
                Ok(()) => self.send_fault(frame@) is None,
                Err(error) => self.send_fault(frame@) == Some(error),
            },
    {
        self.require_open()?;
        if !self.status.is_connected() {
            return Err(Error::NotConnected);
        }
        let info = match self.interface {
            Some(info) => info,
            None => return Err(Error::Fault),
        };
        if frame.len() < ETHERNET_HEADER_LEN {
            return Err(Error::FrameTooShort);
        }
        if frame.len() > info.mtu.frame_len() || frame.len() > MAX_FRAME_LEN {
            return Err(Error::FrameTooLarge);
        }
        if is_eapol(frame) {
            return Err(Error::EapolFrame);
        }
        validate_frame(frame)?;
        let source = mac_at(frame, abi::MAC_LEN);
        if !same_mac(&source, info.mac.as_bytes()) {
            return Err(Error::InvalidMac);
        }
        Ok(())
    }

    /// Sends one complete Ethernet frame from a caller-owned buffer.
    ///
    /// EAPOL and VLAN-tagged EAPOL frames are refused because the supplicant
    /// owns the controlled port; so are frames with another station's source
    /// address. A refused frame does not reach the backend.
    pub fn send(&mut self, frame: &[u8]) -> (result: Result<usize, Error>)
        ensures
            old(self).wf() ==> final(self).wf(),
            final(self).interface == old(self).interface,
            final(self).opened == old(self).opened,
            final(self).status == old(self).status,
            old(self).send_fault(frame@) matches Some(error) ==> result == Err::<usize, Error>(
                error,
            ) && *final(self) == *old(self),
            old(self).send_fault(frame@) is None ==> exists|
                backend: &mut B,
                answer: Result<(), Error>,
            |
                {
                    &&& *backend == old(self).backend
                    &&& *final(backend) == final(self).backend
                    &&& #[trigger] call_ensures(B::send, (backend, frame), answer)
                    &&& result == match answer {
                        Ok(()) => Ok::<usize, Error>(frame@.len() as usize),
                        Err(error) => Err(error),
                    }
                },
    {
        self.check_send(frame)?;
        match self.backend.send(frame) {
            Ok(()) => Ok(frame.len()),
            Err(error) => Err(error),
        }
    }

    /// Checks that the endpoint is open.
    pub fn require_open(&self) -> (result: Result<(), Error>)
        ensures
            match result {
                Ok(()) => self.opened,
                Err(error) => !self.opened && error == Error::NotOpen,
            },
    {
        if self.opened {
            Ok(())
        } else {
            Err(Error::NotOpen)
        }
    }
}

/// Compares two addresses.
pub fn same_mac(left: &[u8; 6], right: &[u8; 6]) -> (same: bool)
    ensures
        same == (left@ == right@),
{
    let same: bool = left[0] == right[0] && left[1] == right[1] && left[2] == right[2] && left[3]
        == right[3] && left[4] == right[4] && left[5] == right[5];
    assert(same ==> left@ =~= right@);
    same
}

/// No EAPOL frame crosses the boundary: one from the stack is refused before
/// the backend sees it, and one from the backend is not shown as a frame.
pub proof fn law_eapol_never_crosses<B: Backend>(
    adapter: Adapter<B>,
    frame: Seq<u8>,
    answer: Result<usize, Error>,
    buffer: Seq<u8>,
)
    ensures
        eapol_frame(frame) ==> adapter.send_fault(frame) is Some,
        received(answer, adapter.frame_limit(), buffer) matches Ok(ReceiveResult::Frame(len))
            ==> !eapol_frame(buffer.subrange(0, len as int)),
{
}

/// Only a connected endpoint transmits, and only under its own address.
pub proof fn law_only_connected_stations_send<B: Backend>(adapter: Adapter<B>, frame: Seq<u8>)
    requires
        adapter.send_fault(frame) is None,
    ensures
        adapter.opened,
        adapter.status is Connected,
        adapter.interface matches Some(info) && frame.subrange(6, 12) == info.mac.octets(),
        frame.len() <= adapter.frame_limit()->0,
{
}

/// A station address is one that is not a group address, not zero and not all ones;
/// a destination only must not be zero.
pub proof fn law_station_addresses(mac: Seq<u8>)
    requires
        mac.len() == 6,
    ensures
        unicast(mac) <==> mac[0] % 2 == 0 && mac != codec::zero_bytes(6) && mac != Seq::new(
            6,
            |i: int| 0xffu8,
        ),
        nonzero(mac) <==> mac != codec::zero_bytes(6),
{
    if !nonzero(mac) {
        assert(mac =~= codec::zero_bytes(6));
    } else {
        let i = choose|i: int| 0 <= i < mac.len() && mac[i] != 0;
        assert(codec::zero_bytes(6)[i] == 0);
    }
    let ones = Seq::new(6, |i: int| 0xffu8);
    if exists|i: int| 0 <= i < mac.len() && mac[i] != 0xff {
        let i = choose|i: int| 0 <= i < mac.len() && mac[i] != 0xff;
        assert(ones[i] == 0xff);
    } else {
        assert(mac =~= ones);
    }
}

/// Under up to eight VLAN tags, the type that follows the last tag decides whether a
/// frame is EAPOL.
pub proof fn law_tags_do_not_hide_eapol(frame: Seq<u8>, tags: nat)
    requires
        tags <= 8,
        frame.len() >= 14 + 4 * tags,
        forall|k: int|
            0 <= k < tags ==> vlan_tag(#[trigger] codec::be16_at(frame.skip(12), 4 * k)),
        tags < 8 ==> !vlan_tag(codec::be16_at(frame, 12 + 4 * tags as int)),
    ensures
        eapol_frame(frame) <==> frame[12 + 4 * tags as int] == 0x88 && frame[13 + 4 * tags as int]
            == 0x8e,
{
    lemma_tagged_type(frame, 12, 8, tags);
}

/// Walking over `tags` tags leads to the type behind them.
proof fn lemma_tagged_type(frame: Seq<u8>, offset: int, room: nat, tags: nat)
    requires
        12 <= offset,
        tags <= room,
        frame.len() >= offset + 2 + 4 * tags,
        forall|k: int|
            offset - 12 <= 4 * k < offset - 12 + 4 * tags ==> vlan_tag(
                #[trigger] codec::be16_at(frame.skip(12), 4 * k),
            ),
        (offset - 12) % 4 == 0,
        tags < room ==> !vlan_tag(codec::be16_at(frame, offset + 4 * tags)),
    ensures
        eapol_at(frame, offset, room) <==> frame[offset + 4 * tags] == 0x88 && frame[offset + 4
            * tags + 1] == 0x8e,
    decreases tags,
{
    if tags > 0 {
        let k = (offset - 12) / 4;
        assert(vlan_tag(codec::be16_at(frame.skip(12), 4 * k)));
        assert(codec::be16_at(frame.skip(12), 4 * k) == codec::be16_at(frame, offset));
        lemma_tagged_type(frame, offset + 4, (room - 1) as nat, (tags - 1) as nat);
    }
}

/// The three VLAN tag types, and nothing else, are skipped.
pub proof fn law_vlan_tag_types(ether_type: u16)
    ensures
        vlan_tag(ether_type) <==> ether_type == 0x8100 || ether_type == 0x88a8 || ether_type
            == 0x9100,
{
}

/// A data frame needs a whole header, a destination and a station as its source.
pub proof fn law_frame_rules(frame: Seq<u8>)
    ensures
        frame.len() < 14 ==> frame_fault(frame) == Some(Error::FrameTooShort),
        frame.len() >= 14 ==> (frame_fault(frame) is None <==> nonzero(frame.subrange(0, 6))
            && unicast(frame.subrange(6, 12))),
        frame.len() >= 14 && frame_fault(frame) is Some ==> frame_fault(frame) == Some(
            Error::InvalidMac,
        ),
{
}

/// Every result code of the foundation means one error; zero alone means success.
pub proof fn law_result_codes(code: i32)
    ensures
        result_error(code) is None <==> code == 0,
        code == -22 ==> result_error(code) == Some(Error::InvalidArgument),
        code == -12 || code == -5 ==> result_error(code) == Some(Error::Io),
        code == -90 ==> result_error(code) == Some(Error::BufferTooSmall),
        code == -16 ==> result_error(code) == Some(Error::Busy),
        code == -95 ==> result_error(code) == Some(Error::Unsupported),
        code == -110 ==> result_error(code) == Some(Error::TimedOut),
        code == -107 || code == -1 ==> result_error(code) == Some(Error::NotConnected),
        code == -11 ==> result_error(code) == Some(Error::WouldBlock),
        code == -9 ==> result_error(code) == Some(Error::NotOpen),
        code == -19 || code == -100 ==> result_error(code) == Some(Error::NotReady),
        code == -71 ==> result_error(code) == Some(Error::Protocol),
        code != 0 && code != -22 && code != -12 && code != -5 && code != -90 && code != -16 && code
            != -95 && code != -110 && code != -107 && code != -1 && code != -11 && code != -9
            && code != -19 && code != -100 && code != -71 ==> result_error(code) == Some(
            Error::Fault,
        ),
{
}

/// The wire codes of a connect request.
pub proof fn law_connect_codes()
    ensures
        Security::Open.wire() == 0,
        Security::Wpa2Psk.wire() == 1,
        Security::Wpa2PskSha256.wire() == 2,
        Security::Wpa3Sae.wire() == 3,
        Security::Wpa3SaeH2e.wire() == 4,
        Security::Wpa3SaeAutomatic.wire() == 5,
        Security::WpaPsk.wire() == 6,
        Security::WpaAutomaticPersonal.wire() == 7,
        ManagementFrameProtection::Disabled.wire() == 0,
        ManagementFrameProtection::Optional.wire() == 1,
        ManagementFrameProtection::Required.wire() == 2,
        Band::Ghz2_4.wire() == 0,
        Band::Ghz5.wire() == 1,
        ChannelWidth::Mhz20.wire() == 1,
        ChannelWidth::Mhz40.wire() == 2,
        ChannelWidth::Mhz80.wire() == 3,
        ChannelWidth::Automatic.wire() == 255,
        InterfaceRole::Station.wire() == 0,
        InterfaceRole::AccessPoint.wire() == 1,
{
}

/// A connect request reaches the wire field by field; what it leaves open is 255,
/// and an absent access point address is zero.
pub proof fn law_connect_wire(request: ConnectRequest<'_>, wire: ConnectWire)
    requires
        call_ensures(ConnectRequest::to_wire, (request,), wire),
    ensures
        wire.security == request.security.wire(),
        wire.mfp == request.mfp.wire(),
        wire.bandwidth == request.channel_width.wire(),
        wire.timeout_ms == request.timeout_ms,
        request.band is None ==> wire.band == 255,
        request.band matches Some(band) ==> wire.band == (if band is Ghz5 {
            1u8
        } else {
            0u8
        }),
        request.channel is None ==> wire.channel == 255,
        request.channel matches Some(channel) ==> wire.channel == channel,
        wire.hidden_ssid == 1 <==> request.hidden_ssid is Hidden,
        wire.hidden_ssid <= 1,
        request.bssid is None ==> wire.bssid_set == 0 && wire.bssid@ == codec::zero_bytes(6),
        request.bssid matches Some(bssid) ==> wire.bssid_set == 1 && wire.bssid@ == bssid.octets(),
{
    assert(request.bssid is None ==> wire.bssid@ =~= codec::zero_bytes(6));
}

/// A request is acceptable exactly when it names a network, carries the passphrase
/// that its security asks for, names a channel only together with a band, and holds
/// neither quotes nor backslashes.
pub proof fn law_connect_limits(request: ConnectRequest<'_>, position: int)
    ensures
        request.acceptable() ==> 0 < request.ssid@.len() <= 32,
        request.acceptable() && request.security is Open ==> request.passphrase@.len() == 0,
        request.acceptable() && !(request.security is Open) ==> 8 <= request.passphrase@.len()
            <= 63,
        request.acceptable() && request.channel is Some ==> request.band is Some && 0
            < request.channel->0 < 255,
        request.acceptable() && 0 <= position < request.ssid@.len() ==> request.ssid@[position]
            != 0x22 && request.ssid@[position] != 0x5c,
        request.acceptable() && 0 <= position < request.passphrase@.len()
            ==> request.passphrase@[position] != 0x22 && request.passphrase@[position] != 0x5c,
        0 < request.ssid@.len() <= 32 && (request.security is Open ==> request.passphrase@.len()
            == 0) && (!(request.security is Open) ==> 8 <= request.passphrase@.len() <= 63) && (
        request.channel is Some ==> request.band is Some && 0 < request.channel->0 < 255) && (
        forall|i: int|
            0 <= i < request.ssid@.len() ==> #[trigger] request.ssid@[i] != 0x22 && request.ssid@[i]
                != 0x5c) && (forall|i: int|
            0 <= i < request.passphrase@.len() ==> #[trigger] request.passphrase@[i] != 0x22
                && request.passphrase@[i] != 0x5c) ==> request.acceptable(),
{
    if 0 <= position < request.ssid@.len() && unquotable(request.ssid@[position]) {
        assert(has_unquotable(request.ssid@));
    }
    if 0 <= position < request.passphrase@.len() && unquotable(request.passphrase@[position]) {
        assert(has_unquotable(request.passphrase@));
    }
}

/// The status and event codes of the foundation; the notification of a key frame is
/// no event and unknown codes are refused.
pub proof fn law_status_and_event_codes(value: u32)
    ensures
        status_of_wire(0) == Some(Status::Down),
        status_of_wire(1) == Some(Status::Ready),
        status_of_wire(2) == Some(Status::Connecting),
        status_of_wire(3) == Some(Status::Connected),
        status_of_wire(4) == Some(Status::Disconnected),
        status_of_wire(5) == Some(Status::Faulted),
        value > 5 ==> status_of_wire(value) is None,
        event_of_wire(0) == Some(None::<WifiEvent>),
        event_of_wire(1) == Some(Some(WifiEvent::Connected)),
        event_of_wire(2) == Some(Some(WifiEvent::Roamed)),
        event_of_wire(3) == Some(Some(WifiEvent::Disconnected)),
        event_of_wire(5) == Some(None::<WifiEvent>),
        value == 4 || value > 5 ==> event_of_wire(value) is None,
{
}

/// Interface metadata is taken only from the expected interface version, with a
/// station address, an MTU from 576 to 1586 and a known status.
pub proof fn law_interface_metadata(wire: InterfaceWire)
    ensures
        interface_fault(wire) is None <==> wire.abi_version == 0x2_0000 && wire.struct_size == 24
            && unicast(wire.mac@) && 576 <= wire.mtu <= 1586 && wire.status <= 5,
        wire.abi_version != 0x2_0000 || wire.struct_size != 24 ==> interface_fault(wire) == Some(
            Error::AbiMismatch,
        ),
        wire.abi_version == 0x2_0000 && wire.struct_size == 24 && !unicast(wire.mac@)
            ==> interface_fault(wire) == Some(Error::InvalidMac),
        wire.abi_version == 0x2_0000 && wire.struct_size == 24 && unicast(wire.mac@) && !(576
            <= wire.mtu <= 1586) ==> interface_fault(wire) == Some(Error::InvalidMtu),
{
}

/// A poll never reports a connection together with a status that denies it, nor a
/// loss together with a connected status.
pub proof fn law_events_agree_with_status(wire: PollWire)
    ensures
        polled(Ok::<PollWire, Error>(wire)) matches Ok(poll) ==> {
            &&& poll.event == Some(WifiEvent::Connected) || poll.event == Some(WifiEvent::Roamed)
                ==> poll.status is Connected
            &&& poll.event == Some(WifiEvent::Disconnected) ==> !(poll.status is Connected)
            &&& status_of_wire(wire.status) == Some(poll.status)
            &&& event_of_wire(wire.event) == Some(poll.event)
        },
        wire.status <= 5 && (wire.event == 0 || wire.event == 5) ==> polled(
            Ok::<PollWire, Error>(wire),
        ) is Ok,
        wire.status == 3 && (wire.event == 1 || wire.event == 2) ==> polled(
            Ok::<PollWire, Error>(wire),
        ) is Ok,
        wire.status <= 5 && wire.status != 3 && wire.event == 3 ==> polled(
            Ok::<PollWire, Error>(wire),
        ) is Ok,
        polled(Ok::<PollWire, Error>(wire)) matches Err(error) ==> error == Error::Protocol,
{
}

/// A received frame is delivered when it fits the buffer, the MTU and the slots and
/// is a data frame; a key frame is consumed, and a wait that ends is no error.
pub proof fn law_received_frames(answer: Result<usize, Error>, limit: usize, buffer: Seq<u8>)
    ensures
        answer == Err::<usize, Error>(Error::WouldBlock) || answer == Err::<usize, Error>(
            Error::TimedOut,
        ) ==> received(answer, Some(limit), buffer) == Ok::<ReceiveResult, Error>(
            ReceiveResult::Empty,
        ),
        answer matches Err(error) ==> error != Error::WouldBlock && error != Error::TimedOut
            ==> received(answer, Some(limit), buffer) == Err::<ReceiveResult, Error>(error),
        answer matches Ok(len) ==> {
            let outcome = received(answer, Some(limit), buffer);
            let frame = buffer.subrange(0, len as int);
            &&& len > buffer.len() ==> outcome == Err::<ReceiveResult, Error>(Error::Protocol)
            &&& len <= buffer.len() && (len > limit || len > 1600) ==> outcome == Err::<
                ReceiveResult,
                Error,
            >(Error::FrameTooLarge)
            &&& len <= buffer.len() && len <= limit && len < 14 ==> outcome == Err::<
                ReceiveResult,
                Error,
            >(Error::FrameTooShort)
            &&& 14 <= len <= buffer.len() && len <= limit && len <= 1600 ==> (if eapol_frame(
                frame,
            ) {
                outcome == Ok::<ReceiveResult, Error>(ReceiveResult::Filtered)
            } else if nonzero(frame.subrange(0, 6)) && unicast(frame.subrange(6, 12)) {
                outcome == Ok::<ReceiveResult, Error>(ReceiveResult::Frame(len))
            } else {
                outcome == Err::<ReceiveResult, Error>(Error::InvalidMac)
            })
        },
        received(answer, None, buffer) is Ok ==> answer is Err,
{
}

/// A frame may be sent exactly by a connected station, within its MTU, from its own
/// address, and when it is no key frame.
pub proof fn law_sendable_frames<B: Backend>(adapter: Adapter<B>, frame: Seq<u8>)
    requires
        adapter.wf(),
    ensures
        adapter.send_fault(frame) is None <==> adapter.opened && adapter.status is Connected && 14
            <= frame.len() <= 14 + adapter.interface->0.mtu.bytes() && !eapol_frame(frame)
            && nonzero(frame.subrange(0, 6)) && unicast(frame.subrange(6, 12))
            && frame.subrange(6, 12) == adapter.interface->0.mac.octets(),
        !adapter.opened ==> adapter.send_fault(frame) == Some(Error::NotOpen),
        adapter.opened && !(adapter.status is Connected) ==> adapter.send_fault(frame) == Some(
            Error::NotConnected,
        ),
        adapter.opened && adapter.status is Connected && 14 <= frame.len() <= 14
            + adapter.interface->0.mtu.bytes() && eapol_frame(frame) ==> adapter.send_fault(frame)
            == Some(Error::EapolFrame),
        adapter.opened && adapter.status is Connected && frame.len() > 14
            + adapter.interface->0.mtu.bytes() && adapter.interface->0.mtu.bytes() <= 1586
            ==> adapter.send_fault(frame) == Some(Error::FrameTooLarge),
{
}

/// A connection may be asked for exactly on an open endpoint that is neither
/// connected nor connecting.
pub proof fn law_connectable_endpoints<B: Backend>(
    adapter: Adapter<B>,
    request: ConnectRequest<'_>,
)
    ensures
        adapter.connect_fault(request) is None <==> adapter.opened && request.acceptable()
            && !(adapter.status is Connected) && !(adapter.status is Connecting),
        !adapter.opened ==> adapter.connect_fault(request) == Some(Error::NotOpen),
        adapter.opened && !request.acceptable() ==> adapter.connect_fault(request) == Some(
            Error::InvalidArgument,
        ),
        adapter.opened && request.acceptable() && (adapter.status is Connected
            || adapter.status is Connecting) ==> adapter.connect_fault(request) == Some(
            Error::Busy,
        ),
{
}

/// An MTU from 576 to 1586 bytes is accepted, and its frames are fourteen bytes
/// longer.
pub proof fn law_mtu_bounds(value: u16, result: Result<Mtu, Error>, mtu: Mtu, len: usize)
    requires
        call_ensures(Mtu::new, (value,), result),
        call_ensures(Mtu::frame_len, (mtu,), len),
    ensures
        result is Ok <==> 576 <= value <= 1586,
        result matches Ok(accepted) ==> accepted.bytes() == value,
        result matches Err(error) ==> error == Error::InvalidMtu,
        len == 14 + mtu.bytes(),
        len <= 1600,
{
}

/// Opening takes over the address, the MTU and the status that the foundation
/// reports, and only when they are valid.
pub proof fn law_opening_takes_the_interface_over<B: Backend>(
    wire: InterfaceWire,
    result: Result<(), Error>,
)
    ensures
        forall|adapter: &mut Adapter<B>| #[trigger]
            call_ensures(Adapter::<B>::finish_open, (adapter, wire), result) ==> {
                &&& result is Ok <==> interface_fault(wire) is None
                &&& result matches Err(error) ==> interface_fault(wire) == Some(error) && *final(adapter) == *adapter
                &&& result is Ok ==> final(adapter).opened && final(adapter).interface->0.mac.octets() == wire.mac@ && final(adapter).interface->0.mtu.bytes() == wire.mtu && status_of_wire(wire.status)
                    == Some(final(adapter).status)
            },
{
}

/// A request that the foundation accepts moves the status; one that it refuses leaves
/// it, and a poll that is malformed changes nothing.
pub proof fn law_answers_move_the_status<B: Backend>(
    answer: Result<(), Error>,
    polled_answer: Result<PollWire, Error>,
    connected: Result<(), Error>,
    disconnected: Result<(), Error>,
    poll: Result<PollResult, Error>,
)
    ensures
        forall|adapter: &mut Adapter<B>| #[trigger]
            call_ensures(Adapter::<B>::finish_connect, (adapter, answer), connected) ==> connected
                == answer && final(adapter).status == (if answer is Ok {
                Status::Connecting
            } else {
                adapter.status
            }),
        forall|adapter: &mut Adapter<B>| #[trigger]
            call_ensures(Adapter::<B>::finish_disconnect, (adapter, answer), disconnected)
                ==> disconnected == answer && final(adapter).status == (if answer is Ok {
                Status::Disconnected
            } else {
                adapter.status
            }),
        forall|adapter: &mut Adapter<B>| #[trigger]
            call_ensures(Adapter::<B>::finish_poll, (adapter, polled_answer), poll) ==> poll
                == polled(polled_answer) && final(adapter).status == (match poll {
                Ok(own) => own.status,
                Err(_) => adapter.status,
            }) && final(adapter).interface == adapter.interface,
{
}

} // verus!

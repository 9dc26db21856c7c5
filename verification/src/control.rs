//! Station control commands and control event parsing.
//!
//! Commands are written straight into caller storage.

use vstd::prelude::*;

use crate::bridge;
use crate::codec;
use crate::codec::Writer;
use crate::protocol;
use crate::protocol::{
    HostMessageRef, HostMessageType, InterfaceIds, ProtocolError, UmacCommand, UmacEvent,
    UmacHeader, HOST_MESSAGE_HEADER_LEN, MAX_SSID_LEN, UMAC_HEADER_LEN,
};

verus! {

broadcast use crate::codec::group_image_lengths;

/// Largest station command encoded by this module.
pub const MAX_STATION_MESSAGE_LEN: usize = 2048;

/// Most key material bytes of a key command.
pub const MAX_KEY_LEN: usize = 256;

/// Most key sequence bytes of a key command.
pub const MAX_KEY_SEQUENCE_LEN: usize = 256;

/// Most information-element bytes of a command.
pub const MAX_IE_LEN: usize = 400;

/// Most SAE element bytes of a command.
pub const MAX_SAE_LEN: usize = 256;

/// Most pairwise cipher suites of an association command.
pub const MAX_PAIRWISE_CIPHERS: usize = 7;

/// Most AKM suites of an association command.
pub const MAX_AKM_SUITES: usize = 2;

/// IEEE RSN CCMP-128 cipher suite selector.
pub const RSN_CIPHER_CCMP_128: u32 = 0x000f_ac04;

/// IEEE RSN GCMP-128 cipher suite selector.
pub const RSN_CIPHER_GCMP_128: u32 = 0x000f_ac08;

/// IEEE RSN BIP-CMAC-128 management cipher selector.
pub const RSN_CIPHER_BIP_CMAC_128: u32 = 0x000f_ac06;

/// IEEE RSN PSK AKM suite selector.
pub const RSN_AKM_PSK: u32 = 0x000f_ac02;

/// IEEE RSN SAE AKM suite selector.
pub const RSN_AKM_SAE: u32 = 0x000f_ac08;

/// IEEE RSN PSK-SHA256 AKM suite selector.
pub const RSN_AKM_PSK_SHA256: u32 = 0x000f_ac06;

/// IEEE 802.1X controlled-port EtherType.
pub const EAPOL_ETHERTYPE: u16 = 0x888e;

/// Length of a key block.
pub const KEY_INFO_LEN: usize = 535;

/// Length of an authentication body.
pub const AUTH_BODY_LEN: usize = 1676;

/// Length of an association body.
pub const ASSOC_BODY_LEN: usize = 1573;

/// Length of a key command body.
pub const KEY_BODY_LEN: usize = 545;

/// Length of a station authorization body.
pub const STATION_BODY_LEN: usize = 793;

/// Length of the fixed part of an MLME event body.
pub const MLME_FIXED_BODY_LEN: usize = 439;

/// Most frame bytes of an MLME event.
pub const MAX_MLME_FRAME_LEN: usize = 400;

/// Length of the fixed part of a scan-result body.
pub const SCAN_RESULT_FIXED_BODY_LEN: usize = 70;

/// Full authentication host-message length.
pub const AUTH_MESSAGE_LEN: usize = HOST_MESSAGE_HEADER_LEN + UMAC_HEADER_LEN + AUTH_BODY_LEN;

/// Full association host-message length.
pub const ASSOC_MESSAGE_LEN: usize = HOST_MESSAGE_HEADER_LEN + UMAC_HEADER_LEN + ASSOC_BODY_LEN;

/// Full key command host-message length.
pub const KEY_MESSAGE_LEN: usize = HOST_MESSAGE_HEADER_LEN + UMAC_HEADER_LEN + KEY_BODY_LEN;

/// The authentication key block is present.
pub const AUTH_KEY_INFO_VALID: u32 = 1;

/// The authentication frequency is present.
pub const AUTH_FREQUENCY_VALID: u32 = 4;

/// The authentication SSID is present.
pub const AUTH_SSID_VALID: u32 = 8;

/// The authentication SAE element is present.
pub const AUTH_SAE_VALID: u32 = 32;

/// Authentication is a local state change only.
pub const AUTH_LOCAL_STATE_CHANGE: u16 = 1;

/// The association names a previous BSSID.
pub const ASSOC_PREVIOUS_BSSID_VALID: u32 = 1;

/// The BSSID is present.
pub const CONNECT_MAC_VALID: u32 = 1;

/// The frequency is present.
pub const CONNECT_FREQUENCY_VALID: u32 = 4;

/// The background scan period is present.
pub const CONNECT_BG_SCAN_VALID: u32 = 16;

/// The SSID is present.
pub const CONNECT_SSID_VALID: u32 = 32;

/// The RSN information element is present.
pub const CONNECT_WPA_IE_VALID: u32 = 64;

/// The WPA version set is present.
pub const CONNECT_WPA_VERSIONS_VALID: u32 = 128;

/// The pairwise suites are present.
pub const CONNECT_PAIRWISE_VALID: u32 = 256;

/// The group suite is present.
pub const CONNECT_GROUP_VALID: u32 = 512;

/// The AKM suites are present.
pub const CONNECT_AKM_VALID: u32 = 1024;

/// The management-frame protection mode is present.
pub const CONNECT_MFP_VALID: u32 = 2048;

/// The controlled-port EtherType is present.
pub const CONNECT_CONTROL_PORT_ETHERTYPE_VALID: u32 = 4096;

/// The controlled-port encryption flag is present.
pub const CONNECT_CONTROL_PORT_NO_ENCRYPT_VALID: u32 = 8192;

/// The previous BSSID is present.
pub const CONNECT_PREVIOUS_BSSID_VALID: u32 = 32768;

/// The security fields are present.
pub const CONNECT_SECURITY_VALID: u32 = 65536;

/// WPA version 2.
pub const WPA_VERSION_2: u32 = 2;

/// Key material is present.
pub const KEY_DATA_VALID: u32 = 1;

/// The key category is present.
pub const KEY_TYPE_VALID: u32 = 2;

/// The key index is present.
pub const KEY_INDEX_VALID: u32 = 4;

/// The key sequence is present.
pub const KEY_SEQUENCE_VALID: u32 = 8;

/// The cipher suite is present.
pub const KEY_CIPHER_VALID: u32 = 16;

/// The key command names a peer.
pub const KEY_MAC_VALID: u32 = 1;

/// The station flags are present.
pub const SET_STATION_FLAGS_VALID: u32 = 4096;

/// The controlled port of the station is authorized.
pub const STATION_FLAG_AUTHORIZED: u32 = 2;

/// Identifier of the regulatory change event.
pub const EVENT_REGULATORY_CHANGE: u32 = 289;

/// Authentication method used by the firmware MLME command.
#[derive(Clone, Copy, Debug, PartialEq, Eq, Structural)]
pub enum AuthenticationType {
    OpenSystem,
    SharedKey,
    FastTransition,
    NetworkEap,
    Sae,
    Automatic,
}

impl AuthenticationType {
    /// The value on the wire.
    pub open spec fn wire(self) -> i32 {
        match self {
            AuthenticationType::OpenSystem => 0,
            AuthenticationType::SharedKey => 1,
            AuthenticationType::FastTransition => 2,
            AuthenticationType::NetworkEap => 3,
            AuthenticationType::Sae => 4,
            AuthenticationType::Automatic => 6,
        }
    }

    /// Returns the value on the wire.
    pub fn code(self) -> (value: i32)
        ensures
            value == self.wire(),
    {
        match self {
            AuthenticationType::OpenSystem => 0,
            AuthenticationType::SharedKey => 1,
            AuthenticationType::FastTransition => 2,
            AuthenticationType::NetworkEap => 3,
            AuthenticationType::Sae => 4,
            AuthenticationType::Automatic => 6,
        }
    }
}

/// Firmware key category.
#[derive(Clone, Copy, Debug, PartialEq, Eq, Structural)]
pub enum KeyType {
    Group,
    Pairwise,
    Peer,
}

impl KeyType {
    /// The value on the wire.
    pub open spec fn wire(self) -> i32 {
        match self {
            KeyType::Group => 0,
            KeyType::Pairwise => 1,
            KeyType::Peer => 2,
        }
    }

    /// Returns the value on the wire.
    pub fn code(self) -> (value: i32)
        ensures
            value == self.wire(),
    {
        match self {
            KeyType::Group => 0,
            KeyType::Pairwise => 1,
            KeyType::Peer => 2,
        }
    }
}

/// Management-frame protection setting.
#[derive(Clone, Copy, Debug, PartialEq, Eq, Structural)]
pub enum MfpMode {
    Disabled,
    Required,
}

impl MfpMode {
    /// The value on the wire.
    pub open spec fn wire(self) -> i32 {
        match self {
            MfpMode::Disabled => 0,
            MfpMode::Required => 1,
        }
    }

    /// Returns the value on the wire.
    pub fn code(self) -> (value: i32)
        ensures
            value == self.wire(),
    {
        match self {
            MfpMode::Disabled => 0,
            MfpMode::Required => 1,
        }
    }
}

/// Firmware connection protection mode.
#[derive(Clone, Copy, Debug, PartialEq, Eq, Structural)]
pub enum ConnectionType {
    Open,
    Secure,
}

impl ConnectionType {
    /// The value on the wire.
    pub open spec fn wire(self) -> u8 {
        match self {
            ConnectionType::Open => 0,
            ConnectionType::Secure => 1,
        }
    }

    /// Returns the value on the wire.
    pub fn code(self) -> (value: u8)
        ensures
            value == self.wire(),
    {
        match self {
            ConnectionType::Open => 0,
            ConnectionType::Secure => 1,
        }
    }
}

/// Firmware power-save state.
#[derive(Clone, Copy, Debug, PartialEq, Eq, Structural)]
pub enum PowerSaveState {
    Disabled,
    Enabled,
}

impl PowerSaveState {
    /// The value on the wire.
    pub open spec fn wire(self) -> i32 {
        match self {
            PowerSaveState::Disabled => 0,
            PowerSaveState::Enabled => 1,
        }
    }

    /// Returns the value on the wire.
    pub fn code(self) -> (value: i32)
        ensures
            value == self.wire(),
    {
        match self {
            PowerSaveState::Disabled => 0,
            PowerSaveState::Enabled => 1,
        }
    }
}

/// Security-key material for a key command.
pub struct KeyConfig<'a> {
    pub cipher_suite: u32,
    pub key_type: KeyType,
    pub key_index: u8,
    pub key: &'a [u8],
    pub sequence: &'a [u8],
    /// Firmware key flags, such as default-key flags.
    pub flags: u16,
}

impl<'a> KeyConfig<'a> {
    /// Whether every field fits its wire capacity.
    pub open spec fn within_limits(&self) -> bool {
        &&& self.key@.len() <= MAX_KEY_LEN
        &&& self.sequence@.len() <= MAX_KEY_SEQUENCE_LEN
        &&& self.key_index <= 3
    }

    /// The validity bits of an installed key.
    pub open spec fn mask(&self) -> u32 {
        (protocol::flag(self.key@.len() > 0) * KEY_DATA_VALID + KEY_TYPE_VALID + KEY_INDEX_VALID
            + protocol::flag(self.sequence@.len() > 0) * KEY_SEQUENCE_VALID + KEY_CIPHER_VALID) as u32
    }

    /// Validity bits, suite, flags and category.
    pub open spec fn header_bytes(&self) -> Seq<u8> {
        codec::le32(self.mask()) + codec::le32(self.cipher_suite) + codec::le16(self.flags)
            + codec::le32(self.key_type.wire() as u32)
    }

    /// Key material, sequence and index.
    pub open spec fn material_bytes(&self) -> Seq<u8> {
        codec::le32(self.key@.len() as u32) + codec::padded(self.key@, MAX_KEY_LEN as nat)
            + codec::le32(self.sequence@.len() as u32) + codec::padded(
            self.sequence@,
            MAX_KEY_SEQUENCE_LEN as nat,
        ) + seq![self.key_index]
    }

    /// The key block of an install, delete or authentication command.
    pub open spec fn image(&self) -> Seq<u8> {
        self.header_bytes() + self.material_bytes()
    }

    /// The key block that selects a default key: only the index and the
    /// flags are carried, the material stays zero.
    pub open spec fn default_image(&self) -> Seq<u8> {
        (codec::le32(KEY_INDEX_VALID) + codec::le32(0) + codec::le16(self.flags) + codec::le32(0))
            + (codec::le32(0) + codec::zero_bytes(MAX_KEY_LEN as nat) + codec::le32(0)
            + codec::zero_bytes(MAX_KEY_SEQUENCE_LEN as nat) + seq![self.key_index])
    }

    /// Creates one pairwise key with no sequence value.
    pub fn pairwise(cipher_suite: u32, key_index: u8, key: &'a [u8]) -> (config: Self)
        ensures
            config.cipher_suite == cipher_suite,
            config.key_type == KeyType::Pairwise,
            config.key_index == key_index,
            config.key@ == key@,
            config.sequence@.len() == 0,
            config.flags == 0,
    {
        KeyConfig {
            cipher_suite,
            key_type: KeyType::Pairwise,
            key_index,
            key,
            sequence: &[],
            flags: 0,
        }
    }
}

/// The key block of a command whose key is optional.
pub open spec fn optional_key_image(key: Option<&KeyConfig<'_>>) -> Seq<u8> {
    match key {
        Some(config) => config.image(),
        None => codec::zero_bytes(KEY_INFO_LEN as nat),
    }
}

/// BSS metadata copied from a trusted scan result into authentication.
pub struct BssContext<'a> {
    pub scan_width: i32,
    pub signal_dbm: i32,
    pub from_beacon: bool,
    pub information_elements: &'a [u8],
    pub capability: u16,
    pub beacon_interval: u16,
    pub tsf: u64,
}

impl<'a> Default for BssContext<'a> {
    fn default() -> (context: Self)
        ensures
            context.scan_width == 0,
            context.signal_dbm == 0,
            !context.from_beacon,
            context.information_elements@.len() == 0,
            context.capability == 0,
            context.beacon_interval == 0,
            context.tsf == 0,
    {
        BssContext {
            scan_width: 0,
            signal_dbm: 0,
            from_beacon: false,
            information_elements: &[],
            capability: 0,
            beacon_interval: 0,
            tsf: 0,
        }
    }
}

/// An SSID field: its length and 32 bytes of storage.
pub open spec fn ssid_image(ssid: Seq<u8>) -> Seq<u8> {
    seq![ssid.len() as u8] + codec::padded(ssid, MAX_SSID_LEN as nat)
}

/// An information-element field: its length and 400 bytes of storage.
pub open spec fn ie_image(ie: Seq<u8>) -> Seq<u8> {
    codec::le16(ie.len() as u16) + codec::padded(ie, MAX_IE_LEN as nat)
}

/// Authentication command input.
pub struct AuthenticationRequest<'a> {
    pub frequency_mhz: u32,
    pub bssid: [u8; 6],
    pub ssid: &'a [u8],
    pub auth_type: AuthenticationType,
    pub local_state_change: bool,
    pub information_elements: &'a [u8],
    pub sae_data: &'a [u8],
    pub key: Option<&'a KeyConfig<'a>>,
    pub bss: BssContext<'a>,
}

impl<'a> AuthenticationRequest<'a> {
    /// Whether every field fits its wire capacity.
    pub open spec fn within_limits(&self) -> bool {
        &&& self.ssid@.len() <= MAX_SSID_LEN
        &&& self.information_elements@.len() <= MAX_IE_LEN
        &&& self.bss.information_elements@.len() <= MAX_IE_LEN
        &&& self.sae_data@.len() <= MAX_SAE_LEN
        &&& self.key matches Some(key) ==> key.within_limits()
    }

    /// The validity bits. The BSSID and the information elements have none.
    pub open spec fn mask(&self) -> u32 {
        (AUTH_FREQUENCY_VALID + AUTH_SSID_VALID + protocol::flag(self.key is Some)
            * AUTH_KEY_INFO_VALID + protocol::flag(self.sae_data@.len() > 0) * AUTH_SAE_VALID) as u32
    }

    /// Validity bits, frequency, state-change flag and method.
    pub open spec fn header_bytes(&self) -> Seq<u8> {
        codec::le32(self.mask()) + codec::le32(self.frequency_mhz) + codec::le16(
            (protocol::flag(self.local_state_change) * AUTH_LOCAL_STATE_CHANGE) as u16,
        ) + codec::le32(self.auth_type.wire() as u32)
    }

    /// Key block, SSID and information elements.
    pub open spec fn security_bytes(&self) -> Seq<u8> {
        optional_key_image(self.key) + ssid_image(self.ssid@) + ie_image(self.information_elements@)
    }

    /// SAE element and BSSID.
    pub open spec fn sae_bytes(&self) -> Seq<u8> {
        codec::le32(self.sae_data@.len() as u32) + codec::padded(self.sae_data@, MAX_SAE_LEN as nat)
            + self.bssid@
    }

    /// The observed BSS.
    pub open spec fn bss_bytes(&self) -> Seq<u8> {
        (codec::le32(self.bss.scan_width as u32) + codec::le32(self.bss.signal_dbm as u32)
            + codec::le32(protocol::flag(self.bss.from_beacon) as u32) + ie_image(
            self.bss.information_elements@,
        )) + (codec::le16(self.bss.capability) + codec::le16(self.bss.beacon_interval)
            + codec::le64(self.bss.tsf))
    }

    /// Body of the authentication command.
    pub open spec fn body(&self) -> Seq<u8> {
        self.header_bytes() + self.security_bytes() + self.sae_bytes() + self.bss_bytes()
    }
}

/// Association security fields.
pub struct AssociationSecurity<'a> {
    pub pairwise_ciphers: &'a [u32],
    pub group_cipher: u32,
    pub akm_suites: &'a [u32],
    pub mfp: MfpMode,
    pub rsn_information_element: &'a [u8],
}

impl<'a> AssociationSecurity<'a> {
    /// Both suite lists are non-empty and every field fits its wire capacity.
    pub open spec fn within_limits(&self) -> bool {
        &&& self.rsn_information_element@.len() <= MAX_IE_LEN
        &&& 1 <= self.pairwise_ciphers@.len() <= MAX_PAIRWISE_CIPHERS
        &&& 1 <= self.akm_suites@.len() <= MAX_AKM_SUITES
    }
}

/// The pairwise, group and AKM suites and the protection mode.
pub open spec fn suite_bytes(
    pairwise: Seq<u32>,
    group: u32,
    akm: Seq<u32>,
    mfp: MfpMode,
) -> Seq<u8> {
    (codec::le32(pairwise.len() as u32) + codec::padded(
        codec::le32_list(pairwise),
        (4 * MAX_PAIRWISE_CIPHERS) as nat,
    )) + (codec::le32(group) + codec::le32(akm.len() as u32) + codec::padded(
        codec::le32_list(akm),
        (4 * MAX_AKM_SUITES) as nat,
    ) + codec::le32(mfp.wire() as u32))
}

/// Association command input.
pub struct AssociationRequest<'a> {
    pub frequency_mhz: u32,
    pub bssid: [u8; 6],
    pub ssid: &'a [u8],
    pub security: Option<AssociationSecurity<'a>>,
    pub background_scan_period_s: u16,
    pub previous_bssid: Option<[u8; 6]>,
    pub bss_max_idle_s: u16,
}

impl<'a> AssociationRequest<'a> {
    /// Whether every field fits its wire capacity.
    pub open spec fn within_limits(&self) -> bool {
        &&& self.ssid@.len() <= MAX_SSID_LEN
        &&& self.security matches Some(security) ==> security.within_limits()
    }

    /// The connect validity bits.
    pub open spec fn mask(&self) -> u32 {
        (CONNECT_MAC_VALID + CONNECT_FREQUENCY_VALID + CONNECT_SSID_VALID
            + CONNECT_CONTROL_PORT_ETHERTYPE_VALID + CONNECT_CONTROL_PORT_NO_ENCRYPT_VALID
            + protocol::flag(self.background_scan_period_s != 0) * CONNECT_BG_SCAN_VALID
            + protocol::flag(self.previous_bssid is Some) * CONNECT_PREVIOUS_BSSID_VALID
            + (if self.security is Some {
            CONNECT_WPA_IE_VALID + CONNECT_WPA_VERSIONS_VALID + CONNECT_PAIRWISE_VALID
                + CONNECT_GROUP_VALID + CONNECT_AKM_VALID + CONNECT_MFP_VALID
                + CONNECT_SECURITY_VALID
        } else {
            0
        })) as u32
    }

    /// Validity words, frequency and WPA version.
    pub open spec fn header_bytes(&self) -> Seq<u8> {
        codec::le32(
            (protocol::flag(self.previous_bssid is Some) * ASSOC_PREVIOUS_BSSID_VALID) as u32,
        ) + codec::le32(self.mask()) + codec::le32(self.frequency_mhz) + codec::le32(0)
            + codec::le32((protocol::flag(self.security is Some) * WPA_VERSION_2) as u32)
    }

    /// The suites, or zeros for an open network.
    pub open spec fn cipher_bytes(&self) -> Seq<u8> {
        match self.security {
            Some(security) => suite_bytes(
                security.pairwise_ciphers@,
                security.group_cipher,
                security.akm_suites@,
                security.mfp,
            ),
            None => suite_bytes(Seq::empty(), 0, Seq::empty(), MfpMode::Disabled),
        }
    }

    /// The RSN information element, empty for an open network.
    pub open spec fn rsn(&self) -> Seq<u8> {
        match self.security {
            Some(security) => security.rsn_information_element@,
            None => Seq::empty(),
        }
    }

    /// Scan period, addresses, SSID and RSN element.
    pub open spec fn network_bytes(&self) -> Seq<u8> {
        (codec::le32(0) + codec::le16(self.background_scan_period_s) + self.bssid@
            + codec::zero_bytes(6)) + (ssid_image(self.ssid@) + ie_image(self.rsn()))
    }

    /// The previous BSSID, or zeros.
    pub open spec fn previous(&self) -> Seq<u8> {
        match self.previous_bssid {
            Some(bssid) => bssid@,
            None => codec::zero_bytes(6),
        }
    }

    /// The previous BSSID around the idle limit.
    pub open spec fn previous_bytes(&self) -> Seq<u8> {
        self.previous() + codec::le16(self.bss_max_idle_s) + self.previous()
    }

    /// Body of the association command.
    pub open spec fn body(&self) -> Seq<u8> {
        self.header_bytes() + self.cipher_bytes() + self.network_bytes() + control_port_bytes()
            + self.previous_bytes()
    }
}

/// The controlled-port fields: EAPOL travels unencrypted.
pub open spec fn control_port_bytes() -> Seq<u8> {
    codec::le32(0) + codec::le16(0) + codec::zero_bytes(1024) + codec::le16(EAPOL_ETHERTYPE)
        + seq![1u8] + seq![1u8]
}

/// Why a station command of this body length cannot be encoded, if it cannot.
pub open spec fn station_fault(out_len: nat, body_len: nat) -> Option<ProtocolError> {
    let total = HOST_MESSAGE_HEADER_LEN + UMAC_HEADER_LEN + body_len;
    if total > usize::MAX {
        Some(ProtocolError::InvalidLength)
    } else if total > out_len || total > MAX_STATION_MESSAGE_LEN {
        Some(ProtocolError::BufferTooSmall)
    } else {
        None
    }
}

/// Identifiers of a command that may name a wireless device.
pub open spec fn optional_wdev_ids(wdev_id: Option<u32>) -> InterfaceIds {
    match wdev_id {
        Some(wdev_id) => protocol::wdev_ids(wdev_id),
        None => InterfaceIds { ifaceindex: None, wiphy_index: None, wdev_id: None },
    }
}

/// The wire image of a station command.
pub open spec fn station_command(
    command: UmacCommand,
    wdev_id: Option<u32>,
    body: Seq<u8>,
) -> Seq<u8> {
    protocol::umac_command(command, optional_wdev_ids(wdev_id), body)
}

/// Checks that a command body fits the caller's storage.
pub fn validated_station_message_len(out_len: usize, body_len: usize) -> (result: Result<
    usize,
    ProtocolError,
>)
    ensures
        match result {
            Ok(total) => station_fault(out_len as nat, body_len as nat) is None && total
                == HOST_MESSAGE_HEADER_LEN + UMAC_HEADER_LEN + body_len,
            Err(error) => station_fault(out_len as nat, body_len as nat) == Some(error),
        },
{
    let headers: usize = HOST_MESSAGE_HEADER_LEN + UMAC_HEADER_LEN;
    let total: usize = match headers.checked_add(body_len) {
        Some(total) => total,
        None => return Err(ProtocolError::InvalidLength),
    };
    if total > out_len {
        return Err(ProtocolError::BufferTooSmall);
    }
    if total > MAX_STATION_MESSAGE_LEN {
        return Err(ProtocolError::BufferTooSmall);
    }
    Ok(total)
}

/// Writes the host and UMAC headers of a station command of `total` bytes.
pub fn write_station_headers(
    writer: &mut Writer<'_>,
    total: usize,
    command: UmacCommand,
    wdev_id: Option<u32>,
) -> (result: Result<(), ProtocolError>)
    requires
        old(writer).wf(),
        old(writer).rest().len() >= 48,
        total <= MAX_STATION_MESSAGE_LEN,
    ensures
        result is Ok,
        final(writer).wf(),
        final(final(writer).bytes)@ == final(old(writer).bytes)@,
        final(writer).written() == old(writer).written() + (codec::le32(total as u32) + codec::le32(0)
            + codec::le32(3) + protocol::umac_header(command.wire(), optional_wdev_ids(wdev_id))),
        final(writer).rest() == old(writer).rest().skip(48),
{
    let ids = match wdev_id {
        Some(wdev_id) => InterfaceIds::wdev(wdev_id),
        None => InterfaceIds::none(),
    };
    writer.u32(total as u32)?;
    writer.u32(0)?;
    writer.i32(HostMessageType::Umac.code())?;
    protocol::write_umac_header(writer, command, ids)
}

/// Ends a station command, which must have reached its declared length.
pub fn finish_station_message(writer: Writer<'_>, total: usize) -> (result: Result<
    usize,
    ProtocolError,
>)
    requires
        writer.wf(),
    ensures
        final(writer.bytes)@ == writer.written() + writer.rest(),
        result == (if writer.written().len() == total {
            Ok::<usize, ProtocolError>(total)
        } else {
            Err::<usize, ProtocolError>(ProtocolError::InvalidLength)
        }),
{
    if writer.finish() != total {
        return Err(ProtocolError::InvalidLength);
    }
    Ok(total)
}

fn validate_ssid(ssid: &[u8]) -> (result: Result<(), ProtocolError>)
    ensures
        result == (if ssid@.len() > MAX_SSID_LEN {
            Err(ProtocolError::LimitExceeded)
        } else {
            Ok(())
        }),
{
    if ssid.len() > MAX_SSID_LEN {
        Err(ProtocolError::LimitExceeded)
    } else {
        Ok(())
    }
}

fn validate_ie(ie: &[u8]) -> (result: Result<(), ProtocolError>)
    ensures
        result == (if ie@.len() > MAX_IE_LEN {
            Err(ProtocolError::LimitExceeded)
        } else {
            Ok(())
        }),
{
    if ie.len() > MAX_IE_LEN {
        Err(ProtocolError::LimitExceeded)
    } else {
        Ok(())
    }
}

/// Checks every wire capacity of a key.
pub fn validate_key(key: &KeyConfig<'_>) -> (result: Result<(), ProtocolError>)
    ensures
        result == (if key.within_limits() {
            Ok(())
        } else {
            Err(ProtocolError::LimitExceeded)
        }),
{
    if key.key.len() > MAX_KEY_LEN {
        return Err(ProtocolError::LimitExceeded);
    }
    if key.sequence.len() > MAX_KEY_SEQUENCE_LEN {
        return Err(ProtocolError::LimitExceeded);
    }
    if key.key_index > 3 {
        return Err(ProtocolError::LimitExceeded);
    }
    Ok(())
}

/// Checks every wire capacity of an authentication request.
pub fn validate_authentication_request(request: &AuthenticationRequest<'_>) -> (result: Result<
    (),
    ProtocolError,
>)
    ensures
        result == (if request.within_limits() {
            Ok(())
        } else {
            Err(ProtocolError::LimitExceeded)
        }),
{
    validate_ssid(request.ssid)?;
    validate_ie(request.information_elements)?;
    validate_ie(request.bss.information_elements)?;
    if request.sae_data.len() > MAX_SAE_LEN {
        return Err(ProtocolError::LimitExceeded);
    }
    if let Some(key) = request.key {
        validate_key(key)?;
    }
    Ok(())
}

/// Checks every wire capacity of an association request.
pub fn validate_association_request(request: &AssociationRequest<'_>) -> (result: Result<
    (),
    ProtocolError,
>)
    ensures
        result == (if request.within_limits() {
            Ok(())
        } else {
            Err(ProtocolError::LimitExceeded)
        }),
{
    validate_ssid(request.ssid)?;
    if let Some(security) = &request.security {
        validate_ie(security.rsn_information_element)?;
        validate_association_security_counts(security)?;
    }
    Ok(())
}

fn validate_association_security_counts(security: &AssociationSecurity<'_>) -> (result: Result<
    (),
    ProtocolError,
>)
    ensures
        result == (if 1 <= security.pairwise_ciphers@.len() <= MAX_PAIRWISE_CIPHERS && 1
            <= security.akm_suites@.len() <= MAX_AKM_SUITES {
            Ok(())
        } else {
            Err(ProtocolError::LimitExceeded)
        }),
{
    if security.pairwise_ciphers.len() == 0 || security.pairwise_ciphers.len()
        > MAX_PAIRWISE_CIPHERS {
        return Err(ProtocolError::LimitExceeded);
    }
    if security.akm_suites.len() == 0 || security.akm_suites.len() > MAX_AKM_SUITES {
        return Err(ProtocolError::LimitExceeded);
    }
    Ok(())
}

fn write_ssid(writer: &mut Writer<'_>, ssid: &[u8]) -> (result: Result<(), ProtocolError>)
    requires
        old(writer).wf(),
        old(writer).rest().len() >= 33,
        ssid@.len() <= MAX_SSID_LEN,
    ensures
        result is Ok,
        final(writer).wf(),
        final(final(writer).bytes)@ == final(old(writer).bytes)@,
        final(writer).written() == old(writer).written() + ssid_image(ssid@),
        final(writer).rest() == old(writer).rest().skip(33),
{
    writer.u8(ssid.len() as u8)?;
    writer.fixed(ssid, MAX_SSID_LEN)
}

fn write_ie(writer: &mut Writer<'_>, ie: &[u8]) -> (result: Result<(), ProtocolError>)
    requires
        old(writer).wf(),
        old(writer).rest().len() >= 402,
        ie@.len() <= MAX_IE_LEN,
    ensures
        result is Ok,
        final(writer).wf(),
        final(final(writer).bytes)@ == final(old(writer).bytes)@,
        final(writer).written() == old(writer).written() + ie_image(ie@),
        final(writer).rest() == old(writer).rest().skip(402),
{
    writer.u16(ie.len() as u16)?;
    writer.fixed(ie, MAX_IE_LEN)
}

fn write_key_info_header(
    writer: &mut Writer<'_>,
    key: &KeyConfig<'_>,
) -> (result: Result<(), ProtocolError>)
    requires
        old(writer).wf(),
        old(writer).rest().len() >= 14,
    ensures
        result is Ok,
        final(writer).wf(),
        final(final(writer).bytes)@ == final(old(writer).bytes)@,
        final(writer).written() == old(writer).written() + key.header_bytes(),
        final(writer).rest() == old(writer).rest().skip(14),
{
    let mut valid: u32 = KEY_TYPE_VALID + KEY_INDEX_VALID + KEY_CIPHER_VALID;
    if key.key.len() > 0 {
        valid = valid + KEY_DATA_VALID;
    }
    if key.sequence.len() > 0 {
        valid = valid + KEY_SEQUENCE_VALID;
    }
    writer.u32(valid)?;
    writer.u32(key.cipher_suite)?;
    writer.u16(key.flags)?;
    writer.i32(key.key_type.code())
}

fn write_key_info_material(
    writer: &mut Writer<'_>,
    key: &KeyConfig<'_>,
) -> (result: Result<(), ProtocolError>)
    requires
        old(writer).wf(),
        old(writer).rest().len() >= 521,
        key.within_limits(),
    ensures
        result is Ok,
        final(writer).wf(),
        final(final(writer).bytes)@ == final(old(writer).bytes)@,
        final(writer).written() == old(writer).written() + key.material_bytes(),
        final(writer).rest() == old(writer).rest().skip(521),
{
    writer.u32(key.key.len() as u32)?;
    writer.fixed(key.key, MAX_KEY_LEN)?;
    writer.i32(key.sequence.len() as i32)?;
    writer.fixed(key.sequence, MAX_KEY_SEQUENCE_LEN)?;
    writer.u8(key.key_index)
}

fn write_key_info(
    writer: &mut Writer<'_>,
    key: Option<&KeyConfig<'_>>,
) -> (result: Result<(), ProtocolError>)
    requires
        old(writer).wf(),
        old(writer).rest().len() >= KEY_INFO_LEN as int,
        key matches Some(config) ==> config.within_limits(),
    ensures
        result is Ok,
        final(writer).wf(),
        final(final(writer).bytes)@ == final(old(writer).bytes)@,
        final(writer).written() == old(writer).written() + optional_key_image(key),
        final(writer).rest() == old(writer).rest().skip(KEY_INFO_LEN as int),
{
    match key {
        None => writer.zeros(KEY_INFO_LEN),
        Some(key) => {
            write_key_info_header(writer, key)?;
            write_key_info_material(writer, key)
        },
    }
}

fn write_default_key_header(
    writer: &mut Writer<'_>,
    key: &KeyConfig<'_>,
) -> (result: Result<(), ProtocolError>)
    requires
        old(writer).wf(),
        old(writer).rest().len() >= 14,
    ensures
        result is Ok,
        final(writer).wf(),
        final(final(writer).bytes)@ == final(old(writer).bytes)@,
        final(writer).written() == old(writer).written() + (codec::le32(KEY_INDEX_VALID)
            + codec::le32(0) + codec::le16(key.flags) + codec::le32(0)),
        final(writer).rest() == old(writer).rest().skip(14),
{
    writer.u32(KEY_INDEX_VALID)?;
    writer.u32(0)?;
    writer.u16(key.flags)?;
    writer.u32(0)
}

fn write_default_key_material(
    writer: &mut Writer<'_>,
    key: &KeyConfig<'_>,
) -> (result: Result<(), ProtocolError>)
    requires
        old(writer).wf(),
        old(writer).rest().len() >= 521,
    ensures
        result is Ok,
        final(writer).wf(),
        final(final(writer).bytes)@ == final(old(writer).bytes)@,
        final(writer).written() == old(writer).written() + (codec::le32(0)
            + codec::zero_bytes(MAX_KEY_LEN as nat) + codec::le32(0)
            + codec::zero_bytes(MAX_KEY_SEQUENCE_LEN as nat) + seq![key.key_index]),
        final(writer).rest() == old(writer).rest().skip(521),
{
    writer.u32(0)?;
    writer.zeros(MAX_KEY_LEN)?;
    writer.u32(0)?;
    writer.zeros(MAX_KEY_SEQUENCE_LEN)?;
    writer.u8(key.key_index)
}

fn write_default_key_info(
    writer: &mut Writer<'_>,
    key: &KeyConfig<'_>,
) -> (result: Result<(), ProtocolError>)
    requires
        old(writer).wf(),
        old(writer).rest().len() >= KEY_INFO_LEN as int,
    ensures
        result is Ok,
        final(writer).wf(),
        final(final(writer).bytes)@ == final(old(writer).bytes)@,
        final(writer).written() == old(writer).written() + key.default_image(),
        final(writer).rest() == old(writer).rest().skip(KEY_INFO_LEN as int),
{
    write_default_key_header(writer, key)?;
    write_default_key_material(writer, key)
}

fn write_authentication_header(
    writer: &mut Writer<'_>,
    request: &AuthenticationRequest<'_>,
) -> (result: Result<(), ProtocolError>)
    requires
        old(writer).wf(),
        old(writer).rest().len() >= 14,
    ensures
        result is Ok,
        final(writer).wf(),
        final(final(writer).bytes)@ == final(old(writer).bytes)@,
        final(writer).written() == old(writer).written() + request.header_bytes(),
        final(writer).rest() == old(writer).rest().skip(14),
{
    let mut valid: u32 = AUTH_FREQUENCY_VALID + AUTH_SSID_VALID;
    if request.key.is_some() {
        valid = valid + AUTH_KEY_INFO_VALID;
    }
    if request.sae_data.len() > 0 {
        valid = valid + AUTH_SAE_VALID;
    }
    writer.u32(valid)?;
    writer.u32(request.frequency_mhz)?;
    writer.u16(
        if request.local_state_change {
            AUTH_LOCAL_STATE_CHANGE
        } else {
            0
        },
    )?;
    writer.i32(request.auth_type.code())
}

fn write_authentication_security(
    writer: &mut Writer<'_>,
    request: &AuthenticationRequest<'_>,
) -> (result: Result<(), ProtocolError>)
    requires
        old(writer).wf(),
        old(writer).rest().len() >= 970,
        request.within_limits(),
    ensures
        result is Ok,
        final(writer).wf(),
        final(final(writer).bytes)@ == final(old(writer).bytes)@,
        final(writer).written() == old(writer).written() + request.security_bytes(),
        final(writer).rest() == old(writer).rest().skip(970),
{
    write_key_info(writer, request.key)?;
    write_ssid(writer, request.ssid)?;
    write_ie(writer, request.information_elements)
}

fn write_authentication_sae(
    writer: &mut Writer<'_>,
    request: &AuthenticationRequest<'_>,
) -> (result: Result<(), ProtocolError>)
    requires
        old(writer).wf(),
        old(writer).rest().len() >= 266,
        request.within_limits(),
    ensures
        result is Ok,
        final(writer).wf(),
        final(final(writer).bytes)@ == final(old(writer).bytes)@,
        final(writer).written() == old(writer).written() + request.sae_bytes(),
        final(writer).rest() == old(writer).rest().skip(266),
{
    writer.i32(request.sae_data.len() as i32)?;
    writer.fixed(request.sae_data, MAX_SAE_LEN)?;
    writer.bytes(&request.bssid)
}

fn write_authentication_bss_observation(
    writer: &mut Writer<'_>,
    bss: &BssContext<'_>,
) -> (result: Result<(), ProtocolError>)
    requires
        old(writer).wf(),
        old(writer).rest().len() >= 414,
        bss.information_elements@.len() <= MAX_IE_LEN,
    ensures
        result is Ok,
        final(writer).wf(),
        final(final(writer).bytes)@ == final(old(writer).bytes)@,
        final(writer).written() == old(writer).written() + (codec::le32(
            bss.scan_width as u32,
        ) + codec::le32(bss.signal_dbm as u32) + codec::le32(
            protocol::flag(bss.from_beacon) as u32,
        ) + ie_image(bss.information_elements@)),
        final(writer).rest() == old(writer).rest().skip(414),
{
    writer.i32(bss.scan_width)?;
    writer.i32(bss.signal_dbm)?;
    writer.u32(protocol::bool_u32(bss.from_beacon))?;
    write_ie(writer, bss.information_elements)
}

fn write_authentication_bss_timing(
    writer: &mut Writer<'_>,
    bss: &BssContext<'_>,
) -> (result: Result<(), ProtocolError>)
    requires
        old(writer).wf(),
        old(writer).rest().len() >= 12,
    ensures
        result is Ok,
        final(writer).wf(),
        final(final(writer).bytes)@ == final(old(writer).bytes)@,
        final(writer).written() == old(writer).written() + (codec::le16(bss.capability)
            + codec::le16(bss.beacon_interval) + codec::le64(bss.tsf)),
        final(writer).rest() == old(writer).rest().skip(12),
{
    writer.u16(bss.capability)?;
    writer.u16(bss.beacon_interval)?;
    writer.u64(bss.tsf)
}

fn write_authentication_bss(
    writer: &mut Writer<'_>,
    request: &AuthenticationRequest<'_>,
) -> (result: Result<(), ProtocolError>)
    requires
        old(writer).wf(),
        old(writer).rest().len() >= 426,
        request.within_limits(),
    ensures
        result is Ok,
        final(writer).wf(),
        final(final(writer).bytes)@ == final(old(writer).bytes)@,
        final(writer).written() == old(writer).written() + request.bss_bytes(),
        final(writer).rest() == old(writer).rest().skip(426),
{
    write_authentication_bss_observation(writer, &request.bss)?;
    write_authentication_bss_timing(writer, &request.bss)
}

fn write_authentication_body(
    writer: &mut Writer<'_>,
    request: &AuthenticationRequest<'_>,
) -> (result: Result<(), ProtocolError>)
    requires
        old(writer).wf(),
        old(writer).rest().len() >= AUTH_BODY_LEN as int,
        request.within_limits(),
    ensures
        result is Ok,
        final(writer).wf(),
        final(final(writer).bytes)@ == final(old(writer).bytes)@,
        final(writer).written() == old(writer).written() + request.body(),
        final(writer).rest() == old(writer).rest().skip(AUTH_BODY_LEN as int),
{
    write_authentication_header(writer, request)?;
    write_authentication_security(writer, request)?;
    write_authentication_sae(writer, request)?;
    write_authentication_bss(writer, request)
}

/// Encodes `NRF_WIFI_UMAC_CMD_AUTHENTICATE`.
pub fn encode_authenticate(
    out: &mut [u8],
    wdev_id: u32,
    request: &AuthenticationRequest<'_>,
) -> (result: Result<usize, ProtocolError>)
    ensures
        protocol::written_to(
            result,
            old(out)@,
            final(out)@,
            station_command(UmacCommand::Authenticate, Some(wdev_id), request.body()),
            if !request.within_limits() {
                Some(ProtocolError::LimitExceeded)
            } else {
                station_fault(old(out)@.len(), AUTH_BODY_LEN as nat)
            },
        ),
        result matches Ok(len) ==> len == AUTH_MESSAGE_LEN,
        result is Ok ==> protocol::names_command(final(out)@, 2, wdev_id),
{
    broadcast use protocol::lemma_written_command;

    validate_authentication_request(request)?;
    let total: usize = validated_station_message_len(out.len(), AUTH_BODY_LEN)?;
    let ghost image = station_command(UmacCommand::Authenticate, Some(wdev_id), request.body());
    let mut writer = Writer::new(out);
    write_station_headers(&mut writer, total, UmacCommand::Authenticate, Some(wdev_id))?;
    write_authentication_body(&mut writer, request)?;
    assert(writer.written() =~= image);
    assert(writer.rest() =~= old(out)@.skip(total as int));
    finish_station_message(writer, total)
}

fn write_association_header(
    writer: &mut Writer<'_>,
    request: &AssociationRequest<'_>,
) -> (result: Result<(), ProtocolError>)
    requires
        old(writer).wf(),
        old(writer).rest().len() >= 20,
    ensures
        result is Ok,
        final(writer).wf(),
        final(final(writer).bytes)@ == final(old(writer).bytes)@,
        final(writer).written() == old(writer).written() + request.header_bytes(),
        final(writer).rest() == old(writer).rest().skip(20),
{
    writer.u32(
        if request.previous_bssid.is_some() {
            ASSOC_PREVIOUS_BSSID_VALID
        } else {
            0
        },
    )?;
    writer.u32(association_valid_fields(request))?;
    writer.u32(request.frequency_mhz)?;
    writer.u32(0)?;
    writer.u32(
        if request.security.is_some() {
            WPA_VERSION_2
        } else {
            0
        },
    )
}

fn association_valid_fields(request: &AssociationRequest<'_>) -> (valid: u32)
    ensures
        valid == request.mask(),
{
    let mut valid: u32 = CONNECT_MAC_VALID + CONNECT_FREQUENCY_VALID + CONNECT_SSID_VALID
        + CONNECT_CONTROL_PORT_ETHERTYPE_VALID + CONNECT_CONTROL_PORT_NO_ENCRYPT_VALID;
    if request.background_scan_period_s != 0 {
        valid = valid + CONNECT_BG_SCAN_VALID;
    }
    if request.previous_bssid.is_some() {
        valid = valid + CONNECT_PREVIOUS_BSSID_VALID;
    }
    if request.security.is_some() {
        valid = valid + (CONNECT_WPA_IE_VALID + CONNECT_WPA_VERSIONS_VALID + CONNECT_PAIRWISE_VALID
            + CONNECT_GROUP_VALID + CONNECT_AKM_VALID + CONNECT_MFP_VALID + CONNECT_SECURITY_VALID);
    }
    valid
}

fn write_suites(
    writer: &mut Writer<'_>,
    pairwise: &[u32],
    group: u32,
    akm: &[u32],
    mfp: MfpMode,
) -> (result: Result<(), ProtocolError>)
    requires
        old(writer).wf(),
        old(writer).rest().len() >= 52,
        pairwise@.len() <= MAX_PAIRWISE_CIPHERS,
        akm@.len() <= MAX_AKM_SUITES,
    ensures
        result is Ok,
        final(writer).wf(),
        final(final(writer).bytes)@ == final(old(writer).bytes)@,
        final(writer).written() == old(writer).written() + suite_bytes(pairwise@, group, akm@, mfp),
        final(writer).rest() == old(writer).rest().skip(52),
{
    writer.i32(pairwise.len() as i32)?;
    writer.fixed_u32(pairwise, MAX_PAIRWISE_CIPHERS)?;
    writer.u32(group)?;
    writer.u32(akm.len() as u32)?;
    writer.fixed_u32(akm, MAX_AKM_SUITES)?;
    writer.i32(mfp.code())
}

fn write_association_ciphers(
    writer: &mut Writer<'_>,
    request: &AssociationRequest<'_>,
) -> (result: Result<(), ProtocolError>)
    requires
        old(writer).wf(),
        old(writer).rest().len() >= 52,
        request.within_limits(),
    ensures
        result is Ok,
        final(writer).wf(),
        final(final(writer).bytes)@ == final(old(writer).bytes)@,
        final(writer).written() == old(writer).written() + request.cipher_bytes(),
        final(writer).rest() == old(writer).rest().skip(52),
{
    match &request.security {
        Some(security) => write_suites(
            writer,
            security.pairwise_ciphers,
            security.group_cipher,
            security.akm_suites,
            security.mfp,
        ),
        None => {
            let empty: &[u32] = &[];
            assert(empty@ =~= Seq::<u32>::empty());
            write_suites(writer, empty, 0, empty, MfpMode::Disabled)
        },
    }
}

fn write_association_network(
    writer: &mut Writer<'_>,
    request: &AssociationRequest<'_>,
) -> (result: Result<(), ProtocolError>)
    requires
        old(writer).wf(),
        old(writer).rest().len() >= 453,
        request.within_limits(),
    ensures
        result is Ok,
        final(writer).wf(),
        final(final(writer).bytes)@ == final(old(writer).bytes)@,
        final(writer).written() == old(writer).written() + request.network_bytes(),
        final(writer).rest() == old(writer).rest().skip(453),
{
    writer.u32(0)?;
    writer.u16(request.background_scan_period_s)?;
    writer.bytes(&request.bssid)?;
    writer.zeros(6)?;
    write_association_network_names(writer, request)
}

fn write_association_network_names(
    writer: &mut Writer<'_>,
    request: &AssociationRequest<'_>,
) -> (result: Result<(), ProtocolError>)
    requires
        old(writer).wf(),
        old(writer).rest().len() >= 435,
        request.within_limits(),
    ensures
        result is Ok,
        final(writer).wf(),
        final(final(writer).bytes)@ == final(old(writer).bytes)@,
        final(writer).written() == old(writer).written() + (ssid_image(request.ssid@) + ie_image(
            request.rsn(),
        )),
        final(writer).rest() == old(writer).rest().skip(435),
{
    let rsn: &[u8] = match &request.security {
        Some(security) => security.rsn_information_element,
        None => &[],
    };
    assert(rsn@ =~= request.rsn());
    write_ssid(writer, request.ssid)?;
    write_ie(writer, rsn)
}

fn write_association_control_port(writer: &mut Writer<'_>) -> (result: Result<(), ProtocolError>)
    requires
        old(writer).wf(),
        old(writer).rest().len() >= 1034,
    ensures
        result is Ok,
        final(writer).wf(),
        final(final(writer).bytes)@ == final(old(writer).bytes)@,
        final(writer).written() == old(writer).written() + control_port_bytes(),
        final(writer).rest() == old(writer).rest().skip(1034),
{
    writer.u32(0)?;
    writer.u16(0)?;
    writer.zeros(1024)?;
    writer.u16(EAPOL_ETHERTYPE)?;
    writer.u8(1)?;
    writer.u8(1)
}

fn write_association_previous_bssid(
    writer: &mut Writer<'_>,
    request: &AssociationRequest<'_>,
) -> (result: Result<(), ProtocolError>)
    requires
        old(writer).wf(),
        old(writer).rest().len() >= 14,
    ensures
        result is Ok,
        final(writer).wf(),
        final(final(writer).bytes)@ == final(old(writer).bytes)@,
        final(writer).written() == old(writer).written() + request.previous_bytes(),
        final(writer).rest() == old(writer).rest().skip(14),
{
    let previous: [u8; 6] = match request.previous_bssid {
        Some(bssid) => bssid,
        None => [0u8; 6],
    };
    assert(previous@ =~= request.previous());
    writer.bytes(&previous)?;
    writer.u16(request.bss_max_idle_s)?;
    writer.bytes(&previous)
}

fn write_association_body(
    writer: &mut Writer<'_>,
    request: &AssociationRequest<'_>,
) -> (result: Result<(), ProtocolError>)
    requires
        old(writer).wf(),
        old(writer).rest().len() >= ASSOC_BODY_LEN as int,
        request.within_limits(),
    ensures
        result is Ok,
        final(writer).wf(),
        final(final(writer).bytes)@ == final(old(writer).bytes)@,
        final(writer).written() == old(writer).written() + request.body(),
        final(writer).rest() == old(writer).rest().skip(ASSOC_BODY_LEN as int),
{
    write_association_header(writer, request)?;
    write_association_ciphers(writer, request)?;
    write_association_network(writer, request)?;
    write_association_control_port(writer)?;
    write_association_previous_bssid(writer, request)
}

proof fn lemma_association_body_len(request: AssociationRequest<'_>)
    requires
        request.within_limits(),
    ensures
        request.body().len() == ASSOC_BODY_LEN,
{
    if let Some(security) = request.security {
        codec::lemma_le32_list_len(security.pairwise_ciphers@);
        codec::lemma_le32_list_len(security.akm_suites@);
    }
}

/// Encodes `NRF_WIFI_UMAC_CMD_ASSOCIATE`.
pub fn encode_associate(
    out: &mut [u8],
    wdev_id: u32,
    request: &AssociationRequest<'_>,
) -> (result: Result<usize, ProtocolError>)
    ensures
        protocol::written_to(
            result,
            old(out)@,
            final(out)@,
            station_command(UmacCommand::Associate, Some(wdev_id), request.body()),
            if !request.within_limits() {
                Some(ProtocolError::LimitExceeded)
            } else {
                station_fault(old(out)@.len(), ASSOC_BODY_LEN as nat)
            },
        ),
        result matches Ok(len) ==> len == ASSOC_MESSAGE_LEN,
        result is Ok ==> protocol::names_command(final(out)@, 3, wdev_id),
{
    broadcast use protocol::lemma_written_command;

    validate_association_request(request)?;
    let total: usize = validated_station_message_len(out.len(), ASSOC_BODY_LEN)?;
    let ghost image = station_command(UmacCommand::Associate, Some(wdev_id), request.body());
    let mut writer = Writer::new(out);
    write_station_headers(&mut writer, total, UmacCommand::Associate, Some(wdev_id))?;
    write_association_body(&mut writer, request)?;
    proof {
        lemma_association_body_len(*request);
    }
    assert(writer.written() =~= image);
    assert(writer.rest() =~= old(out)@.skip(total as int));
    finish_station_message(writer, total)
}

/// Body of a key install or delete command.
pub open spec fn key_command_body(peer: Option<[u8; 6]>, key: KeyConfig<'_>) -> Seq<u8> {
    codec::le32((protocol::flag(peer is Some) * KEY_MAC_VALID) as u32) + key.image() + (match peer {
        Some(peer) => peer@,
        None => codec::zero_bytes(6),
    })
}

/// The commands that carry a key block for a peer.
pub open spec fn is_key_command(command: UmacCommand) -> bool {
    command is NewKey || command is DeleteKey
}

fn write_key_command_body(
    writer: &mut Writer<'_>,
    peer: Option<[u8; 6]>,
    key: &KeyConfig<'_>,
) -> (result: Result<(), ProtocolError>)
    requires
        old(writer).wf(),
        old(writer).rest().len() >= KEY_BODY_LEN as int,
        key.within_limits(),
    ensures
        result is Ok,
        final(writer).wf(),
        final(final(writer).bytes)@ == final(old(writer).bytes)@,
        final(writer).written() == old(writer).written() + key_command_body(peer, *key),
        final(writer).rest() == old(writer).rest().skip(KEY_BODY_LEN as int),
{
    let address: [u8; 6] = match peer {
        Some(peer) => peer,
        None => [0u8; 6],
    };
    assert(address@ =~= (match peer {
        Some(peer) => peer@,
        None => codec::zero_bytes(6),
    }));
    writer.u32(
        if peer.is_some() {
            KEY_MAC_VALID
        } else {
            0
        },
    )?;
    write_key_info(writer, Some(key))?;
    writer.bytes(&address)
}

/// Checks that a command installs or deletes a key.
pub fn validate_key_command(command: UmacCommand) -> (result: Result<(), ProtocolError>)
    ensures
        result == (if is_key_command(command) {
            Ok(())
        } else {
            Err(ProtocolError::InvalidValue(command.wire()))
        }),
{
    if command != UmacCommand::NewKey && command != UmacCommand::DeleteKey {
        return Err(ProtocolError::InvalidValue(command.code()));
    }
    Ok(())
}

/// Encodes `NRF_WIFI_UMAC_CMD_NEW_KEY` or `NRF_WIFI_UMAC_CMD_DEL_KEY`.
pub fn encode_key_command(
    out: &mut [u8],
    wdev_id: u32,
    command: UmacCommand,
    peer: Option<[u8; 6]>,
    key: &KeyConfig<'_>,
) -> (result: Result<usize, ProtocolError>)
    ensures
        protocol::written_to(
            result,
            old(out)@,
            final(out)@,
            station_command(command, Some(wdev_id), key_command_body(peer, *key)),
            if !is_key_command(command) {
                Some(ProtocolError::InvalidValue(command.wire()))
            } else if !key.within_limits() {
                Some(ProtocolError::LimitExceeded)
            } else {
                station_fault(old(out)@.len(), KEY_BODY_LEN as nat)
            },
        ),
        result matches Ok(len) ==> len == KEY_MESSAGE_LEN,
        result is Ok ==> command is NewKey || command is DeleteKey,
        result is Ok ==> protocol::names_command(
            final(out)@,
            if command is NewKey {
                6
            } else {
                7
            },
            wdev_id,
        ),
{
    broadcast use protocol::lemma_written_command;

    validate_key_command(command)?;
    validate_key(key)?;
    let total: usize = validated_station_message_len(out.len(), KEY_BODY_LEN)?;
    let ghost image = station_command(command, Some(wdev_id), key_command_body(peer, *key));
    let mut writer = Writer::new(out);
    write_station_headers(&mut writer, total, command, Some(wdev_id))?;
    write_key_command_body(&mut writer, peer, key)?;
    assert(writer.written() =~= image);
    assert(writer.rest() =~= old(out)@.skip(total as int));
    finish_station_message(writer, total)
}

/// Encodes `NRF_WIFI_UMAC_CMD_SET_KEY`.
pub fn encode_set_key(
    out: &mut [u8],
    wdev_id: u32,
    key: &KeyConfig<'_>,
) -> (result: Result<usize, ProtocolError>)
    ensures
        protocol::written_to(
            result,
            old(out)@,
            final(out)@,
            station_command(UmacCommand::SetKey, Some(wdev_id), key.default_image()),
            if !key.within_limits() {
                Some(ProtocolError::LimitExceeded)
            } else {
                station_fault(old(out)@.len(), KEY_INFO_LEN as nat)
            },
        ),
        result is Ok ==> protocol::names_command(final(out)@, 8, wdev_id),
{
    broadcast use protocol::lemma_written_command;

    validate_key(key)?;
    let total: usize = validated_station_message_len(out.len(), KEY_INFO_LEN)?;
    let ghost image = station_command(UmacCommand::SetKey, Some(wdev_id), key.default_image());
    let mut writer = Writer::new(out);
    write_station_headers(&mut writer, total, UmacCommand::SetKey, Some(wdev_id))?;
    write_default_key_info(&mut writer, key)?;
    assert(writer.written() =~= image);
    assert(writer.rest() =~= old(out)@.skip(total as int));
    finish_station_message(writer, total)
}

/// Encodes `NRF_WIFI_UMAC_CMD_SET_IFFLAGS`.
pub fn encode_interface_state(
    out: &mut [u8],
    wdev_id: u32,
    up: bool,
    firmware_index: i8,
) -> (result: Result<usize, ProtocolError>)
    ensures
        protocol::written_to(
            result,
            old(out)@,
            final(out)@,
            station_command(
                UmacCommand::SetInterfaceFlags,
                Some(wdev_id),
                interface_state_body(up, firmware_index),
            ),
            station_fault(old(out)@.len(), 5 as nat),
        ),
        result is Ok ==> protocol::names_command(final(out)@, 18, wdev_id),
{
    broadcast use protocol::lemma_written_command;

    let total: usize = validated_station_message_len(out.len(), 5)?;
    let ghost image = station_command(
        UmacCommand::SetInterfaceFlags,
        Some(wdev_id),
        interface_state_body(up, firmware_index),
    );
    let mut writer = Writer::new(out);
    write_station_headers(&mut writer, total, UmacCommand::SetInterfaceFlags, Some(wdev_id))?;
    writer.u32(protocol::bool_u32(up))?;
    writer.u8(firmware_index as u8)?;
    assert(writer.written() =~= image);
    assert(writer.rest() =~= old(out)@.skip(total as int));
    finish_station_message(writer, total)
}

/// Body of the interface state command.
pub open spec fn interface_state_body(up: bool, firmware_index: i8) -> Seq<u8> {
    codec::le32(protocol::flag(up) as u32) + seq![firmware_index as u8]
}

/// Whether a byte is an ASCII letter.
pub open spec fn ascii_letter(value: u8) -> bool {
    65 <= value <= 90 || 97 <= value <= 122
}

/// The world domain `00`, or an ISO/IEC 3166 alpha-2 code.
pub open spec fn regulatory_domain(country: Seq<u8>) -> bool {
    country == seq![48u8, 48u8] || (ascii_letter(country[0]) && ascii_letter(country[1]))
}

/// Body of the regulatory domain command.
pub open spec fn regulatory_body(country: Seq<u8>, user_hint_type: u32, force: bool) -> Seq<u8> {
    codec::le32((3 + protocol::flag(force) * 4) as u32) + codec::le32(user_hint_type) + country
}

fn is_ascii_letter(value: u8) -> (letter: bool)
    ensures
        letter == ascii_letter(value),
{
    (65 <= value && value <= 90) || (97 <= value && value <= 122)
}

/// Checks a regulatory country code.
pub fn validate_country(country: [u8; 2]) -> (result: Result<(), ProtocolError>)
    ensures
        result == (if regulatory_domain(country@) {
            Ok(())
        } else {
            Err(ProtocolError::InvalidValue(codec::be16_at(country@, 0) as u32))
        }),
{
    let world: bool = country[0] == 48 && country[1] == 48;
    assert(world ==> country@ =~= seq![48u8, 48u8]);
    if !world && !(is_ascii_letter(country[0]) && is_ascii_letter(country[1])) {
        return Err(ProtocolError::InvalidValue(codec::read_be16(&country, 0) as u32));
    }
    Ok(())
}

/// Encodes `NRF_WIFI_UMAC_CMD_REQ_SET_REG`, which names no wireless device.
pub fn encode_set_regulatory(
    out: &mut [u8],
    _wdev_id: u32,
    country: [u8; 2],
    user_hint_type: u32,
    force: bool,
) -> (result: Result<usize, ProtocolError>)
    ensures
        protocol::written_to(
            result,
            old(out)@,
            final(out)@,
            station_command(
                UmacCommand::RequestSetRegulatory,
                None,
                regulatory_body(country@, user_hint_type, force),
            ),
            if !regulatory_domain(country@) {
                Some(ProtocolError::InvalidValue(codec::be16_at(country@, 0) as u32))
            } else {
                station_fault(old(out)@.len(), 10 as nat)
            },
        ),
        result is Ok ==> codec::u32_at(final(out)@, 20) == 46 && codec::u32_at(final(out)@, 28) == 0,
{
    broadcast use protocol::lemma_written_code;

    validate_country(country)?;
    let total: usize = validated_station_message_len(out.len(), 10)?;
    let ghost image = station_command(
        UmacCommand::RequestSetRegulatory,
        None,
        regulatory_body(country@, user_hint_type, force),
    );
    let mut writer = Writer::new(out);
    write_station_headers(&mut writer, total, UmacCommand::RequestSetRegulatory, None)?;
    writer.u32(
        if force {
            7
        } else {
            3
        },
    )?;
    writer.u32(user_hint_type)?;
    writer.bytes(&country)?;
    assert(writer.written() =~= image);
    assert(writer.rest() =~= old(out)@.skip(total as int));
    finish_station_message(writer, total)
}

/// Encodes `NRF_WIFI_UMAC_CMD_SET_POWER_SAVE`.
pub fn encode_power_save(
    out: &mut [u8],
    wdev_id: u32,
    state: PowerSaveState,
) -> (result: Result<usize, ProtocolError>)
    ensures
        protocol::written_to(
            result,
            old(out)@,
            final(out)@,
            station_command(
                UmacCommand::SetPowerSave,
                Some(wdev_id),
                codec::le32(state.wire() as u32),
            ),
            station_fault(old(out)@.len(), 4 as nat),
        ),
        result is Ok ==> protocol::names_command(final(out)@, 33, wdev_id),
        result is Ok ==> final(out)@.subrange(48, 52) == codec::le32(
            if state is Enabled {
                1
            } else {
                0
            },
        ),
{
    broadcast use protocol::lemma_written_command;

    let total: usize = validated_station_message_len(out.len(), 4)?;
    let ghost image = station_command(
        UmacCommand::SetPowerSave,
        Some(wdev_id),
        codec::le32(state.wire() as u32),
    );
    let mut writer = Writer::new(out);
    write_station_headers(&mut writer, total, UmacCommand::SetPowerSave, Some(wdev_id))?;
    writer.i32(state.code())?;
    assert(writer.written() =~= image);
    assert(writer.rest() =~= old(out)@.skip(total as int));
    finish_station_message(writer, total)
}

/// Encodes `NRF_WIFI_UMAC_CMD_SET_POWER_SAVE_TIMEOUT`.
pub fn encode_power_save_timeout(
    out: &mut [u8],
    wdev_id: u32,
    timeout_ms: i32,
) -> (result: Result<usize, ProtocolError>)
    ensures
        protocol::written_to(
            result,
            old(out)@,
            final(out)@,
            station_command(
                UmacCommand::SetPowerSaveTimeout,
                Some(wdev_id),
                codec::le32(timeout_ms as u32),
            ),
            station_fault(old(out)@.len(), 4 as nat),
        ),
        result is Ok ==> protocol::names_command(final(out)@, 53, wdev_id),
        result is Ok ==> final(out)@.subrange(48, 52) == codec::le32(timeout_ms as u32),
{
    broadcast use protocol::lemma_written_command;

    let total: usize = validated_station_message_len(out.len(), 4)?;
    let ghost image = station_command(
        UmacCommand::SetPowerSaveTimeout,
        Some(wdev_id),
        codec::le32(timeout_ms as u32),
    );
    let mut writer = Writer::new(out);
    write_station_headers(&mut writer, total, UmacCommand::SetPowerSaveTimeout, Some(wdev_id))?;
    writer.i32(timeout_ms)?;
    assert(writer.written() =~= image);
    assert(writer.rest() =~= old(out)@.skip(total as int));
    finish_station_message(writer, total)
}

/// Body of the station authorization command.
pub open spec fn station_authorized_body(peer: Seq<u8>, authorized: bool) -> Seq<u8> {
    (codec::le32(SET_STATION_FLAGS_VALID) + codec::zero_bytes(260) + codec::le32(
        STATION_FLAG_AUTHORIZED,
    ) + codec::le32((protocol::flag(authorized) * STATION_FLAG_AUTHORIZED) as u32)) + codec::zero_bytes(512)
        + peer + codec::zero_bytes(3)
}

fn write_station_authorized_flags(
    writer: &mut Writer<'_>,
    authorized: bool,
) -> (result: Result<(), ProtocolError>)
    requires
        old(writer).wf(),
        old(writer).rest().len() >= 272,
    ensures
        result is Ok,
        final(writer).wf(),
        final(final(writer).bytes)@ == final(old(writer).bytes)@,
        final(writer).written() == old(writer).written() + (codec::le32(
            SET_STATION_FLAGS_VALID,
        ) + codec::zero_bytes(260) + codec::le32(STATION_FLAG_AUTHORIZED) + codec::le32(
            (protocol::flag(authorized) * STATION_FLAG_AUTHORIZED) as u32,
        )),
        final(writer).rest() == old(writer).rest().skip(272),
{
    writer.u32(SET_STATION_FLAGS_VALID)?;
    writer.zeros(260)?;
    writer.u32(STATION_FLAG_AUTHORIZED)?;
    writer.u32(
        if authorized {
            STATION_FLAG_AUTHORIZED
        } else {
            0
        },
    )
}

fn write_station_authorized_body(
    writer: &mut Writer<'_>,
    peer: [u8; 6],
    authorized: bool,
) -> (result: Result<(), ProtocolError>)
    requires
        old(writer).wf(),
        old(writer).rest().len() >= STATION_BODY_LEN as int,
    ensures
        result is Ok,
        final(writer).wf(),
        final(final(writer).bytes)@ == final(old(writer).bytes)@,
        final(writer).written() == old(writer).written() + station_authorized_body(
            peer@,
            authorized,
        ),
        final(writer).rest() == old(writer).rest().skip(STATION_BODY_LEN as int),
{
    write_station_authorized_flags(writer, authorized)?;
    writer.zeros(512)?;
    writer.bytes(&peer)?;
    writer.zeros(3)
}

/// Encodes `NRF_WIFI_UMAC_CMD_SET_STATION` for controlled-port authorization.
pub fn encode_station_authorized(
    out: &mut [u8],
    wdev_id: u32,
    peer: [u8; 6],
    authorized: bool,
) -> (result: Result<usize, ProtocolError>)
    ensures
        protocol::written_to(
            result,
            old(out)@,
            final(out)@,
            station_command(
                UmacCommand::SetStation,
                Some(wdev_id),
                station_authorized_body(peer@, authorized),
            ),
            station_fault(old(out)@.len(), STATION_BODY_LEN as nat),
        ),
        result is Ok ==> protocol::names_command(final(out)@, 21, wdev_id),
{
    broadcast use protocol::lemma_written_command;

    let total: usize = validated_station_message_len(out.len(), STATION_BODY_LEN)?;
    let ghost image = station_command(
        UmacCommand::SetStation,
        Some(wdev_id),
        station_authorized_body(peer@, authorized),
    );
    let mut writer = Writer::new(out);
    write_station_headers(&mut writer, total, UmacCommand::SetStation, Some(wdev_id))?;
    write_station_authorized_body(&mut writer, peer, authorized)?;
    assert(writer.written() =~= image);
    assert(writer.rest() =~= old(out)@.skip(total as int));
    finish_station_message(writer, total)
}

/// Parsed MLME authentication, association, or disconnect event.
#[derive(Clone, Copy, Debug, PartialEq, Eq)]
pub struct MlmeEvent<'a> {
    pub header: UmacHeader,
    pub valid_fields: u32,
    pub frequency_mhz: u32,
    pub signal_dbm: i32,
    pub flags: u32,
    pub cookie: u64,
    pub bssid: [u8; 6],
    pub frame: &'a [u8],
    pub request_information_elements: &'a [u8],
}

impl<'a> MlmeEvent<'a> {
    /// Whether the event is the reading of a header and a body.
    pub open spec fn reads(&self, header: UmacHeader, body: Seq<u8>) -> bool {
        &&& self.header == header
        &&& self.valid_fields == codec::u32_at(body, 0)
        &&& self.frequency_mhz == codec::u32_at(body, 4)
        &&& self.signal_dbm == codec::i32_at(body, 8)
        &&& self.flags == codec::u32_at(body, 12)
        &&& self.cookie == codec::u64_at(body, 16)
        &&& self.bssid@ == body.subrange(428, 434)
        &&& self.frame@ == body.subrange(28, 28 + codec::i32_at(body, 24))
        &&& self.request_information_elements@ == body.subrange(
            MLME_FIXED_BODY_LEN as int,
            MLME_FIXED_BODY_LEN + codec::u32_at(body, 435),
        )
    }
}

/// The body holds the fixed part, a frame of legal length and every declared
/// information element.
pub open spec fn mlme_complete(body: Seq<u8>) -> bool {
    &&& body.len() >= MLME_FIXED_BODY_LEN
    &&& 0 <= codec::i32_at(body, 24) <= MAX_MLME_FRAME_LEN
    &&& MLME_FIXED_BODY_LEN + codec::u32_at(body, 435) <= body.len()
}

/// Borrowed scan-result event.
#[derive(Clone, Copy, Debug, PartialEq, Eq)]
pub struct ScanResultEvent<'a> {
    pub header: UmacHeader,
    pub valid_fields: u32,
    pub frequency_mhz: u32,
    pub channel_width: u32,
    pub seen_ms_ago: u32,
    pub status: i32,
    pub signal: i32,
    pub bssid: [u8; 6],
    pub beacon_interval: u16,
    pub capability: u16,
    pub information_elements: &'a [u8],
    pub beacon_information_elements: &'a [u8],
}

/// A signal in dBm: type 2 counts hundredths, rounded toward zero.
pub open spec fn scan_signal(signal_type: u32, signal: i32) -> int {
    if signal_type != 2 {
        signal as int
    } else if signal >= 0 {
        signal as int / 100
    } else {
        -((-signal) / 100)
    }
}

impl<'a> ScanResultEvent<'a> {
    /// Whether the event is the reading of a header and a body.
    pub open spec fn reads(&self, header: UmacHeader, body: Seq<u8>) -> bool {
        let ies_end = SCAN_RESULT_FIXED_BODY_LEN + codec::u32_at(body, 62);
        &&& self.header == header
        &&& self.valid_fields == codec::u32_at(body, 0)
        &&& self.frequency_mhz == codec::u32_at(body, 8)
        &&& self.channel_width == codec::u32_at(body, 12)
        &&& self.seen_ms_ago == codec::u32_at(body, 16)
        &&& self.status == codec::i32_at(body, 24)
        &&& self.signal == scan_signal(codec::u32_at(body, 48), codec::i32_at(body, 52))
        &&& self.bssid@ == body.subrange(56, 62)
        &&& self.beacon_interval == codec::u16_at(body, 44)
        &&& self.capability == codec::u16_at(body, 46)
        &&& self.information_elements@ == body.subrange(SCAN_RESULT_FIXED_BODY_LEN as int, ies_end)
        &&& self.beacon_information_elements@ == body.subrange(
            ies_end,
            ies_end + codec::u32_at(body, 66),
        )
    }
}

/// The body holds the fixed part and every declared information element.
pub open spec fn scan_result_complete(body: Seq<u8>) -> bool {
    &&& body.len() >= SCAN_RESULT_FIXED_BODY_LEN
    &&& SCAN_RESULT_FIXED_BODY_LEN + codec::u32_at(body, 62) + codec::u32_at(body, 66)
        <= body.len()
}

/// Control-plane event classification.
#[derive(Clone, Copy, Debug, PartialEq, Eq)]
pub enum ControlEvent<'a> {
    ScanDone { header: UmacHeader, status: i32, scan_type: u32 },
    ScanResult(ScanResultEvent<'a>),
    Authentication(MlmeEvent<'a>),
    Association(MlmeEvent<'a>),
    Deauthentication(MlmeEvent<'a>),
    Disassociation(MlmeEvent<'a>),
    CommandStatus { header: UmacHeader, command: u32, status: u32 },
    InterfaceState { header: UmacHeader, status: i32 },
    RegulatoryChange { header: UmacHeader, country: [u8; 2] },
    Other { header: UmacHeader, body: &'a [u8] },
}

/// The identifiers of the MLME events.
pub open spec fn is_mlme(event: u32) -> bool {
    ||| event == UmacEvent::Authenticate.wire()
    ||| event == UmacEvent::Associate.wire()
    ||| event == UmacEvent::Deauthenticate.wire()
    ||| event == UmacEvent::Disassociate.wire()
}

/// Whether a body is long enough for the event it belongs to. Events without
/// a reading of their own take any body.
pub open spec fn control_body_complete(event: u32, body: Seq<u8>) -> bool {
    if event == UmacEvent::ScanDone.wire() || event == UmacEvent::CommandStatus.wire() {
        body.len() >= 8
    } else if event == UmacEvent::ScanResult.wire() {
        scan_result_complete(body)
    } else if is_mlme(event) {
        mlme_complete(body)
    } else if event == UmacEvent::InterfaceFlagsStatus.wire() {
        body.len() >= 4
    } else if event == EVENT_REGULATORY_CHANGE {
        body.len() >= 9
    } else {
        true
    }
}

impl<'a> ControlEvent<'a> {
    /// Whether the event is the reading of a header and a body.
    pub open spec fn reads(&self, header: UmacHeader, body: Seq<u8>) -> bool {
        let event = header.command_event;
        match *self {
            ControlEvent::ScanDone { header: own, status, scan_type } => {
                &&& event == UmacEvent::ScanDone.wire()
                &&& own == header
                &&& status == codec::i32_at(body, 0)
                &&& scan_type == codec::u32_at(body, 4)
            },
            ControlEvent::ScanResult(result) => event == UmacEvent::ScanResult.wire()
                && result.reads(header, body),
            ControlEvent::Authentication(mlme) => event == UmacEvent::Authenticate.wire()
                && mlme.reads(header, body),
            ControlEvent::Association(mlme) => event == UmacEvent::Associate.wire() && mlme.reads(
                header,
                body,
            ),
            ControlEvent::Deauthentication(mlme) => event == UmacEvent::Deauthenticate.wire()
                && mlme.reads(header, body),
            ControlEvent::Disassociation(mlme) => event == UmacEvent::Disassociate.wire()
                && mlme.reads(header, body),
            ControlEvent::CommandStatus { header: own, command, status } => {
                &&& event == UmacEvent::CommandStatus.wire()
                &&& own == header
                &&& command == codec::u32_at(body, 0)
                &&& status == codec::u32_at(body, 4)
            },
            ControlEvent::InterfaceState { header: own, status } => {
                &&& event == UmacEvent::InterfaceFlagsStatus.wire()
                &&& own == header
                &&& status == codec::i32_at(body, 0)
            },
            ControlEvent::RegulatoryChange { header: own, country } => {
                &&& event == EVENT_REGULATORY_CHANGE
                &&& own == header
                &&& country@ == body.subrange(7, 9)
            },
            ControlEvent::Other { header: own, body: bytes } => {
                &&& own == header
                &&& bytes@ == body
                &&& !is_mlme(event)
                &&& event != UmacEvent::ScanDone.wire()
                &&& event != UmacEvent::ScanResult.wire()
                &&& event != UmacEvent::CommandStatus.wire()
                &&& event != UmacEvent::InterfaceFlagsStatus.wire()
                &&& event != EVENT_REGULATORY_CHANGE
            },
        }
    }
}

/// Parses one UMAC control event.
pub fn parse_control_event<'a>(message: HostMessageRef<'a>) -> (result: Result<
    ControlEvent<'a>,
    ProtocolError,
>)
    ensures
        match result {
            Ok(event) => {
                let header = protocol::umac_header_of(message.payload@);
                let body = message.payload@.skip(UMAC_HEADER_LEN as int);
                &&& message.message_type is Umac
                &&& message.payload@.len() >= UMAC_HEADER_LEN
                &&& control_body_complete(header.command_event, body)
                &&& event.reads(header, body)
            },
            Err(error) => if !(message.message_type is Umac) {
                error == ProtocolError::WrongMessageType
            } else {
                &&& error == ProtocolError::InvalidLength
                &&& message.payload@.len() >= UMAC_HEADER_LEN ==> !control_body_complete(
                    protocol::umac_header_of(message.payload@).command_event,
                    message.payload@.skip(UMAC_HEADER_LEN as int),
                )
            },
        },
{
    let (header, body) = protocol::parse_umac_event(message)?;
    read_control_event(header, body)
}

/// Reads the event that a header announces from its body.
pub fn read_control_event<'a>(header: UmacHeader, body: &'a [u8]) -> (result: Result<
    ControlEvent<'a>,
    ProtocolError,
>)
    ensures
        match result {
            Ok(event) => control_body_complete(header.command_event, body@) && event.reads(
                header,
                body@,
            ),
            Err(error) => !control_body_complete(header.command_event, body@) && error
                == ProtocolError::InvalidLength,
        },
{
    let event: u32 = header.command_event;
    if event == UmacEvent::ScanDone.code() {
        require_len(body, 8)?;
        return Ok(
            ControlEvent::ScanDone {
                header,
                status: codec::read_i32(body, 0),
                scan_type: codec::read_u32(body, 4),
            },
        );
    }
    if event == UmacEvent::ScanResult.code() {
        return Ok(ControlEvent::ScanResult(parse_scan_result(header, body)?));
    }
    if event == UmacEvent::Authenticate.code() {
        return Ok(ControlEvent::Authentication(parse_mlme(header, body)?));
    }
    if event == UmacEvent::Associate.code() {
        return Ok(ControlEvent::Association(parse_mlme(header, body)?));
    }
    if event == UmacEvent::Deauthenticate.code() {
        return Ok(ControlEvent::Deauthentication(parse_mlme(header, body)?));
    }
    if event == UmacEvent::Disassociate.code() {
        return Ok(ControlEvent::Disassociation(parse_mlme(header, body)?));
    }
    read_status_event(header, body)
}

fn read_status_event<'a>(header: UmacHeader, body: &'a [u8]) -> (result: Result<
    ControlEvent<'a>,
    ProtocolError,
>)
    requires
        !is_mlme(header.command_event),
        header.command_event != UmacEvent::ScanDone.wire(),
        header.command_event != UmacEvent::ScanResult.wire(),
    ensures
        match result {
            Ok(event) => control_body_complete(header.command_event, body@) && event.reads(
                header,
                body@,
            ),
            Err(error) => !control_body_complete(header.command_event, body@) && error
                == ProtocolError::InvalidLength,
        },
{
    let event: u32 = header.command_event;
    if event == UmacEvent::CommandStatus.code() {
        require_len(body, 8)?;
        return Ok(
            ControlEvent::CommandStatus {
                header,
                command: codec::read_u32(body, 0),
                status: codec::read_u32(body, 4),
            },
        );
    }
    if event == UmacEvent::InterfaceFlagsStatus.code() {
        require_len(body, 4)?;
        return Ok(ControlEvent::InterfaceState { header, status: codec::read_i32(body, 0) });
    }
    if event == EVENT_REGULATORY_CHANGE {
        require_len(body, 9)?;
        let country: [u8; 2] = [body[7], body[8]];
        assert(country@ =~= body@.subrange(7, 9));
        return Ok(ControlEvent::RegulatoryChange { header, country });
    }
    Ok(ControlEvent::Other { header, body })
}

fn require_len(bytes: &[u8], len: usize) -> (result: Result<(), ProtocolError>)
    ensures
        result == (if bytes@.len() < len {
            Err(ProtocolError::InvalidLength)
        } else {
            Ok(())
        }),
{
    if bytes.len() < len {
        Err(ProtocolError::InvalidLength)
    } else {
        Ok(())
    }
}

/// Reads an MLME event body.
pub fn parse_mlme<'a>(header: UmacHeader, body: &'a [u8]) -> (result: Result<
    MlmeEvent<'a>,
    ProtocolError,
>)
    ensures
        match result {
            Ok(event) => mlme_complete(body@) && event.reads(header, body@),
            Err(error) => !mlme_complete(body@) && error == ProtocolError::InvalidLength,
        },
{
    require_len(body, MLME_FIXED_BODY_LEN)?;
    let (frame_end, required) = mlme_variable_extents(body)?;
    Ok(
        MlmeEvent {
            header,
            valid_fields: codec::read_u32(body, 0),
            frequency_mhz: codec::read_u32(body, 4),
            signal_dbm: codec::read_i32(body, 8),
            flags: codec::read_u32(body, 12),
            cookie: codec::read_u64(body, 16),
            bssid: bridge::mac_at(body, 428),
            frame: &body[28..frame_end],
            request_information_elements: &body[MLME_FIXED_BODY_LEN..required],
        },
    )
}

fn mlme_variable_extents(body: &[u8]) -> (result: Result<(usize, usize), ProtocolError>)
    requires
        body@.len() >= MLME_FIXED_BODY_LEN,
    ensures
        match result {
            Ok((frame_end, required)) => {
                &&& mlme_complete(body@)
                &&& frame_end == 28 + codec::i32_at(body@, 24)
                &&& required == MLME_FIXED_BODY_LEN + codec::u32_at(body@, 435)
            },
            Err(error) => !mlme_complete(body@) && error == ProtocolError::InvalidLength,
        },
{
    let frame_len: i32 = codec::read_i32(body, 24);
    if frame_len < 0 || frame_len as usize > MAX_MLME_FRAME_LEN {
        return Err(ProtocolError::InvalidLength);
    }
    let request_ie_len: usize = codec::read_u32(body, 435) as usize;
    assert(body.len() <= usize::MAX);
    let required: usize = match MLME_FIXED_BODY_LEN.checked_add(request_ie_len) {
        Some(required) => required,
        None => return Err(ProtocolError::InvalidLength),
    };
    require_len(body, required)?;
    Ok((28 + frame_len as usize, required))
}

/// Reads a scan-result event body.
pub fn parse_scan_result<'a>(header: UmacHeader, body: &'a [u8]) -> (result: Result<
    ScanResultEvent<'a>,
    ProtocolError,
>)
    ensures
        match result {
            Ok(event) => scan_result_complete(body@) && event.reads(header, body@),
            Err(error) => !scan_result_complete(body@) && error == ProtocolError::InvalidLength,
        },
{
    require_len(body, SCAN_RESULT_FIXED_BODY_LEN)?;
    let (ies_end, beacon_end) = scan_result_variable_extents(body)?;
    let signal: i32 = normalized_scan_signal(codec::read_u32(body, 48), codec::read_i32(body, 52));
    Ok(
        ScanResultEvent {
            header,
            valid_fields: codec::read_u32(body, 0),
            frequency_mhz: codec::read_u32(body, 8),
            channel_width: codec::read_u32(body, 12),
            seen_ms_ago: codec::read_u32(body, 16),
            status: codec::read_i32(body, 24),
            signal,
            bssid: bridge::mac_at(body, 56),
            beacon_interval: codec::read_u16(body, 44),
            capability: codec::read_u16(body, 46),
            information_elements: &body[SCAN_RESULT_FIXED_BODY_LEN..ies_end],
            beacon_information_elements: &body[ies_end..beacon_end],
        },
    )
}

fn scan_result_variable_extents(body: &[u8]) -> (result: Result<(usize, usize), ProtocolError>)
    requires
        body@.len() >= SCAN_RESULT_FIXED_BODY_LEN,
    ensures
        match result {
            Ok((ies_end, beacon_end)) => {
                &&& scan_result_complete(body@)
                &&& ies_end == SCAN_RESULT_FIXED_BODY_LEN + codec::u32_at(body@, 62)
                &&& beacon_end == ies_end + codec::u32_at(body@, 66)
            },
            Err(error) => !scan_result_complete(body@) && error == ProtocolError::InvalidLength,
        },
{
    let ies_len: usize = codec::read_u32(body, 62) as usize;
    let beacon_len: usize = codec::read_u32(body, 66) as usize;
    assert(body.len() <= usize::MAX);
    let ies_end: usize = match SCAN_RESULT_FIXED_BODY_LEN.checked_add(ies_len) {
        Some(ies_end) => ies_end,
        None => return Err(ProtocolError::InvalidLength),
    };
    let beacon_end: usize = match ies_end.checked_add(beacon_len) {
        Some(beacon_end) => beacon_end,
        None => return Err(ProtocolError::InvalidLength),
    };
    require_len(body, beacon_end)?;
    Ok((ies_end, beacon_end))
}

/// Converts a reported signal to dBm.
pub fn normalized_scan_signal(signal_type: u32, signal: i32) -> (dbm: i32)
    ensures
        dbm == scan_signal(signal_type, signal),
{
    if signal_type != 2 {
        return signal;
    }
    if signal >= 0 {
        (signal as u32 / 100) as i32
    } else {
        let magnitude: u32 = (0 - signal as i64) as u32;
        0 - (magnitude / 100) as i32
    }
}

/// The 535-byte key block holds the key length at byte 14 and the key from byte 18
/// on, the sequence length at byte 274 and the sequence from byte 278 on, each
/// filled up with zeros, and the key index in its last byte.
pub proof fn law_key_block_layout(key: KeyConfig<'_>)
    requires
        key.within_limits(),
    ensures
        ({
            let block = key.image();
            &&& block.len() == 535
            &&& codec::u32_at(block, 0) == 22 + (if key.key@.len() > 0 { 1int } else { 0int }) + (if key.sequence@.len() > 0 { 8int } else { 0int })
            &&& codec::u32_at(block, 4) == key.cipher_suite
            &&& codec::u16_at(block, 8) == key.flags
            &&& codec::i32_at(block, 10) == (match key.key_type {
                KeyType::Group => 0int,
                KeyType::Pairwise => 1,
                KeyType::Peer => 2,
            })
            &&& codec::u32_at(block, 14) == key.key@.len()
            &&& block.subrange(18, 18 + key.key@.len() as int) == key.key@
            &&& forall|i: int| 18 + key.key@.len() <= i < 274 ==> #[trigger] block[i] == 0
            &&& codec::u32_at(block, 274) == key.sequence@.len()
            &&& block.subrange(278, 278 + key.sequence@.len() as int) == key.sequence@
            &&& forall|i: int| 278 + key.sequence@.len() <= i < 534 ==> #[trigger] block[i] == 0
            &&& block[534] == key.key_index
        }),
{
    let block = key.image();
    assert(codec::u32_at(block, 0) == key.mask()) by {
        assert(block.subrange(0, 4) =~= codec::le32(key.mask()));
        codec::law_u32_round_trip(block, 0, key.mask());
    }
    assert(codec::u32_at(block, 4) == key.cipher_suite) by {
        assert(block.subrange(4, 8) =~= codec::le32(key.cipher_suite));
        codec::law_u32_round_trip(block, 4, key.cipher_suite);
    }
    assert(codec::u16_at(block, 8) == key.flags) by {
        assert(block.subrange(8, 10) =~= codec::le16(key.flags));
        codec::law_u16_round_trip(block, 8, key.flags);
    }
    assert(codec::i32_at(block, 10) == key.key_type.wire()) by {
        assert(block.subrange(10, 14) =~= codec::le32(key.key_type.wire() as u32));
        codec::law_i32_round_trip(block, 10, key.key_type.wire());
    }
    assert(codec::u32_at(block, 14) == key.key@.len() as u32) by {
        assert(block.subrange(14, 18) =~= codec::le32(key.key@.len() as u32));
        codec::law_u32_round_trip(block, 14, key.key@.len() as u32);
    }
    assert(block.subrange(18, 18 + key.key@.len() as int) =~= key.key@);
    assert(codec::u32_at(block, 274) == key.sequence@.len() as u32) by {
        assert(block.subrange(274, 278) =~= codec::le32(key.sequence@.len() as u32));
        codec::law_u32_round_trip(block, 274, key.sequence@.len() as u32);
    }
    assert(block.subrange(278, 278 + key.sequence@.len() as int) =~= key.sequence@);
}

/// Selecting a default key names only its index and flags: every other byte of the
/// key block is zero.
pub proof fn law_default_key_block_layout(key: KeyConfig<'_>)
    ensures
        ({
            let block = key.default_image();
            &&& block.len() == 535
            &&& codec::u32_at(block, 0) == 4
            &&& codec::u32_at(block, 4) == 0
            &&& codec::u16_at(block, 8) == key.flags
            &&& codec::i32_at(block, 10) == 0
            &&& codec::u32_at(block, 14) == 0
            &&& forall|i: int| 18 <= i < 274 ==> #[trigger] block[i] == 0
            &&& codec::u32_at(block, 274) == 0
            &&& forall|i: int| 278 <= i < 534 ==> #[trigger] block[i] == 0
            &&& block[534] == key.key_index
        }),
{
    let block = key.default_image();
    assert(codec::u32_at(block, 0) == 4) by {
        assert(block.subrange(0, 4) =~= codec::le32(4));
        codec::law_u32_round_trip(block, 0, 4);
    }
    assert(codec::u32_at(block, 4) == 0) by {
        assert(block.subrange(4, 8) =~= codec::le32(0));
        codec::law_u32_round_trip(block, 4, 0);
    }
    assert(codec::u16_at(block, 8) == key.flags) by {
        assert(block.subrange(8, 10) =~= codec::le16(key.flags));
        codec::law_u16_round_trip(block, 8, key.flags);
    }
    assert(codec::i32_at(block, 10) == 0) by {
        assert(block.subrange(10, 14) =~= codec::le32(0 as u32));
        codec::law_i32_round_trip(block, 10, 0);
    }
    assert(codec::u32_at(block, 14) == 0) by {
        assert(block.subrange(14, 18) =~= codec::le32(0));
        codec::law_u32_round_trip(block, 14, 0);
    }
    assert(codec::u32_at(block, 274) == 0) by {
        assert(block.subrange(274, 278) =~= codec::le32(0));
        codec::law_u32_round_trip(block, 274, 0);
    }
}

/// A key message carries the key block in message bytes 52 to 587 and the address
/// of the peer behind it; a key without a peer leaves the address zero.
pub proof fn law_key_message_layout(command: UmacCommand, wdev_id: u32, peer: Option<[u8; 6]>, key: KeyConfig<'_>)
    requires
        key.within_limits(),
    ensures
        ({
            let message = station_command(command, Some(wdev_id), key_command_body(peer, key));
            &&& message.len() == 593
            &&& codec::u32_at(message, 0) == 593
            &&& codec::u32_at(message, 20) == command.wire()
            &&& codec::u32_at(message, 48) == (if peer is Some { 1int } else { 0int })
            &&& codec::u32_at(message, 52) == 22 + (if key.key@.len() > 0 { 1int } else { 0int }) + (if key.sequence@.len() > 0 { 8int } else { 0int })
            &&& codec::u32_at(message, 56) == key.cipher_suite
            &&& codec::u16_at(message, 60) == key.flags
            &&& codec::i32_at(message, 62) == (match key.key_type {
                KeyType::Group => 0int,
                KeyType::Pairwise => 1,
                KeyType::Peer => 2,
            })
            &&& codec::u32_at(message, 66) == key.key@.len()
            &&& message.subrange(70, 70 + key.key@.len() as int) == key.key@
            &&& forall|i: int| 70 + key.key@.len() <= i < 326 ==> #[trigger] message[i] == 0
            &&& codec::u32_at(message, 326) == key.sequence@.len()
            &&& message.subrange(330, 330 + key.sequence@.len() as int) == key.sequence@
            &&& forall|i: int| 330 + key.sequence@.len() <= i < 586 ==> #[trigger] message[i] == 0
            &&& message[586] == key.key_index
            &&& message.subrange(587, 593) == (match peer {
                Some(peer) => peer@,
                None => codec::zero_bytes(6),
            })
        }),
{
    let message = station_command(command, Some(wdev_id), key_command_body(peer, key));
    law_key_block_layout(key);
    protocol::law_umac_command_layout(
        command,
        optional_wdev_ids(Some(wdev_id)),
        key_command_body(peer, key),
    );
    assert(codec::u32_at(message, 0) == 593) by {
        assert(message.subrange(0, 4) =~= codec::le32(593));
        codec::law_u32_round_trip(message, 0, 593);
    }
    assert(codec::u32_at(message, 20) == command.wire()) by {
        assert(message.subrange(20, 24) =~= codec::le32(command.wire()));
        codec::law_u32_round_trip(message, 20, command.wire());
    }
    assert(codec::u32_at(message, 48) == (protocol::flag(peer is Some) * KEY_MAC_VALID) as u32) by {
        assert(message.subrange(48, 52) =~= codec::le32((protocol::flag(peer is Some) * KEY_MAC_VALID) as u32));
        codec::law_u32_round_trip(message, 48, (protocol::flag(peer is Some) * KEY_MAC_VALID) as u32);
    }
    assert(codec::u32_at(message, 52) == key.mask()) by {
        assert(message.subrange(52, 56) =~= codec::le32(key.mask()));
        codec::law_u32_round_trip(message, 52, key.mask());
    }
    assert(codec::u32_at(message, 56) == key.cipher_suite) by {
        assert(message.subrange(56, 60) =~= codec::le32(key.cipher_suite));
        codec::law_u32_round_trip(message, 56, key.cipher_suite);
    }
    assert(codec::u16_at(message, 60) == key.flags) by {
        assert(message.subrange(60, 62) =~= codec::le16(key.flags));
        codec::law_u16_round_trip(message, 60, key.flags);
    }
    assert(codec::i32_at(message, 62) == key.key_type.wire()) by {
        assert(message.subrange(62, 66) =~= codec::le32(key.key_type.wire() as u32));
        codec::law_i32_round_trip(message, 62, key.key_type.wire());
    }
    assert(codec::u32_at(message, 66) == key.key@.len() as u32) by {
        assert(message.subrange(66, 70) =~= codec::le32(key.key@.len() as u32));
        codec::law_u32_round_trip(message, 66, key.key@.len() as u32);
    }
    assert(message.subrange(70, 70 + key.key@.len() as int) =~= key.key@);
    assert(codec::u32_at(message, 326) == key.sequence@.len() as u32) by {
        assert(message.subrange(326, 330) =~= codec::le32(key.sequence@.len() as u32));
        codec::law_u32_round_trip(message, 326, key.sequence@.len() as u32);
    }
    assert(message.subrange(330, 330 + key.sequence@.len() as int) =~= key.sequence@);
    assert(message.subrange(587, 593) =~= (match peer {
                Some(peer) => peer@,
                None => codec::zero_bytes(6),
            }));
}

/// Two keys that differ only in their key bytes give messages that differ inside
/// the key field of the key block, message bytes 70 to 326.
pub proof fn law_key_bytes_reach_the_message(
    command: UmacCommand,
    wdev_id: u32,
    peer: Option<[u8; 6]>,
    first: KeyConfig<'_>,
    second: KeyConfig<'_>,
)
    requires
        first.within_limits(),
        second.within_limits(),
        first.key@.len() == second.key@.len(),
        first.key@ != second.key@,
    ensures
        station_command(command, Some(wdev_id), key_command_body(peer, first)).subrange(70, 326)
            != station_command(command, Some(wdev_id), key_command_body(peer, second)).subrange(
            70,
            326,
        ),
{
    let one = station_command(command, Some(wdev_id), key_command_body(peer, first));
    let two = station_command(command, Some(wdev_id), key_command_body(peer, second));
    let len = first.key@.len() as int;
    law_key_message_layout(command, wdev_id, peer, first);
    law_key_message_layout(command, wdev_id, peer, second);
    assert(one.subrange(70, 326).subrange(0, len) =~= one.subrange(70, 70 + len));
    assert(two.subrange(70, 326).subrange(0, len) =~= two.subrange(70, 70 + len));
}

/// A key command body has 545 bytes.
pub proof fn lemma_key_command_len(peer: Option<[u8; 6]>, key: KeyConfig<'_>)
    requires
        key.within_limits(),
    ensures
        key_command_body(peer, key).len() == 545,
{
}

/// The four parts of an authenticate body and their lengths.
proof fn lemma_authenticate_lengths(request: AuthenticationRequest<'_>)
    requires
        request.within_limits(),
    ensures
        request.header_bytes().len() == 14,
        request.security_bytes().len() == 970,
        optional_key_image(request.key).len() == 535,
        request.sae_bytes().len() == 266,
        request.bss_bytes().len() == 426,
{
    match request.key {
        Some(key) => {
            law_key_block_layout(*key);
        },
        None => {},
    }
}

/// An authenticate body carries the channel, the authentication type, the key
/// block, the network name, the information elements, the SAE data, the peer
/// address and the scan context of the peer at fixed positions.
pub proof fn law_authenticate_body_layout(request: AuthenticationRequest<'_>)
    requires
        request.within_limits(),
    ensures
        ({
            let body = request.body();
            &&& body.len() == 1676
            &&& codec::u32_at(body, 0) == 12 + (if request.key is Some { 1int } else { 0int }) + (if request.sae_data@.len() > 0 { 32int } else { 0int })
            &&& codec::u32_at(body, 4) == request.frequency_mhz
            &&& codec::u16_at(body, 8) == (if request.local_state_change { 1int } else { 0int })
            &&& codec::i32_at(body, 10) == (match request.auth_type {
                AuthenticationType::OpenSystem => 0int,
                AuthenticationType::SharedKey => 1,
                AuthenticationType::FastTransition => 2,
                AuthenticationType::NetworkEap => 3,
                AuthenticationType::Sae => 4,
                AuthenticationType::Automatic => 6,
            })
            &&& body.subrange(14, 549) == (match request.key {
                Some(key) => key.image(),
                None => codec::zero_bytes(535),
            })
            &&& body[549] == request.ssid@.len()
            &&& body.subrange(550, 550 + request.ssid@.len() as int) == request.ssid@
            &&& forall|i: int| 550 + request.ssid@.len() <= i < 582 ==> #[trigger] body[i] == 0
            &&& codec::u16_at(body, 582) == request.information_elements@.len()
            &&& body.subrange(584, 584 + request.information_elements@.len() as int) == request.information_elements@
            &&& forall|i: int| 584 + request.information_elements@.len() <= i < 984 ==> #[trigger] body[i] == 0
        }),
{
    let body = request.body();
    lemma_authenticate_lengths(request);
    assert(codec::u32_at(body, 0) == request.mask()) by {
        assert(body.subrange(0, 4) =~= codec::le32(request.mask()));
        codec::law_u32_round_trip(body, 0, request.mask());
    }
    assert(codec::u32_at(body, 4) == request.frequency_mhz) by {
        assert(body.subrange(4, 8) =~= codec::le32(request.frequency_mhz));
        codec::law_u32_round_trip(body, 4, request.frequency_mhz);
    }
    assert(codec::u16_at(body, 8) == (protocol::flag(request.local_state_change) * AUTH_LOCAL_STATE_CHANGE) as u16) by {
        assert(body.subrange(8, 10) =~= codec::le16((protocol::flag(request.local_state_change) * AUTH_LOCAL_STATE_CHANGE) as u16));
        codec::law_u16_round_trip(body, 8, (protocol::flag(request.local_state_change) * AUTH_LOCAL_STATE_CHANGE) as u16);
    }
    assert(codec::i32_at(body, 10) == request.auth_type.wire()) by {
        assert(body.subrange(10, 14) =~= codec::le32(request.auth_type.wire() as u32));
        codec::law_i32_round_trip(body, 10, request.auth_type.wire());
    }
    assert(body.subrange(14, 549) =~= (match request.key {
                Some(key) => key.image(),
                None => codec::zero_bytes(535),
            }));
    assert(body.subrange(550, 550 + request.ssid@.len() as int) =~= request.ssid@);
    assert(codec::u16_at(body, 582) == request.information_elements@.len() as u16) by {
        assert(body.subrange(582, 584) =~= codec::le16(request.information_elements@.len() as u16));
        codec::law_u16_round_trip(body, 582, request.information_elements@.len() as u16);
    }
    assert(body.subrange(584, 584 + request.information_elements@.len() as int) =~= request.information_elements@);
}

/// Behind the information elements, an authenticate body carries the SAE data,
/// the peer address and what a scan told of the peer.
pub proof fn law_authenticate_context_layout(request: AuthenticationRequest<'_>)
    requires
        request.within_limits(),
    ensures
        ({
            let body = request.body();
            &&& body.len() == 1676
            &&& codec::u32_at(body, 984) == request.sae_data@.len()
            &&& body.subrange(988, 988 + request.sae_data@.len() as int) == request.sae_data@
            &&& forall|i: int| 988 + request.sae_data@.len() <= i < 1244 ==> #[trigger] body[i] == 0
            &&& body.subrange(1244, 1250) == request.bssid@
            &&& codec::i32_at(body, 1250) == request.bss.scan_width
            &&& codec::i32_at(body, 1254) == request.bss.signal_dbm
            &&& codec::u32_at(body, 1258) == (if request.bss.from_beacon { 1int } else { 0int })
            &&& codec::u16_at(body, 1262) == request.bss.information_elements@.len()
            &&& body.subrange(1264, 1264 + request.bss.information_elements@.len() as int) == request.bss.information_elements@
            &&& forall|i: int| 1264 + request.bss.information_elements@.len() <= i < 1664 ==> #[trigger] body[i] == 0
            &&& codec::u16_at(body, 1664) == request.bss.capability
            &&& codec::u16_at(body, 1666) == request.bss.beacon_interval
            &&& codec::u64_at(body, 1668) == request.bss.tsf
        }),
{
    let body = request.body();
    lemma_authenticate_lengths(request);
    assert(codec::u32_at(body, 984) == request.sae_data@.len() as u32) by {
        assert(body.subrange(984, 988) =~= codec::le32(request.sae_data@.len() as u32));
        codec::law_u32_round_trip(body, 984, request.sae_data@.len() as u32);
    }
    assert(body.subrange(988, 988 + request.sae_data@.len() as int) =~= request.sae_data@);
    assert(body.subrange(1244, 1250) =~= request.bssid@);
    assert(codec::i32_at(body, 1250) == request.bss.scan_width) by {
        assert(body.subrange(1250, 1254) =~= codec::le32(request.bss.scan_width as u32));
        codec::law_i32_round_trip(body, 1250, request.bss.scan_width);
    }
    assert(codec::i32_at(body, 1254) == request.bss.signal_dbm) by {
        assert(body.subrange(1254, 1258) =~= codec::le32(request.bss.signal_dbm as u32));
        codec::law_i32_round_trip(body, 1254, request.bss.signal_dbm);
    }
    assert(codec::u32_at(body, 1258) == protocol::flag(request.bss.from_beacon) as u32) by {
        assert(body.subrange(1258, 1262) =~= codec::le32(protocol::flag(request.bss.from_beacon) as u32));
        codec::law_u32_round_trip(body, 1258, protocol::flag(request.bss.from_beacon) as u32);
    }
    assert(codec::u16_at(body, 1262) == request.bss.information_elements@.len() as u16) by {
        assert(body.subrange(1262, 1264) =~= codec::le16(request.bss.information_elements@.len() as u16));
        codec::law_u16_round_trip(body, 1262, request.bss.information_elements@.len() as u16);
    }
    assert(body.subrange(1264, 1264 + request.bss.information_elements@.len() as int) =~= request.bss.information_elements@);
    assert(codec::u16_at(body, 1664) == request.bss.capability) by {
        assert(body.subrange(1664, 1666) =~= codec::le16(request.bss.capability));
        codec::law_u16_round_trip(body, 1664, request.bss.capability);
    }
    assert(codec::u16_at(body, 1666) == request.bss.beacon_interval) by {
        assert(body.subrange(1666, 1668) =~= codec::le16(request.bss.beacon_interval));
        codec::law_u16_round_trip(body, 1666, request.bss.beacon_interval);
    }
    assert(codec::u64_at(body, 1668) == request.bss.tsf) by {
        assert(body.subrange(1668, 1676) =~= codec::le64(request.bss.tsf));
        codec::law_u64_round_trip(body, 1668, request.bss.tsf);
    }
}

/// The parts of an association body and their lengths.
proof fn lemma_associate_lengths(request: AssociationRequest<'_>)
    requires
        request.within_limits(),
    ensures
        request.header_bytes().len() == 20,
        request.cipher_bytes().len() == 52,
        request.network_bytes().len() == 453,
        control_port_bytes().len() == 1034,
        request.previous_bytes().len() == 14,
{
    match request.security {
        Some(security) => {
            codec::lemma_le32_list_len(security.pairwise_ciphers@);
            codec::lemma_le32_list_len(security.akm_suites@);
        },
        None => {},
    }
}

/// An associate body carries the channel, the peer address, the network name and
/// the RSN element at fixed positions, and opens the control port for EAPOL frames.
pub proof fn law_associate_body_layout(request: AssociationRequest<'_>)
    requires
        request.within_limits(),
    ensures
        ({
            let body = request.body();
            &&& body.len() == 1573
            &&& codec::u32_at(body, 0) == (if request.previous_bssid is Some { 1int } else { 0int })
            &&& codec::u32_at(body, 4) == 1 + 4 + 32 + 4096 + 8192 + (if request.background_scan_period_s != 0 { 16int } else { 0int })
                + (if request.previous_bssid is Some { 32768int } else { 0int }) + (if request.security is Some { 64 + 128 + 256 + 512 + 1024 + 2048 + 65536int } else { 0int })
            &&& codec::u32_at(body, 8) == request.frequency_mhz
            &&& codec::u32_at(body, 12) == 0
            &&& codec::u32_at(body, 16) == (if request.security is Some { 2int } else { 0int })
            &&& codec::u32_at(body, 72) == 0
            &&& codec::u16_at(body, 76) == request.background_scan_period_s
            &&& body.subrange(78, 84) == request.bssid@
            &&& forall|i: int| 84 <= i < 90 ==> #[trigger] body[i] == 0
            &&& body[90] == request.ssid@.len()
            &&& body.subrange(91, 91 + request.ssid@.len() as int) == request.ssid@
            &&& forall|i: int| 91 + request.ssid@.len() <= i < 123 ==> #[trigger] body[i] == 0
            &&& codec::u16_at(body, 123) == request.rsn().len()
            &&& body.subrange(125, 125 + request.rsn().len() as int) == request.rsn()
            &&& forall|i: int| 125 + request.rsn().len() <= i < 525 ==> #[trigger] body[i] == 0
            &&& codec::u32_at(body, 525) == 0
            &&& codec::u16_at(body, 529) == 0
            &&& forall|i: int| 531 <= i < 1555 ==> #[trigger] body[i] == 0
            &&& codec::u16_at(body, 1555) == 0x888e
            &&& body[1557] == 1
            &&& body[1558] == 1
            &&& body.subrange(1559, 1565) == (match request.previous_bssid {
                Some(bssid) => bssid@,
                None => codec::zero_bytes(6),
            })
            &&& codec::u16_at(body, 1565) == request.bss_max_idle_s
            &&& body.subrange(1567, 1573) == (match request.previous_bssid {
                Some(bssid) => bssid@,
                None => codec::zero_bytes(6),
            })
        }),
{
    let body = request.body();
    lemma_associate_lengths(request);
    assert(codec::u32_at(body, 0) == (protocol::flag(request.previous_bssid is Some) * ASSOC_PREVIOUS_BSSID_VALID) as u32) by {
        assert(body.subrange(0, 4) =~= codec::le32((protocol::flag(request.previous_bssid is Some) * ASSOC_PREVIOUS_BSSID_VALID) as u32));
        codec::law_u32_round_trip(body, 0, (protocol::flag(request.previous_bssid is Some) * ASSOC_PREVIOUS_BSSID_VALID) as u32);
    }
    assert(codec::u32_at(body, 4) == request.mask()) by {
        assert(body.subrange(4, 8) =~= codec::le32(request.mask()));
        codec::law_u32_round_trip(body, 4, request.mask());
    }
    assert(codec::u32_at(body, 8) == request.frequency_mhz) by {
        assert(body.subrange(8, 12) =~= codec::le32(request.frequency_mhz));
        codec::law_u32_round_trip(body, 8, request.frequency_mhz);
    }
    assert(codec::u32_at(body, 12) == 0) by {
        assert(body.subrange(12, 16) =~= codec::le32(0));
        codec::law_u32_round_trip(body, 12, 0);
    }
    assert(codec::u32_at(body, 16) == (protocol::flag(request.security is Some) * WPA_VERSION_2) as u32) by {
        assert(body.subrange(16, 20) =~= codec::le32((protocol::flag(request.security is Some) * WPA_VERSION_2) as u32));
        codec::law_u32_round_trip(body, 16, (protocol::flag(request.security is Some) * WPA_VERSION_2) as u32);
    }
    assert(codec::u32_at(body, 72) == 0) by {
        assert(body.subrange(72, 76) =~= codec::le32(0));
        codec::law_u32_round_trip(body, 72, 0);
    }
    assert(codec::u16_at(body, 76) == request.background_scan_period_s) by {
        assert(body.subrange(76, 78) =~= codec::le16(request.background_scan_period_s));
        codec::law_u16_round_trip(body, 76, request.background_scan_period_s);
    }
    assert(body.subrange(78, 84) =~= request.bssid@);
    assert(body.subrange(91, 91 + request.ssid@.len() as int) =~= request.ssid@);
    assert(codec::u16_at(body, 123) == request.rsn().len() as u16) by {
        assert(body.subrange(123, 125) =~= codec::le16(request.rsn().len() as u16));
        codec::law_u16_round_trip(body, 123, request.rsn().len() as u16);
    }
    assert(body.subrange(125, 125 + request.rsn().len() as int) =~= request.rsn());
    assert(codec::u32_at(body, 525) == 0) by {
        assert(body.subrange(525, 529) =~= codec::le32(0));
        codec::law_u32_round_trip(body, 525, 0);
    }
    assert(codec::u16_at(body, 529) == 0) by {
        assert(body.subrange(529, 531) =~= codec::le16(0));
        codec::law_u16_round_trip(body, 529, 0);
    }
    assert(codec::u16_at(body, 1555) == 0x888e) by {
        assert(body.subrange(1555, 1557) =~= codec::le16(0x888e));
        codec::law_u16_round_trip(body, 1555, 0x888e);
    }
    assert(body.subrange(1559, 1565) =~= (match request.previous_bssid {
                Some(bssid) => bssid@,
                None => codec::zero_bytes(6),
            }));
    assert(codec::u16_at(body, 1565) == request.bss_max_idle_s) by {
        assert(body.subrange(1565, 1567) =~= codec::le16(request.bss_max_idle_s));
        codec::law_u16_round_trip(body, 1565, request.bss_max_idle_s);
    }
    assert(body.subrange(1567, 1573) =~= (match request.previous_bssid {
                Some(bssid) => bssid@,
                None => codec::zero_bytes(6),
            }));
}

/// A secure associate body lists the pairwise ciphers, the group cipher, the key
/// management suites and the management frame protection, and carries the RSN
/// element; an open one leaves all of them zero.
pub proof fn law_associate_security_layout(request: AssociationRequest<'_>, security: AssociationSecurity<'_>)
    requires
        request.within_limits(),
        request.security == Some(security),
    ensures
        ({
            let body = request.body();
            &&& body.len() == 1573
            &&& codec::u32_at(body, 20) == security.pairwise_ciphers@.len()
            &&& body.subrange(24, 24 + codec::le32_list(security.pairwise_ciphers@).len() as int) == codec::le32_list(security.pairwise_ciphers@)
            &&& forall|i: int| 24 + codec::le32_list(security.pairwise_ciphers@).len() <= i < 52 ==> #[trigger] body[i] == 0
            &&& codec::u32_at(body, 52) == security.group_cipher
            &&& codec::u32_at(body, 56) == security.akm_suites@.len()
            &&& body.subrange(60, 60 + codec::le32_list(security.akm_suites@).len() as int) == codec::le32_list(security.akm_suites@)
            &&& forall|i: int| 60 + codec::le32_list(security.akm_suites@).len() <= i < 68 ==> #[trigger] body[i] == 0
            &&& codec::i32_at(body, 68) == (if security.mfp is Required { 1int } else { 0int })
            &&& codec::u16_at(body, 123) == security.rsn_information_element@.len()
            &&& body.subrange(125, 125 + security.rsn_information_element@.len() as int) == security.rsn_information_element@
            &&& forall|i: int| 125 + security.rsn_information_element@.len() <= i < 525 ==> #[trigger] body[i] == 0
        }),
{
    let body = request.body();
    lemma_associate_lengths(request);
    codec::lemma_le32_list_len(security.pairwise_ciphers@);
    codec::lemma_le32_list_len(security.akm_suites@);
    assert(codec::u32_at(body, 20) == security.pairwise_ciphers@.len() as u32) by {
        assert(body.subrange(20, 24) =~= codec::le32(security.pairwise_ciphers@.len() as u32));
        codec::law_u32_round_trip(body, 20, security.pairwise_ciphers@.len() as u32);
    }
    assert(body.subrange(24, 24 + codec::le32_list(security.pairwise_ciphers@).len() as int) =~= codec::le32_list(security.pairwise_ciphers@));
    assert(codec::u32_at(body, 52) == security.group_cipher) by {
        assert(body.subrange(52, 56) =~= codec::le32(security.group_cipher));
        codec::law_u32_round_trip(body, 52, security.group_cipher);
    }
    assert(codec::u32_at(body, 56) == security.akm_suites@.len() as u32) by {
        assert(body.subrange(56, 60) =~= codec::le32(security.akm_suites@.len() as u32));
        codec::law_u32_round_trip(body, 56, security.akm_suites@.len() as u32);
    }
    assert(body.subrange(60, 60 + codec::le32_list(security.akm_suites@).len() as int) =~= codec::le32_list(security.akm_suites@));
    assert(codec::i32_at(body, 68) == security.mfp.wire()) by {
        assert(body.subrange(68, 72) =~= codec::le32(security.mfp.wire() as u32));
        codec::law_i32_round_trip(body, 68, security.mfp.wire());
    }
    assert(codec::u16_at(body, 123) == security.rsn_information_element@.len() as u16) by {
        assert(body.subrange(123, 125) =~= codec::le16(security.rsn_information_element@.len() as u16));
        codec::law_u16_round_trip(body, 123, security.rsn_information_element@.len() as u16);
    }
    assert(body.subrange(125, 125 + security.rsn_information_element@.len() as int) =~= security.rsn_information_element@);
}

/// An open association names no cipher, no key management suite and no RSN
/// element.
pub proof fn law_open_associate_layout(request: AssociationRequest<'_>)
    requires
        request.within_limits(),
        request.security is None,
    ensures
        ({
            let body = request.body();
            &&& body.len() == 1573
            &&& codec::u32_at(body, 20) == 0
            &&& forall|i: int| 24 <= i < 52 ==> #[trigger] body[i] == 0
            &&& codec::u32_at(body, 52) == 0
            &&& codec::u32_at(body, 56) == 0
            &&& forall|i: int| 60 <= i < 68 ==> #[trigger] body[i] == 0
            &&& codec::i32_at(body, 68) == 0
            &&& codec::u16_at(body, 123) == 0
            &&& forall|i: int| 125 <= i < 525 ==> #[trigger] body[i] == 0
        }),
{
    let body = request.body();
    lemma_associate_lengths(request);
    assert(codec::u32_at(body, 20) == 0) by {
        assert(body.subrange(20, 24) =~= codec::le32(0));
        codec::law_u32_round_trip(body, 20, 0);
    }
    assert(codec::u32_at(body, 52) == 0) by {
        assert(body.subrange(52, 56) =~= codec::le32(0));
        codec::law_u32_round_trip(body, 52, 0);
    }
    assert(codec::u32_at(body, 56) == 0) by {
        assert(body.subrange(56, 60) =~= codec::le32(0));
        codec::law_u32_round_trip(body, 56, 0);
    }
    assert(codec::i32_at(body, 68) == 0) by {
        assert(body.subrange(68, 72) =~= codec::le32(0 as u32));
        codec::law_i32_round_trip(body, 68, 0);
    }
    assert(codec::u16_at(body, 123) == 0) by {
        assert(body.subrange(123, 125) =~= codec::le16(0));
        codec::law_u16_round_trip(body, 123, 0);
    }
}

/// An interface state body says whether the interface goes up and which firmware
/// interface is meant.
pub proof fn law_interface_state_layout(up: bool, firmware_index: i8)
    ensures
        ({
            let body = interface_state_body(up, firmware_index);
            &&& body.len() == 5
            &&& codec::u32_at(body, 0) == (if up { 1int } else { 0int })
            &&& body[4] == firmware_index as u8
        }),
{
    let body = interface_state_body(up, firmware_index);
    assert(codec::u32_at(body, 0) == protocol::flag(up) as u32) by {
        assert(body.subrange(0, 4) =~= codec::le32(protocol::flag(up) as u32));
        codec::law_u32_round_trip(body, 0, protocol::flag(up) as u32);
    }
}

/// A regulatory body marks what it carries, names the hint type and ends with the
/// two letters of the country.
pub proof fn law_regulatory_layout(country: Seq<u8>, user_hint_type: u32, force: bool)
    requires
        country.len() == 2,
    ensures
        ({
            let body = regulatory_body(country, user_hint_type, force);
            &&& body.len() == 10
            &&& codec::u32_at(body, 0) == 3 + (if force { 4int } else { 0int })
            &&& codec::u32_at(body, 4) == user_hint_type
            &&& body.skip(8) == country
        }),
{
    let body = regulatory_body(country, user_hint_type, force);
    assert(codec::u32_at(body, 0) == (3 + protocol::flag(force) * 4) as u32) by {
        assert(body.subrange(0, 4) =~= codec::le32((3 + protocol::flag(force) * 4) as u32));
        codec::law_u32_round_trip(body, 0, (3 + protocol::flag(force) * 4) as u32);
    }
    assert(codec::u32_at(body, 4) == user_hint_type) by {
        assert(body.subrange(4, 8) =~= codec::le32(user_hint_type));
        codec::law_u32_round_trip(body, 4, user_hint_type);
    }
    assert(body.skip(8) =~= country);
}

/// A station body changes the authorized flag alone: the mask names it, the value
/// sets or clears it, and the peer address stands behind the unused fields.
pub proof fn law_station_authorized_layout(peer: Seq<u8>, authorized: bool)
    requires
        peer.len() == 6,
    ensures
        ({
            let body = station_authorized_body(peer, authorized);
            &&& body.len() == 793
            &&& codec::u32_at(body, 0) == 4096
            &&& forall|i: int| 4 <= i < 264 ==> #[trigger] body[i] == 0
            &&& codec::u32_at(body, 264) == 2
            &&& codec::u32_at(body, 268) == (if authorized { 2int } else { 0int })
            &&& forall|i: int| 272 <= i < 784 ==> #[trigger] body[i] == 0
            &&& body.subrange(784, 790) == peer
            &&& forall|i: int| 790 <= i < 793 ==> #[trigger] body[i] == 0
        }),
{
    let body = station_authorized_body(peer, authorized);
    assert(codec::u32_at(body, 0) == 4096) by {
        assert(body.subrange(0, 4) =~= codec::le32(4096));
        codec::law_u32_round_trip(body, 0, 4096);
    }
    assert(codec::u32_at(body, 264) == 2) by {
        assert(body.subrange(264, 268) =~= codec::le32(2));
        codec::law_u32_round_trip(body, 264, 2);
    }
    assert(codec::u32_at(body, 268) == (protocol::flag(authorized) * STATION_FLAG_AUTHORIZED) as u32) by {
        assert(body.subrange(268, 272) =~= codec::le32((protocol::flag(authorized) * STATION_FLAG_AUTHORIZED) as u32));
        codec::law_u32_round_trip(body, 268, (protocol::flag(authorized) * STATION_FLAG_AUTHORIZED) as u32);
    }
    assert(body.subrange(784, 790) =~= peer);
}

/// A scan result reads every field from its own place in the event body; the
/// address of the access point stands in body bytes 56 to 62.
pub proof fn law_scan_result_layout(event: ScanResultEvent<'_>, header: UmacHeader, body: Seq<u8>)
    requires
        event.reads(header, body),
        scan_result_complete(body),
    ensures
        body.len() >= 70 + event.information_elements@.len()
            + event.beacon_information_elements@.len(),
        event.header == header,
        forall|i: int| 0 <= i < 6 ==> event.bssid@[i] == #[trigger] body.skip(56)[i],
        event.valid_fields == codec::u32_at(body, 0),
        event.frequency_mhz == codec::u32_at(body, 8),
        event.channel_width == codec::u32_at(body, 12),
        event.seen_ms_ago == codec::u32_at(body, 16),
        event.status == codec::i32_at(body, 24),
        event.beacon_interval == codec::u16_at(body, 44),
        event.capability == codec::u16_at(body, 46),
        codec::u32_at(body, 48) != 2 ==> event.signal == codec::i32_at(body, 52),
        codec::u32_at(body, 48) == 2 && codec::i32_at(body, 52) >= 0 ==> 100 * event.signal
            <= codec::i32_at(body, 52) < 100 * event.signal + 100,
        codec::u32_at(body, 48) == 2 && codec::i32_at(body, 52) <= 0 ==> 100 * event.signal - 100
            < codec::i32_at(body, 52) <= 100 * event.signal,
        event.information_elements@.len() == codec::u32_at(body, 62),
        event.beacon_information_elements@.len() == codec::u32_at(body, 66),
        forall|i: int|
            0 <= i < event.information_elements@.len() ==> event.information_elements@[i]
                == #[trigger] body.skip(70)[i],
        forall|i: int|
            0 <= i < event.beacon_information_elements@.len()
                ==> event.beacon_information_elements@[i] == #[trigger] body.skip(
                70 + event.information_elements@.len() as int,
            )[i],
{
}

/// A scan result that was written field by field at the wire positions reads
/// back with each field it was written with.
pub proof fn law_scan_result_round_trip(
    event: ScanResultEvent<'_>,
    header: UmacHeader,
    fields: ScanResultEvent<'_>,
    gap: Seq<u8>,
    tail: Seq<u8>,
)
    requires
        gap.len() == 24,
        fields.information_elements@.len() <= u32::MAX,
        fields.beacon_information_elements@.len() <= u32::MAX,
        event.reads(header, scan_result_image(fields, gap, tail)),
    ensures
        scan_result_complete(scan_result_image(fields, gap, tail)),
        event.header == header,
        event.valid_fields == fields.valid_fields,
        event.frequency_mhz == fields.frequency_mhz,
        event.channel_width == fields.channel_width,
        event.seen_ms_ago == fields.seen_ms_ago,
        event.status == fields.status,
        event.signal == fields.signal,
        event.bssid@ == fields.bssid@,
        event.beacon_interval == fields.beacon_interval,
        event.capability == fields.capability,
        event.information_elements@ == fields.information_elements@,
        event.beacon_information_elements@ == fields.beacon_information_elements@,
{
    let body = scan_result_image(fields, gap, tail);
    let ies = fields.information_elements@;
    let beacon = fields.beacon_information_elements@;
    assert(body.subrange(0, 4) =~= codec::le32(fields.valid_fields));
    codec::law_u32_round_trip(body, 0, fields.valid_fields);
    assert(body.subrange(8, 12) =~= codec::le32(fields.frequency_mhz));
    codec::law_u32_round_trip(body, 8, fields.frequency_mhz);
    assert(body.subrange(12, 16) =~= codec::le32(fields.channel_width));
    codec::law_u32_round_trip(body, 12, fields.channel_width);
    assert(body.subrange(16, 20) =~= codec::le32(fields.seen_ms_ago));
    codec::law_u32_round_trip(body, 16, fields.seen_ms_ago);
    assert(body.subrange(24, 28) =~= codec::le32(fields.status as u32));
    codec::law_i32_round_trip(body, 24, fields.status);
    assert(body.subrange(44, 46) =~= codec::le16(fields.beacon_interval));
    codec::law_u16_round_trip(body, 44, fields.beacon_interval);
    assert(body.subrange(46, 48) =~= codec::le16(fields.capability));
    codec::law_u16_round_trip(body, 46, fields.capability);
    assert(body.subrange(48, 52) =~= codec::le32(1));
    codec::law_u32_round_trip(body, 48, 1);
    assert(body.subrange(52, 56) =~= codec::le32(fields.signal as u32));
    codec::law_i32_round_trip(body, 52, fields.signal);
    assert(body.subrange(56, 62) =~= fields.bssid@);
    assert(body.subrange(62, 66) =~= codec::le32(ies.len() as u32));
    codec::law_u32_round_trip(body, 62, ies.len() as u32);
    assert(body.subrange(66, 70) =~= codec::le32(beacon.len() as u32));
    codec::law_u32_round_trip(body, 66, beacon.len() as u32);
    assert(body.subrange(70, 70 + ies.len() as int) =~= ies);
    assert(body.subrange(70 + ies.len() as int, 70 + ies.len() as int + beacon.len() as int)
        =~= beacon);
}

/// A scan result body written field by field, with the signal in whole units;
/// `gap` fills the places that no field is read from and `tail` may follow.
pub open spec fn scan_result_image(
    fields: ScanResultEvent<'_>,
    gap: Seq<u8>,
    tail: Seq<u8>,
) -> Seq<u8> {
    (codec::le32(fields.valid_fields) + gap.subrange(0, 4) + codec::le32(fields.frequency_mhz)
        + codec::le32(fields.channel_width) + codec::le32(fields.seen_ms_ago) + gap.subrange(4, 8)
        + codec::le32(fields.status as u32) + gap.subrange(8, 24)) + (codec::le16(
        fields.beacon_interval,
    ) + codec::le16(fields.capability) + codec::le32(1) + codec::le32(fields.signal as u32)
        + fields.bssid@ + codec::le32(fields.information_elements@.len() as u32) + codec::le32(
        fields.beacon_information_elements@.len() as u32,
    )) + (fields.information_elements@ + fields.beacon_information_elements@ + tail)
}

/// An MLME event reads every field from its own place in the event body: the
/// frame from byte 28, the peer address from byte 428, the request elements from
/// byte 439 on.
pub proof fn law_mlme_event_layout(event: MlmeEvent<'_>, header: UmacHeader, body: Seq<u8>)
    requires
        event.reads(header, body),
        mlme_complete(body),
    ensures
        body.len() >= 439 + event.request_information_elements@.len(),
        event.header == header,
        event.valid_fields == codec::u32_at(body, 0),
        event.frequency_mhz == codec::u32_at(body, 4),
        event.signal_dbm == codec::i32_at(body, 8),
        event.flags == codec::u32_at(body, 12),
        event.cookie == codec::u64_at(body, 16),
        event.frame@.len() == codec::i32_at(body, 24),
        event.frame@.len() <= 400,
        forall|i: int|
            0 <= i < event.frame@.len() ==> event.frame@[i] == #[trigger] body.skip(28)[i],
        forall|i: int| 0 <= i < 6 ==> event.bssid@[i] == #[trigger] body.skip(428)[i],
        event.request_information_elements@.len() == codec::u32_at(body, 435),
        forall|i: int|
            0 <= i < event.request_information_elements@.len()
                ==> event.request_information_elements@[i] == #[trigger] body.skip(439)[i],
{
}

/// An event is read as the kind that its code names, and its status, type or
/// country from its own place in the body.
pub proof fn law_control_events_follow_their_code(
    event: ControlEvent<'_>,
    header: UmacHeader,
    body: Seq<u8>,
)
    requires
        event.reads(header, body),
        control_body_complete(header.command_event, body),
    ensures
        event is ScanDone <==> header.command_event == 259,
        event is ScanResult <==> header.command_event == 260,
        event is Authentication <==> header.command_event == 261,
        event is Association <==> header.command_event == 262,
        event is Deauthentication <==> header.command_event == 264,
        event is Disassociation <==> header.command_event == 265,
        event is InterfaceState <==> header.command_event == 275,
        event is RegulatoryChange <==> header.command_event == 289,
        event is CommandStatus <==> header.command_event == 292,
        event matches ControlEvent::ScanDone { status, scan_type, .. } ==> status
            == codec::i32_at(body, 0) && scan_type == codec::u32_at(body, 4),
        event matches ControlEvent::CommandStatus { command, status, .. } ==> command
            == codec::u32_at(body, 0) && status == codec::u32_at(body, 4),
        event matches ControlEvent::InterfaceState { status, .. } ==> status == codec::i32_at(
            body,
            0,
        ),
        event matches ControlEvent::RegulatoryChange { country, .. } ==> country@[0] == body[7]
            && country@[1] == body[8],
        event matches ControlEvent::Other { body: bytes, .. } ==> bytes@ == body,
{
}

/// An event body is accepted exactly when it holds every byte that its kind is
/// read from.
pub proof fn law_control_bodies_hold_their_fields(event: u32, body: Seq<u8>)
    ensures
        event == 259 || event == 292 ==> (control_body_complete(event, body) <==> body.len() >= 8),
        event == 275 ==> (control_body_complete(event, body) <==> body.len() >= 4),
        event == 289 ==> (control_body_complete(event, body) <==> body.len() >= 9),
        event == 260 ==> (control_body_complete(event, body) <==> body.len() >= 70 && body.len()
            >= 70 + codec::u32_at(body, 62) + codec::u32_at(body, 66)),
        event == 261 || event == 262 || event == 264 || event == 265 ==> (control_body_complete(
            event,
            body,
        ) <==> body.len() >= 439 && 0 <= codec::i32_at(body, 24) <= 400 && body.len() >= 439
            + codec::u32_at(body, 435)),
        event != 259 && event != 260 && event != 261 && event != 262 && event != 264 && event != 265
            && event != 275 && event != 289 && event != 292 ==> control_body_complete(event, body),
{
}

/// Keys, requests and security settings are accepted exactly within the bounds of
/// their wire fields.
pub proof fn law_limits_are_the_field_widths(
    key: KeyConfig<'_>,
    authentication: AuthenticationRequest<'_>,
    association: AssociationRequest<'_>,
    security: AssociationSecurity<'_>,
)
    ensures
        key.within_limits() <==> key.key@.len() <= 256 && key.sequence@.len() <= 256
            && key.key_index < 4,
        authentication.within_limits() <==> authentication.ssid@.len() <= 32
            && authentication.information_elements@.len() <= 400
            && authentication.bss.information_elements@.len() <= 400
            && authentication.sae_data@.len() <= 256 && (authentication.key matches Some(own)
            ==> own.within_limits()),
        association.within_limits() <==> association.ssid@.len() <= 32 && (
        association.security matches Some(own) ==> own.within_limits()),
        security.within_limits() <==> security.rsn_information_element@.len() <= 400 && 0
            < security.pairwise_ciphers@.len() < 8 && 0 < security.akm_suites@.len() < 3,
{
}

/// Two letters or `00` make a regulatory domain, and nothing else does.
pub proof fn law_regulatory_domains(country: Seq<u8>)
    requires
        country.len() == 2,
    ensures
        regulatory_domain(country) <==> (country[0] == 48 && country[1] == 48) || (forall|i: int|
            0 <= i < 2 ==> (65 <= #[trigger] country[i] <= 90 || 97 <= country[i] <= 122)),
{
    assert(country[0] == 48 && country[1] == 48 ==> country =~= seq![48u8, 48u8]);
}

/// An encoded key command holds, in the key block from message byte 52 on, the key
/// length at block byte 14, the key behind it, the sequence length at block byte 274
/// and the sequence behind it.
pub proof fn law_encoded_key_commands(
    wdev_id: u32,
    command: UmacCommand,
    peer: Option<[u8; 6]>,
    key: &KeyConfig<'_>,
    len: usize,
)
    ensures
        forall|out: &mut [u8]| #[trigger]
            call_ensures(
                encode_key_command,
                (out, wdev_id, command, peer, key),
                Ok::<usize, ProtocolError>(len),
            ) ==> {
                let block = final(out)@.subrange(52, 587);
                let key_len = key.key@.len() as int;
                let sequence_len = key.sequence@.len() as int;
                &&& len == 593
                &&& key_len <= 256 && sequence_len <= 256
                &&& codec::u32_at(block, 4) == key.cipher_suite
                &&& codec::u16_at(block, 8) == key.flags
                &&& codec::u32_at(block, 14) == key_len
                &&& block.subrange(18, 18 + key_len) == key.key@
                &&& codec::u32_at(block, 274) == sequence_len
                &&& block.subrange(278, 278 + sequence_len) == key.sequence@
                &&& block[534] == key.key_index
            },
{
    assert forall|out: &mut [u8]| #[trigger]
        call_ensures(
            encode_key_command,
            (out, wdev_id, command, peer, key),
            Ok::<usize, ProtocolError>(len),
        ) implies {
        let block = final(out)@.subrange(52, 587);
        let key_len = key.key@.len() as int;
        let sequence_len = key.sequence@.len() as int;
        &&& len == 593
        &&& key_len <= 256 && sequence_len <= 256
        &&& codec::u32_at(block, 4) == key.cipher_suite
        &&& codec::u16_at(block, 8) == key.flags
        &&& codec::u32_at(block, 14) == key_len
        &&& block.subrange(18, 18 + key_len) == key.key@
        &&& codec::u32_at(block, 274) == sequence_len
        &&& block.subrange(278, 278 + sequence_len) == key.sequence@
        &&& block[534] == key.key_index
    } by {
        let block = final(out)@.subrange(52, 587);
        assert(block == key.image()) by {
            lemma_key_block_position(command, wdev_id, peer, *key, out@.skip(len as int));
        }
        law_key_block_layout(*key);
    }
}

/// The key block stands in message bytes 52 to 587.
proof fn lemma_key_block_position(
    command: UmacCommand,
    wdev_id: u32,
    peer: Option<[u8; 6]>,
    key: KeyConfig<'_>,
    rest: Seq<u8>,
)
    requires
        key.within_limits(),
    ensures
        (station_command(command, Some(wdev_id), key_command_body(peer, key)) + rest).subrange(
            52,
            587,
        ) == key.image(),
{
    let body = key_command_body(peer, key);
    let message = station_command(command, Some(wdev_id), body);
    assert(key.image().len() == 535);
    assert(body.subrange(4, 539) =~= key.image());
    assert(message.skip(48) =~= body);
    assert((message + rest).subrange(52, 587) =~= body.subrange(4, 539));
}

/// A parsed scan result shows the address that stands in body bytes 56 to 62, and
/// every body that holds its fields is parsed.
pub proof fn law_parsed_scan_results(
    header: UmacHeader,
    body: &[u8],
    result: Result<ScanResultEvent<'_>, ProtocolError>,
)
    requires
        call_ensures(parse_scan_result, (header, body), result),
    ensures
        result is Ok <==> body@.len() >= 70 && body@.len() >= 70 + codec::u32_at(body@, 62)
            + codec::u32_at(body@, 66),
        result matches Ok(event) ==> {
            &&& event.header == header
            &&& forall|i: int| 0 <= i < 6 ==> event.bssid@[i] == #[trigger] body@.skip(56)[i]
            &&& event.frequency_mhz == codec::u32_at(body@, 8)
            &&& event.beacon_interval == codec::u16_at(body@, 44)
            &&& event.capability == codec::u16_at(body@, 46)
            &&& event.information_elements@ == body@.subrange(
                70,
                70 + codec::u32_at(body@, 62) as int,
            )
        },
        result matches Err(error) ==> error == ProtocolError::InvalidLength,
{
}

/// A parsed MLME event shows the frame, the address and the flags that stand at their
/// places in the body.
pub proof fn law_parsed_mlme_events(
    header: UmacHeader,
    body: &[u8],
    result: Result<MlmeEvent<'_>, ProtocolError>,
)
    requires
        call_ensures(parse_mlme, (header, body), result),
    ensures
        result is Ok <==> body@.len() >= 439 && 0 <= codec::i32_at(body@, 24) <= 400 && body@.len()
            >= 439 + codec::u32_at(body@, 435),
        result matches Ok(event) ==> {
            &&& event.header == header
            &&& event.valid_fields == codec::u32_at(body@, 0)
            &&& event.flags == codec::u32_at(body@, 12)
            &&& event.frame@ == body@.subrange(28, 28 + codec::i32_at(body@, 24))
            &&& event.bssid@ == body@.subrange(428, 434)
        },
        result matches Err(error) ==> error == ProtocolError::InvalidLength,
{
}

/// A station message is refused when it does not fit the buffer or 2048 bytes.
pub proof fn law_station_message_bounds(out_len: nat, body_len: nat)
    requires
        out_len <= usize::MAX,
    ensures
        station_fault(out_len, body_len) is None <==> 48 + body_len <= out_len && 48 + body_len
            <= 2048,
        station_fault(out_len, body_len) == Some(ProtocolError::BufferTooSmall) <==> 48 + body_len
            <= usize::MAX && (48 + body_len > out_len || 48 + body_len > 2048),
{
}

} // verus!

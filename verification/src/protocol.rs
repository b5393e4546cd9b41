//! Protocol adapter descriptors and fixed-capacity registry contracts.
//!
//! Protocol adapters declare transport semantics, maximum payload size,
//! required capabilities, and redaction behavior. The registry is deliberately
//! fixed-capacity so host-mode tests and future kernel callers can use it
//! without allocation.

use crate::packet::{PacketBuffer, PacketFlags, PacketProtocol, MAX_PACKET_PAYLOAD_LEN, PACKET_FLAG_ENCRYPTED};
use crate::slots::{set_slot, vacant_array, 
    count_some, first_index, first_index_from, lemma_count_some_bounds, lemma_count_some_update,
    lemma_count_some_vacant, lemma_first_index, lemma_first_index_at, lemma_first_index_exists,
    vacant,
};
use crate::{
    bits_contain, flag_bits_contain, label_check, redaction_allowed, same_text, text_eq,
    validate_network_label, validate_redaction, DataClass, NetworkError, NetworkResult,
    RedactionState,
};
use vstd::prelude::*;

verus! {

/// Protocol schema version owned by this crate.
pub const PROTOCOL_SCHEMA_VERSION: &'static str = "alani.network.protocol.v1";

/// Maximum protocol adapter name length.
pub const MAX_PROTOCOL_NAME_LEN: usize = 96;

/// Maximum protocol adapter version label length.
pub const MAX_PROTOCOL_VERSION_LEN: usize = 64;

/// Capability bit for datagram transports.
pub const PROTOCOL_CAP_DATAGRAM: u64 = 0x1;
/// Capability bit for stream transports.
pub const PROTOCOL_CAP_STREAM: u64 = 0x2;
/// Capability bit for reliable delivery.
pub const PROTOCOL_CAP_RELIABLE: u64 = 0x4;
/// Capability bit for ordered delivery.
pub const PROTOCOL_CAP_ORDERED: u64 = 0x8;
/// Capability bit for checksum coverage.
pub const PROTOCOL_CAP_CHECKSUM: u64 = 0x10;
/// Capability bit restricting the adapter to loopback paths.
pub const PROTOCOL_CAP_LOOPBACK_ONLY: u64 = 0x20;
/// Capability bit requiring encryption metadata for protected payloads.
pub const PROTOCOL_CAP_ENCRYPTION_REQUIRED: u64 = 0x40;
/// Capability bit for control-plane transport.
pub const PROTOCOL_CAP_CONTROL: u64 = 0x80;
/// Capability bit for raw packet transport.
pub const PROTOCOL_CAP_RAW: u64 = 0x100;

/// Protocol capabilities known by this crate version (the union of the
/// capability bits above).
pub const KNOWN_PROTOCOL_CAPABILITIES: u64 = 0x1ff;

/// Module boundary descriptor.
#[derive(Debug, Eq, PartialEq)]
pub struct ProtocolDescriptor<'a> {
    /// Human-readable descriptor name.
    pub name: &'a str,
    /// Descriptor version.
    pub version: u32,
}

impl<'a> Clone for ProtocolDescriptor<'a> {
    /// Copies the descriptor: same name and version.
    fn clone(&self) -> (r: Self)
        ensures
            r == *self,
    {
        ProtocolDescriptor { name: self.name, version: self.version }
    }
}

impl<'a> ProtocolDescriptor<'a> {
    /// Creates a protocol descriptor.
    pub fn new(name: &'a str, version: u32) -> (r: Self)
        ensures
            r.name == name,
            r.version == version,
    {
        ProtocolDescriptor { name, version }
    }
}

/// Transport protocol exposed through sockets and adapters.
#[derive(Clone, Copy, Debug, Eq, PartialEq, Structural)]
pub enum TransportProtocol {
    /// Loopback-only datagram transport.
    Loopback,
    /// User Datagram Protocol.
    Udp,
    /// Transmission Control Protocol.
    Tcp,
    /// ICMP control protocol.
    Icmp,
    /// Raw packet protocol.
    Raw,
    /// Alani control-plane protocol.
    Control,
}

impl TransportProtocol {
    /// The packet protocols each transport accepts: its own, and for raw
    /// transport both IPv4 and IPv6.
    pub open spec fn spec_accepts(self, protocol: PacketProtocol) -> bool {
        match self {
            TransportProtocol::Loopback => protocol is Loopback,
            TransportProtocol::Udp => protocol is Udp,
            TransportProtocol::Tcp => protocol is Tcp,
            TransportProtocol::Icmp => protocol is Icmp,
            TransportProtocol::Raw => protocol is Ipv4 || protocol is Ipv6,
            TransportProtocol::Control => protocol is Control,
        }
    }

    /// Transports whose adapter metadata needs a default port.
    pub open spec fn spec_requires_port(self) -> bool {
        self is Loopback || self is Udp || self is Tcp || self is Control
    }

    /// The conservative default port of each transport.
    pub open spec fn spec_default_port(self) -> u16 {
        match self {
            TransportProtocol::Loopback => 1,
            TransportProtocol::Udp => 9,
            TransportProtocol::Tcp => 9,
            TransportProtocol::Icmp => 0,
            TransportProtocol::Raw => 0,
            TransportProtocol::Control => 1,
        }
    }

    /// The capabilities each transport implies.
    pub open spec fn spec_default_capabilities(self) -> ProtocolCapabilities {
        match self {
            TransportProtocol::Loopback => ProtocolCapabilities(
                PROTOCOL_CAP_DATAGRAM | PROTOCOL_CAP_LOOPBACK_ONLY | PROTOCOL_CAP_CHECKSUM,
            ),
            TransportProtocol::Udp => ProtocolCapabilities(
                PROTOCOL_CAP_DATAGRAM | PROTOCOL_CAP_CHECKSUM,
            ),
            TransportProtocol::Tcp => ProtocolCapabilities(
                PROTOCOL_CAP_STREAM | PROTOCOL_CAP_RELIABLE | PROTOCOL_CAP_ORDERED
                    | PROTOCOL_CAP_CHECKSUM,
            ),
            TransportProtocol::Icmp => ProtocolCapabilities(
                PROTOCOL_CAP_DATAGRAM | PROTOCOL_CAP_CONTROL,
            ),
            TransportProtocol::Raw => ProtocolCapabilities(PROTOCOL_CAP_DATAGRAM | PROTOCOL_CAP_RAW),
            TransportProtocol::Control => ProtocolCapabilities(
                PROTOCOL_CAP_DATAGRAM | PROTOCOL_CAP_CONTROL | PROTOCOL_CAP_LOOPBACK_ONLY,
            ),
        }
    }

    /// Stable protocol label.
    pub fn label(self) -> (r: &'static str)
        ensures
            r@ == match self {
                TransportProtocol::Loopback => "loopback"@,
                TransportProtocol::Udp => "udp"@,
                TransportProtocol::Tcp => "tcp"@,
                TransportProtocol::Icmp => "icmp"@,
                TransportProtocol::Raw => "raw"@,
                TransportProtocol::Control => "control"@,
            },
    {
        match self {
            TransportProtocol::Loopback => "loopback",
            TransportProtocol::Udp => "udp",
            TransportProtocol::Tcp => "tcp",
            TransportProtocol::Icmp => "icmp",
            TransportProtocol::Raw => "raw",
            TransportProtocol::Control => "control",
        }
    }

    /// Packet protocol used by this transport.
    pub fn packet_protocol(self) -> (r: PacketProtocol)
        ensures
            r == match self {
                TransportProtocol::Loopback => PacketProtocol::Loopback,
                TransportProtocol::Udp => PacketProtocol::Udp,
                TransportProtocol::Tcp => PacketProtocol::Tcp,
                TransportProtocol::Icmp => PacketProtocol::Icmp,
                TransportProtocol::Raw => PacketProtocol::Ipv4,
                TransportProtocol::Control => PacketProtocol::Control,
            },
            self.spec_accepts(r),
    {
        match self {
            TransportProtocol::Loopback => PacketProtocol::Loopback,
            TransportProtocol::Udp => PacketProtocol::Udp,
            TransportProtocol::Tcp => PacketProtocol::Tcp,
            TransportProtocol::Icmp => PacketProtocol::Icmp,
            TransportProtocol::Raw => PacketProtocol::Ipv4,
            TransportProtocol::Control => PacketProtocol::Control,
        }
    }

    /// Returns `true` when this transport accepts the packet protocol.
    pub fn accepts_packet_protocol(self, protocol: PacketProtocol) -> (r: bool)
        ensures
            r == self.spec_accepts(protocol),
    {
        match self {
            TransportProtocol::Loopback => matches!(protocol, PacketProtocol::Loopback),
            TransportProtocol::Udp => matches!(protocol, PacketProtocol::Udp),
            TransportProtocol::Tcp => matches!(protocol, PacketProtocol::Tcp),
            TransportProtocol::Icmp => matches!(protocol, PacketProtocol::Icmp),
            TransportProtocol::Raw => matches!(protocol, PacketProtocol::Ipv4 | PacketProtocol::Ipv6),
            TransportProtocol::Control => matches!(protocol, PacketProtocol::Control),
        }
    }

    /// Returns `true` when a default port is required for adapter metadata.
    pub fn requires_port(self) -> (r: bool)
        ensures
            r == self.spec_requires_port(),
    {
        matches!(
            self,
            TransportProtocol::Loopback | TransportProtocol::Udp | TransportProtocol::Tcp
                | TransportProtocol::Control
        )
    }

    /// Conservative default port for skeleton adapters.
    pub fn default_port(self) -> (r: u16)
        ensures
            r == self.spec_default_port(),
            self.spec_requires_port() ==> r != 0,
    {
        match self {
            TransportProtocol::Loopback => 1,
            TransportProtocol::Udp => 9,
            TransportProtocol::Tcp => 9,
            TransportProtocol::Icmp | TransportProtocol::Raw => 0,
            TransportProtocol::Control => 1,
        }
    }

    /// Default capabilities implied by the transport: loopback is a
    /// loopback-only checksummed datagram transport, UDP a checksummed
    /// datagram transport, TCP a reliable ordered checksummed stream, ICMP a
    /// control datagram transport, raw a raw datagram transport, and control a
    /// loopback-only control datagram transport.
    pub fn default_capabilities(self) -> (r: ProtocolCapabilities)
        ensures
            r == self.spec_default_capabilities(),
    {
        match self {
            TransportProtocol::Loopback => ProtocolCapabilities(
                PROTOCOL_CAP_DATAGRAM | PROTOCOL_CAP_LOOPBACK_ONLY | PROTOCOL_CAP_CHECKSUM,
            ),
            TransportProtocol::Udp => ProtocolCapabilities(
                PROTOCOL_CAP_DATAGRAM | PROTOCOL_CAP_CHECKSUM,
            ),
            TransportProtocol::Tcp => ProtocolCapabilities(
                PROTOCOL_CAP_STREAM | PROTOCOL_CAP_RELIABLE | PROTOCOL_CAP_ORDERED
                    | PROTOCOL_CAP_CHECKSUM,
            ),
            TransportProtocol::Icmp => ProtocolCapabilities(
                PROTOCOL_CAP_DATAGRAM | PROTOCOL_CAP_CONTROL,
            ),
            TransportProtocol::Raw => ProtocolCapabilities(PROTOCOL_CAP_DATAGRAM | PROTOCOL_CAP_RAW),
            TransportProtocol::Control => ProtocolCapabilities(
                PROTOCOL_CAP_DATAGRAM | PROTOCOL_CAP_CONTROL | PROTOCOL_CAP_LOOPBACK_ONLY,
            ),
        }
    }
}

/// The default capabilities of every transport are known, and they satisfy
/// the capability rules of adapter validation: loopback and control
/// transports are loopback-only and the raw transport is raw.
pub proof fn lemma_default_capabilities_are_consistent(p: TransportProtocol)
    ensures
        p.spec_default_capabilities().spec_is_known(),
        (p is Loopback || p is Control) ==> bits_contain(
            p.spec_default_capabilities().0,
            PROTOCOL_CAP_LOOPBACK_ONLY,
        ),
        p is Raw ==> bits_contain(p.spec_default_capabilities().0, PROTOCOL_CAP_RAW),
{
    assert((0x1u64 | 0x20u64 | 0x10u64) & !0x1ffu64 == 0 && (0x1u64 | 0x20u64 | 0x10u64) & 0x20u64
        == 0x20u64) by (bit_vector);
    assert((0x1u64 | 0x10u64) & !0x1ffu64 == 0) by (bit_vector);
    assert((0x2u64 | 0x4u64 | 0x8u64 | 0x10u64) & !0x1ffu64 == 0) by (bit_vector);
    assert((0x1u64 | 0x80u64) & !0x1ffu64 == 0) by (bit_vector);
    assert((0x1u64 | 0x100u64) & !0x1ffu64 == 0 && (0x1u64 | 0x100u64) & 0x100u64 == 0x100u64)
        by (bit_vector);
    assert((0x1u64 | 0x80u64 | 0x20u64) & !0x1ffu64 == 0 && (0x1u64 | 0x80u64 | 0x20u64) & 0x20u64
        == 0x20u64) by (bit_vector);
}

/// Protocol adapter lifecycle state.
#[derive(Clone, Copy, Debug, Eq, PartialEq, Structural)]
pub enum ProtocolState {
    /// Adapter is declared but not selectable by default.
    Draft,
    /// Adapter is selectable.
    Enabled,
    /// Adapter is disabled by policy or configuration.
    Disabled,
    /// Adapter remains for compatibility but should not be selected.
    Deprecated,
}

impl ProtocolState {
    /// Stable state label.
    pub fn label(self) -> (r: &'static str)
        ensures
            r@ == match self {
                ProtocolState::Draft => "draft"@,
                ProtocolState::Enabled => "enabled"@,
                ProtocolState::Disabled => "disabled"@,
                ProtocolState::Deprecated => "deprecated"@,
            },
    {
        match self {
            ProtocolState::Draft => "draft",
            ProtocolState::Enabled => "enabled",
            ProtocolState::Disabled => "disabled",
            ProtocolState::Deprecated => "deprecated",
        }
    }

    /// Returns `true` when callers may select the adapter.
    pub fn allows_selection(self) -> (r: bool)
        ensures
            r == self is Enabled,
    {
        matches!(self, ProtocolState::Enabled)
    }
}

/// Protocol capability bitset.
#[derive(Clone, Copy, Debug, Default, Eq, PartialEq)]
pub struct ProtocolCapabilities(pub u64);

impl ProtocolCapabilities {
    /// No capabilities.
    pub fn empty() -> (r: Self)
        ensures
            r == ProtocolCapabilities(0),
    {
        ProtocolCapabilities(0)
    }

    /// Datagram transport capability.
    pub fn datagram() -> (r: Self)
        ensures
            r == ProtocolCapabilities(PROTOCOL_CAP_DATAGRAM),
    {
        ProtocolCapabilities(PROTOCOL_CAP_DATAGRAM)
    }

    /// Stream transport capability.
    pub fn stream() -> (r: Self)
        ensures
            r == ProtocolCapabilities(PROTOCOL_CAP_STREAM),
    {
        ProtocolCapabilities(PROTOCOL_CAP_STREAM)
    }

    /// Reliable delivery capability.
    pub fn reliable() -> (r: Self)
        ensures
            r == ProtocolCapabilities(PROTOCOL_CAP_RELIABLE),
    {
        ProtocolCapabilities(PROTOCOL_CAP_RELIABLE)
    }

    /// Ordered delivery capability.
    pub fn ordered() -> (r: Self)
        ensures
            r == ProtocolCapabilities(PROTOCOL_CAP_ORDERED),
    {
        ProtocolCapabilities(PROTOCOL_CAP_ORDERED)
    }

    /// Checksum capability.
    pub fn checksum() -> (r: Self)
        ensures
            r == ProtocolCapabilities(PROTOCOL_CAP_CHECKSUM),
    {
        ProtocolCapabilities(PROTOCOL_CAP_CHECKSUM)
    }

    /// Loopback-only capability.
    pub fn loopback_only() -> (r: Self)
        ensures
            r == ProtocolCapabilities(PROTOCOL_CAP_LOOPBACK_ONLY),
    {
        ProtocolCapabilities(PROTOCOL_CAP_LOOPBACK_ONLY)
    }

    /// Encryption-required capability.
    pub fn encryption_required() -> (r: Self)
        ensures
            r == ProtocolCapabilities(PROTOCOL_CAP_ENCRYPTION_REQUIRED),
    {
        ProtocolCapabilities(PROTOCOL_CAP_ENCRYPTION_REQUIRED)
    }

    /// Control-plane capability.
    pub fn control() -> (r: Self)
        ensures
            r == ProtocolCapabilities(PROTOCOL_CAP_CONTROL),
    {
        ProtocolCapabilities(PROTOCOL_CAP_CONTROL)
    }

    /// Raw packet capability.
    pub fn raw() -> (r: Self)
        ensures
            r == ProtocolCapabilities(PROTOCOL_CAP_RAW),
    {
        ProtocolCapabilities(PROTOCOL_CAP_RAW)
    }

    /// The capabilities carry no bit unknown to this crate version.
    pub open spec fn spec_is_known(self) -> bool {
        self.0 & !KNOWN_PROTOCOL_CAPABILITIES == 0
    }

    /// Creates capabilities from raw bits after rejecting unknown bits.
    pub fn from_bits(bits: u64) -> (r: NetworkResult<Self>)
        ensures
            r == if bits & !KNOWN_PROTOCOL_CAPABILITIES != 0 {
                Err(NetworkError::ReservedBits)
            } else {
                Ok(ProtocolCapabilities(bits))
            },
    {
        if bits & !KNOWN_PROTOCOL_CAPABILITIES != 0 {
            Err(NetworkError::ReservedBits)
        } else {
            Ok(ProtocolCapabilities(bits))
        }
    }

    /// Returns raw capability bits.
    pub fn bits(self) -> (r: u64)
        ensures
            r == self.0,
    {
        self.0
    }

    /// Returns `true` when all requested capabilities are present.
    pub fn contains(self, required: Self) -> (r: bool)
        ensures
            r == bits_contain(self.0, required.0),
    {
        self.0 & required.0 == required.0
    }

    /// Combines two capability sets.
    pub fn union(self, other: Self) -> (r: Self)
        ensures
            r == ProtocolCapabilities(self.0 | other.0),
    {
        ProtocolCapabilities(self.0 | other.0)
    }

    /// Validates reserved capability bits.
    pub fn validate(self) -> (r: NetworkResult<()>)
        ensures
            r == if self.spec_is_known() {
                Ok(())
            } else {
                Err(NetworkError::ReservedBits)
            },
    {
        if self.0 & !KNOWN_PROTOCOL_CAPABILITIES != 0 {
            Err(NetworkError::ReservedBits)
        } else {
            Ok(())
        }
    }
}

/// The union of two capability sets carries both, and the union of two known
/// sets is known.
pub proof fn lemma_capabilities_union(a: ProtocolCapabilities, b: ProtocolCapabilities)
    ensures
        bits_contain(a.0 | b.0, a.0),
        bits_contain(a.0 | b.0, b.0),
        a.spec_is_known() && b.spec_is_known() ==> ProtocolCapabilities(a.0 | b.0).spec_is_known(),
{
    let x = a.0;
    let y = b.0;
    assert((x | y) & x == x) by (bit_vector);
    assert((x | y) & y == y) by (bit_vector);
    assert(x & !0x1ffu64 == 0 && y & !0x1ffu64 == 0 ==> (x | y) & !0x1ffu64 == 0) by (bit_vector);
}

/// Protocol adapter metadata.
#[derive(Clone, Copy, Debug, Eq, PartialEq)]
pub struct ProtocolAdapter<'a> {
    /// Adapter name.
    pub name: &'a str,
    /// Adapter version label.
    pub version: &'a str,
    /// Transport protocol.
    pub protocol: TransportProtocol,
    /// Adapter lifecycle state.
    pub state: ProtocolState,
    /// Declared capabilities.
    pub capabilities: ProtocolCapabilities,
    /// Maximum payload accepted by this adapter.
    pub max_payload_len: usize,
    /// Default port when the protocol uses ports.
    pub default_port: u16,
    /// Metadata classification.
    pub data_class: DataClass,
    /// Metadata redaction state.
    pub redaction: RedactionState,
}

impl<'a> ProtocolAdapter<'a> {
    /// What `validate` answers, checks in this order: name, version,
    /// capability bits, payload bound, default port, loopback-only capability
    /// of loopback and control transports, raw capability of the raw
    /// transport, redaction.
    pub open spec fn spec_validate(self) -> NetworkResult<()> {
        if label_check(self.name, MAX_PROTOCOL_NAME_LEN) is Err {
            label_check(self.name, MAX_PROTOCOL_NAME_LEN)
        } else if label_check(self.version, MAX_PROTOCOL_VERSION_LEN) is Err {
            label_check(self.version, MAX_PROTOCOL_VERSION_LEN)
        } else if !self.capabilities.spec_is_known() {
            Err(NetworkError::ReservedBits)
        } else if self.max_payload_len == 0 || self.max_payload_len > MAX_PACKET_PAYLOAD_LEN {
            Err(NetworkError::InvalidProtocol)
        } else if self.protocol.spec_requires_port() && self.default_port == 0 {
            Err(NetworkError::InvalidProtocol)
        } else if (self.protocol is Loopback || self.protocol is Control) && !bits_contain(
            self.capabilities.0,
            PROTOCOL_CAP_LOOPBACK_ONLY,
        ) {
            Err(NetworkError::InvalidProtocol)
        } else if self.protocol is Raw && !bits_contain(self.capabilities.0, PROTOCOL_CAP_RAW) {
            Err(NetworkError::InvalidProtocol)
        } else if !redaction_allowed(self.data_class, self.redaction) {
            Err(NetworkError::InvalidRedaction)
        } else {
            Ok(())
        }
    }

    /// What `validate_packet` answers, checks in this order: the adapter, the
    /// packet, the packet protocol, the payload bound, the loopback-only
    /// capability, the encryption capability.
    pub open spec fn spec_validate_packet(self, packet: PacketBuffer) -> NetworkResult<()> {
        if self.spec_validate() is Err {
            self.spec_validate()
        } else if packet.spec_validate() is Err {
            packet.spec_validate()
        } else if !self.protocol.spec_accepts(packet.protocol) {
            Err(NetworkError::InvalidProtocol)
        } else if packet.payload_len > self.max_payload_len {
            Err(NetworkError::PayloadTooLarge)
        } else if bits_contain(self.capabilities.0, PROTOCOL_CAP_LOOPBACK_ONLY)
            && !packet.spec_is_loopback_path() {
            Err(NetworkError::LoopbackOnly)
        } else if bits_contain(self.capabilities.0, PROTOCOL_CAP_ENCRYPTION_REQUIRED)
            && !flag_bits_contain(packet.flags.0, PACKET_FLAG_ENCRYPTED) {
            Err(NetworkError::EncryptionRequired)
        } else {
            Ok(())
        }
    }

    /// Creates protocol adapter metadata.
    pub fn new(name: &'a str, version: &'a str, protocol: TransportProtocol) -> (r: Self)
        ensures
            r == (ProtocolAdapter {
                name,
                version,
                protocol,
                state: ProtocolState::Draft,
                capabilities: protocol.spec_default_capabilities(),
                max_payload_len: MAX_PACKET_PAYLOAD_LEN,
                default_port: protocol.spec_default_port(),
                data_class: DataClass::Operational,
                redaction: RedactionState::Operational,
            }),
    {
        ProtocolAdapter {
            name,
            version,
            protocol,
            state: ProtocolState::Draft,
            capabilities: protocol.default_capabilities(),
            max_payload_len: MAX_PACKET_PAYLOAD_LEN,
            default_port: protocol.default_port(),
            data_class: DataClass::Operational,
            redaction: RedactionState::Operational,
        }
    }

    /// Sets lifecycle state.
    pub fn with_state(self, state: ProtocolState) -> (r: Self)
        ensures
            r == (ProtocolAdapter { state, ..self }),
    {
        let mut a = self;
        a.state = state;
        a
    }

    /// Sets capabilities.
    pub fn with_capabilities(self, capabilities: ProtocolCapabilities) -> (r: Self)
        ensures
            r == (ProtocolAdapter { capabilities, ..self }),
    {
        let mut a = self;
        a.capabilities = capabilities;
        a
    }

    /// Sets maximum payload length.
    pub fn with_max_payload_len(self, max_payload_len: usize) -> (r: Self)
        ensures
            r == (ProtocolAdapter { max_payload_len, ..self }),
    {
        let mut a = self;
        a.max_payload_len = max_payload_len;
        a
    }

    /// Sets default port.
    pub fn with_default_port(self, default_port: u16) -> (r: Self)
        ensures
            r == (ProtocolAdapter { default_port, ..self }),
    {
        let mut a = self;
        a.default_port = default_port;
        a
    }

    /// Sets data classification and redaction state.
    pub fn with_classification(self, data_class: DataClass, redaction: RedactionState) -> (r: Self)
        ensures
            r == (ProtocolAdapter { data_class, redaction, ..self }),
    {
        let mut a = self;
        a.data_class = data_class;
        a.redaction = redaction;
        a
    }

    /// Returns `true` when the adapter can be selected.
    pub fn is_selectable(self) -> (r: bool)
        ensures
            r == self.state is Enabled,
    {
        self.state.allows_selection()
    }

    /// Validates adapter metadata.
    pub fn validate(self) -> (r: NetworkResult<()>)
        ensures
            r == self.spec_validate(),
    {
        validate_network_label(self.name, MAX_PROTOCOL_NAME_LEN)?;
        validate_network_label(self.version, MAX_PROTOCOL_VERSION_LEN)?;
        self.capabilities.validate()?;
        if self.max_payload_len == 0 || self.max_payload_len > MAX_PACKET_PAYLOAD_LEN {
            return Err(NetworkError::InvalidProtocol);
        }
        if self.protocol.requires_port() && self.default_port == 0 {
            return Err(NetworkError::InvalidProtocol);
        }
        if matches!(self.protocol, TransportProtocol::Loopback | TransportProtocol::Control)
            && !self.capabilities.contains(ProtocolCapabilities(PROTOCOL_CAP_LOOPBACK_ONLY)) {
            return Err(NetworkError::InvalidProtocol);
        }
        if matches!(self.protocol, TransportProtocol::Raw) && !self.capabilities.contains(
            ProtocolCapabilities(PROTOCOL_CAP_RAW),
        ) {
            return Err(NetworkError::InvalidProtocol);
        }
        validate_redaction(self.data_class, self.redaction)
    }

    /// Validates whether a packet may be handled by this adapter.
    pub fn validate_packet(self, packet: PacketBuffer<'_>) -> (r: NetworkResult<()>)
        ensures
            r == self.spec_validate_packet(packet),
    {
        self.validate()?;
        packet.validate()?;
        if !self.protocol.accepts_packet_protocol(packet.protocol) {
            return Err(NetworkError::InvalidProtocol);
        }
        if packet.payload_len > self.max_payload_len {
            return Err(NetworkError::PayloadTooLarge);
        }
        if self.capabilities.contains(ProtocolCapabilities(PROTOCOL_CAP_LOOPBACK_ONLY)) && (
        !packet.source.is_loopback() || !packet.destination.is_loopback()) {
            return Err(NetworkError::LoopbackOnly);
        }
        if self.capabilities.contains(ProtocolCapabilities(PROTOCOL_CAP_ENCRYPTION_REQUIRED))
            && !packet.flags.contains(PacketFlags(PACKET_FLAG_ENCRYPTED)) {
            return Err(NetworkError::EncryptionRequired);
        }
        Ok(())
    }
}

/// An adapter that accepts a packet accepts its protocol, has room for its
/// payload, keeps loopback-only traffic on loopback paths, and sees an
/// encrypted payload whenever it requires encryption; the packet itself
/// validates.
pub proof fn lemma_accepted_packet_fits_adapter(adapter: ProtocolAdapter, packet: PacketBuffer)
    requires
        adapter.spec_validate_packet(packet) is Ok,
    ensures
        adapter.spec_validate() is Ok,
        packet.spec_validate() is Ok,
        adapter.protocol.spec_accepts(packet.protocol),
        packet.payload_len <= adapter.max_payload_len,
        bits_contain(adapter.capabilities.0, PROTOCOL_CAP_LOOPBACK_ONLY)
            ==> packet.spec_is_loopback_path(),
        bits_contain(adapter.capabilities.0, PROTOCOL_CAP_ENCRYPTION_REQUIRED) ==> flag_bits_contain(
            packet.flags.0,
            PACKET_FLAG_ENCRYPTED,
        ),
{
}

/// Matches a registered adapter that shares the name or the transport of
/// `adapter`.
pub open spec fn clashes_with<'a>(adapter: ProtocolAdapter<'a>) -> spec_fn(Option<ProtocolAdapter<'a>>) -> bool {
    |o: Option<ProtocolAdapter<'a>>|
        o matches Some(e) && (same_text(e.name, adapter.name) || e.protocol == adapter.protocol)
}

/// Matches a registered adapter with the given name.
pub open spec fn named<'a>(name: &str) -> spec_fn(Option<ProtocolAdapter<'a>>) -> bool {
    |o: Option<ProtocolAdapter<'a>>| o matches Some(e) && same_text(e.name, name)
}

/// Matches a registered, enabled adapter for the given transport.
pub open spec fn selectable_for<'a>(protocol: TransportProtocol) -> spec_fn(Option<ProtocolAdapter<'a>>) -> bool {
    |o: Option<ProtocolAdapter<'a>>| o matches Some(e) && e.protocol == protocol && e.state is Enabled
}

/// Matches a registered, enabled adapter whose transport accepts the packet
/// protocol.
pub open spec fn selectable_for_packet<'a>(protocol: PacketProtocol) -> spec_fn(Option<ProtocolAdapter<'a>>) -> bool {
    |o: Option<ProtocolAdapter<'a>>|
        o matches Some(e) && e.state is Enabled && e.protocol.spec_accepts(protocol)
}

/// Fixed-capacity protocol adapter registry.
#[derive(Debug, Eq, PartialEq)]
pub struct ProtocolRegistry<'a, const N: usize> {
    adapters: [Option<ProtocolAdapter<'a>>; N],
    len: usize,
}

impl<'a, const N: usize> ProtocolRegistry<'a, N> {
    /// The backing slots.
    pub closed spec fn slot_view(&self) -> Seq<Option<ProtocolAdapter<'a>>> {
        self.adapters@
    }

    /// Number of registered adapters.
    pub closed spec fn spec_len(&self) -> nat {
        self.len as nat
    }

    /// Well-formed registry, kept by every value of the type: the count
    /// matches the occupied slots, every registered adapter validates, and no
    /// two registered adapters share a name or a transport.
    #[verifier::type_invariant]
    pub closed spec fn wf(&self) -> bool {
        &&& self.len == count_some(self.adapters@)
        &&& forall|i: int|
            0 <= i < N && (#[trigger] self.adapters@[i]) is Some ==> self.adapters@[i].unwrap().spec_validate() is Ok
        &&& forall|i: int, j: int|
            0 <= i < N && 0 <= j < N && i != j && (#[trigger] self.adapters@[i]) is Some
                && (#[trigger] self.adapters@[j]) is Some ==> !same_text(
                self.adapters@[i].unwrap().name,
                self.adapters@[j].unwrap().name,
            ) && self.adapters@[i].unwrap().protocol != self.adapters@[j].unwrap().protocol
    }

    /// What `find` answers: an invalid name is refused as a label, otherwise
    /// the first adapter registered under the name, if any.
    pub open spec fn spec_find(&self, name: &str) -> NetworkResult<ProtocolAdapter<'a>> {
        match label_check(name, MAX_PROTOCOL_NAME_LEN) {
            Err(e) => Err(e),
            Ok(_) => {
                let k = first_index(self.slot_view(), named(name));
                if k < N {
                    Ok(self.slot_view()[k].unwrap())
                } else {
                    Err(NetworkError::ProtocolNotFound)
                }
            },
        }
    }

    /// What `select` answers: the first enabled adapter for the transport.
    pub open spec fn spec_select(&self, protocol: TransportProtocol) -> NetworkResult<ProtocolAdapter<'a>> {
        let k = first_index(self.slot_view(), selectable_for(protocol));
        if k < N {
            Ok(self.slot_view()[k].unwrap())
        } else {
            Err(NetworkError::ProtocolNotFound)
        }
    }

    /// What `select_for_packet` answers: an invalid packet is refused with its
    /// validation error; otherwise the first enabled adapter whose transport
    /// accepts the packet protocol decides, by its packet validation; without
    /// one the protocol is not found.
    pub open spec fn spec_select_for_packet(&self, packet: PacketBuffer) -> NetworkResult<ProtocolAdapter<'a>> {
        match packet.spec_validate() {
            Err(e) => Err(e),
            Ok(_) => {
                let k = first_index(self.slot_view(), selectable_for_packet(packet.protocol));
                if k < N {
                    match self.slot_view()[k].unwrap().spec_validate_packet(packet) {
                        Ok(_) => Ok(self.slot_view()[k].unwrap()),
                        Err(e) => Err(e),
                    }
                } else {
                    Err(NetworkError::ProtocolNotFound)
                }
            },
        }
    }

    /// What `register` does: an invalid adapter is refused with its
    /// validation error, an adapter whose name or transport is taken with
    /// `DuplicateProtocol`, and a full registry with `CapacityExceeded`, each
    /// changing nothing. Otherwise the adapter takes the first vacant slot,
    /// and `find` by its name and (when it is enabled) `select` by its
    /// transport then answer it.
    pub open spec fn registered(self, post: Self, adapter: ProtocolAdapter<'a>, r: NetworkResult<()>) -> bool {
        if adapter.spec_validate() is Err {
            r == adapter.spec_validate() && post == self
        } else if first_index(self.slot_view(), clashes_with(adapter)) < N {
            r == Err::<(), NetworkError>(NetworkError::DuplicateProtocol) && post == self
        } else if first_index(self.slot_view(), vacant()) == N {
            r == Err::<(), NetworkError>(NetworkError::CapacityExceeded) && post == self
        } else {
            &&& r == Ok::<(), NetworkError>(())
            &&& post.slot_view() == self.slot_view().update(
                first_index(self.slot_view(), vacant()),
                Some(adapter),
            )
            &&& post.spec_len() == self.spec_len() + 1
            &&& post.spec_find(adapter.name) == Ok::<ProtocolAdapter<'a>, NetworkError>(adapter)
            &&& adapter.state is Enabled ==> post.spec_select(adapter.protocol) == Ok::<
                ProtocolAdapter<'a>,
                NetworkError,
            >(adapter)
        }
    }

    /// Creates an empty registry.
    pub fn new() -> (r: Self)
        ensures
            r.spec_len() == 0,
            r.slot_view() == Seq::new(N as nat, |i: int| None::<ProtocolAdapter<'a>>),
    {
        let adapters: [Option<ProtocolAdapter<'a>>; N] = vacant_array();
        proof {
            lemma_count_some_vacant(adapters@);
        }
        ProtocolRegistry { adapters, len: 0 }
    }

    /// Returns active adapter count.
    pub fn len(&self) -> (r: usize)
        ensures
            r == self.spec_len(),
            r == count_some(self.slot_view()),
    {
        proof {
            use_type_invariant(self);
        }
        self.len
    }

    /// Returns `true` when no adapters are registered.
    pub fn is_empty(&self) -> (r: bool)
        ensures
            r == (self.spec_len() == 0),
    {
        proof {
            use_type_invariant(self);
        }
        self.len == 0
    }

    /// Returns all backing slots.
    pub fn slots(&self) -> (r: &[Option<ProtocolAdapter<'a>>; N])
        ensures
            r@ == self.slot_view(),
    {
        &self.adapters
    }

    /// Registers a protocol adapter. An invalid adapter is refused with its
    /// validation error, an adapter whose name or transport is taken with
    /// `DuplicateProtocol`, and a full registry with `CapacityExceeded`; each
    /// refusal changes nothing. Otherwise the adapter takes the first vacant
    /// slot, and `find` by its name and (when it is enabled) `select` by its
    /// transport then answer it.
    pub fn register(&mut self, adapter: ProtocolAdapter<'a>) -> (r: NetworkResult<()>)
        ensures
            old(self).registered(*final(self), adapter, r),
    {
        proof {
            use_type_invariant(&*self);
        }
        adapter.validate()?;
        let ghost s = self.adapters@;
        let mut i: usize = 0;
        while i < N
            invariant
                i <= N,
                s == self.adapters@,
                *self == *old(self),
                self.wf(),
                adapter.spec_validate() is Ok,
                first_index(s, clashes_with(adapter)) == first_index_from(s, clashes_with(adapter), i as int),
            decreases N - i,
        {
            if let Some(existing) = self.adapters[i] {
                if text_eq(existing.name, adapter.name) || existing.protocol == adapter.protocol {
                    return Err(NetworkError::DuplicateProtocol);
                }
            }
            i += 1;
        }
        let mut k: usize = 0;
        while k < N && self.adapters[k].is_some()
            invariant
                k <= N,
                s == self.adapters@,
                first_index(s, vacant()) == first_index_from(s, vacant(), k as int),
            decreases N - k,
        {
            k += 1;
        }
        if k == N {
            return Err(NetworkError::CapacityExceeded);
        }
        proof {
            lemma_first_index(s, clashes_with(adapter));
            lemma_first_index(s, vacant());
            lemma_count_some_update(s, k as int, Some(adapter));
            lemma_count_some_bounds(s);
            assert(s[k as int] is None);
        }
        proof {
            let s2 = s.update(k as int, Some(adapter));
            assert(!clashes_with(adapter)(s[k as int]));
            assert forall|j: int| 0 <= j < k implies !(#[trigger] named(adapter.name)(s2[j])) by {
                assert(!clashes_with(adapter)(s[j]));
            }
            lemma_first_index_at(s2, named(adapter.name), 0, k as int);
            if adapter.state is Enabled {
                assert forall|j: int| 0 <= j < k implies !(#[trigger] selectable_for(adapter.protocol)(s2[j])) by {
                    assert(!clashes_with(adapter)(s[j]));
                }
                lemma_first_index_at(s2, selectable_for(adapter.protocol), 0, k as int);
            }
            assert forall|i: int, j: int|
                0 <= i < N && 0 <= j < N && i != j && (#[trigger] s2[i]) is Some
                    && (#[trigger] s2[j]) is Some implies !same_text(s2[i].unwrap().name, s2[j].unwrap().name)
                && s2[i].unwrap().protocol != s2[j].unwrap().protocol by {
                if i == k {
                    assert(!clashes_with(adapter)(s[j]));
                } else if j == k {
                    assert(!clashes_with(adapter)(s[i]));
                }
            }
        }
        let mut adapters = self.adapters;
        set_slot(&mut adapters, k, Some(adapter));
        *self = ProtocolRegistry { adapters, len: self.len + 1 };
        Ok(())
    }

    /// Finds an adapter by name.
    pub fn find(&self, name: &str) -> (r: NetworkResult<ProtocolAdapter<'a>>)
        ensures
            r == self.spec_find(name),
    {
        validate_network_label(name, MAX_PROTOCOL_NAME_LEN)?;
        let ghost s = self.adapters@;
        let mut i: usize = 0;
        while i < N
            invariant
                i <= N,
                s == self.adapters@,
                label_check(name, MAX_PROTOCOL_NAME_LEN) is Ok,
                first_index(s, named(name)) == first_index_from(s, named(name), i as int),
            decreases N - i,
        {
            if let Some(adapter) = self.adapters[i] {
                if text_eq(adapter.name, name) {
                    return Ok(adapter);
                }
            }
            i += 1;
        }
        Err(NetworkError::ProtocolNotFound)
    }

    /// Selects an enabled adapter for a transport protocol.
    pub fn select(&self, protocol: TransportProtocol) -> (r: NetworkResult<ProtocolAdapter<'a>>)
        ensures
            r == self.spec_select(protocol),
            r matches Ok(a) ==> a.protocol == protocol && a.state is Enabled,
    {
        let ghost s = self.adapters@;
        let mut i: usize = 0;
        while i < N
            invariant
                i <= N,
                s == self.adapters@,
                first_index(s, selectable_for(protocol)) == first_index_from(
                    s,
                    selectable_for(protocol),
                    i as int,
                ),
            decreases N - i,
        {
            if let Some(adapter) = self.adapters[i] {
                if adapter.protocol == protocol && adapter.is_selectable() {
                    return Ok(adapter);
                }
            }
            i += 1;
        }
        Err(NetworkError::ProtocolNotFound)
    }

    /// Selects an enabled adapter that can handle the packet.
    pub fn select_for_packet(&self, packet: PacketBuffer<'_>) -> (r: NetworkResult<ProtocolAdapter<'a>>)
        ensures
            r == self.spec_select_for_packet(packet),
            r matches Ok(a) ==> a.state is Enabled && a.spec_validate_packet(packet) is Ok,
    {
        packet.validate()?;
        let ghost s = self.adapters@;
        let mut i: usize = 0;
        while i < N
            invariant
                i <= N,
                s == self.adapters@,
                packet.spec_validate() is Ok,
                first_index(s, selectable_for_packet(packet.protocol)) == first_index_from(
                    s,
                    selectable_for_packet(packet.protocol),
                    i as int,
                ),
            decreases N - i,
        {
            if let Some(adapter) = self.adapters[i] {
                if adapter.is_selectable() && adapter.protocol.accepts_packet_protocol(
                    packet.protocol,
                ) {
                    adapter.validate_packet(packet)?;
                    return Ok(adapter);
                }
            }
            i += 1;
        }
        Err(NetworkError::ProtocolNotFound)
    }
}

impl<'a, const N: usize> Clone for ProtocolRegistry<'a, N> {
    /// Copies the registry: same slots and count.
    fn clone(&self) -> (r: Self)
        ensures
            r == *self,
    {
        proof {
            use_type_invariant(self);
        }
        ProtocolRegistry { adapters: self.adapters, len: self.len }
    }
}

impl<'a, const N: usize> Default for ProtocolRegistry<'a, N> {
    fn default() -> (r: Self)
        ensures
            r.spec_len() == 0,
            r.slot_view() == Seq::new(N as nat, |i: int| None::<ProtocolAdapter<'a>>),
    {
        Self::new()
    }
}

/// Registration refuses exactly the adapters whose name or transport is
/// already registered. For a valid adapter: registration answers
/// `DuplicateProtocol` if and only if some registered adapter has the same
/// name or the same transport; and when none has, and a slot is vacant,
/// registration succeeds, stores the adapter in the first vacant slot, and
/// `find` by its name then answers it.
pub proof fn lemma_register_refuses_only_name_or_transport_clashes<'a, const N: usize>(
    reg: ProtocolRegistry<'a, N>,
    post: ProtocolRegistry<'a, N>,
    adapter: ProtocolAdapter<'a>,
    r: NetworkResult<()>,
)
    requires
        reg.registered(post, adapter, r),
        adapter.spec_validate() is Ok,
    ensures
        r == Err::<(), NetworkError>(NetworkError::DuplicateProtocol) <==> exists|i: int|
            0 <= i < N && (#[trigger] reg.slot_view()[i]) is Some && (same_text(
                reg.slot_view()[i].unwrap().name,
                adapter.name,
            ) || reg.slot_view()[i].unwrap().protocol == adapter.protocol),
        (forall|i: int|
            0 <= i < N && (#[trigger] reg.slot_view()[i]) is Some ==> !same_text(
                reg.slot_view()[i].unwrap().name,
                adapter.name,
            ) && reg.slot_view()[i].unwrap().protocol != adapter.protocol) && (exists|i: int|
            0 <= i < N && (#[trigger] reg.slot_view()[i]) is None) ==> {
            &&& r == Ok::<(), NetworkError>(())
            &&& exists|k: int|
                0 <= k < N && reg.slot_view()[k] is None && (forall|j: int|
                    0 <= j < k ==> (#[trigger] reg.slot_view()[j]) is Some) && post.slot_view()
                    == reg.slot_view().update(k, Some(adapter))
            &&& post.spec_find(adapter.name) == Ok::<ProtocolAdapter<'a>, NetworkError>(adapter)
        },
{
    let s = reg.slot_view();
    assert(s.len() == N) by {
        assert(reg.adapters@.len() == N);
    }
    lemma_first_index(s, clashes_with(adapter));
    lemma_first_index(s, vacant());
    let c = first_index(s, clashes_with(adapter));
    if exists|i: int|
        0 <= i < N && (#[trigger] s[i]) is Some && (same_text(s[i].unwrap().name, adapter.name)
            || s[i].unwrap().protocol == adapter.protocol) {
        let i = choose|i: int|
            0 <= i < N && (#[trigger] s[i]) is Some && (same_text(s[i].unwrap().name, adapter.name)
                || s[i].unwrap().protocol == adapter.protocol);
        assert(clashes_with(adapter)(s[i]));
        assert(c <= i);
    }
    if c < N {
        assert(clashes_with(adapter)(s[c]));
    }
    if exists|i: int| 0 <= i < N && (#[trigger] s[i]) is None {
        let i = choose|i: int| 0 <= i < N && (#[trigger] s[i]) is None;
        assert(vacant::<ProtocolAdapter<'a>>()(s[i]));
        let k = first_index(s, vacant());
        assert(k <= i);
        if c == N {
            assert(s[k] is None);
        }
    }
}

/// Lookups answer from what is registered. `find` succeeds for a valid name
/// exactly when an adapter with that name is registered, and answers a
/// registered adapter of that name; `select` succeeds exactly when an enabled
/// adapter for the transport is registered, and answers one; for a valid
/// packet, `select_for_packet` finds nothing exactly when no enabled adapter
/// accepts the packet protocol, and anything it answers is a registered,
/// enabled adapter that accepts the packet.
pub proof fn lemma_registry_lookups_answer_registered_adapters<'a, const N: usize>(
    reg: ProtocolRegistry<'a, N>,
    name: &str,
    protocol: TransportProtocol,
    packet: PacketBuffer,
)
    ensures
        label_check(name, MAX_PROTOCOL_NAME_LEN) is Ok ==> (reg.spec_find(name) is Ok <==> exists|i: int|
            0 <= i < N && (#[trigger] reg.slot_view()[i]) is Some && same_text(
                reg.slot_view()[i].unwrap().name,
                name,
            )),
        reg.spec_find(name) is Ok ==> same_text(reg.spec_find(name)->Ok_0.name, name) && exists|i: int|
            0 <= i < N && reg.slot_view()[i] == Some(reg.spec_find(name)->Ok_0),
        reg.spec_select(protocol) is Ok <==> exists|i: int|
            0 <= i < N && (#[trigger] reg.slot_view()[i]) is Some && reg.slot_view()[i].unwrap().protocol
                == protocol && reg.slot_view()[i].unwrap().state is Enabled,
        reg.spec_select(protocol) is Ok ==> reg.spec_select(protocol)->Ok_0.protocol == protocol
            && reg.spec_select(protocol)->Ok_0.state is Enabled && exists|i: int|
            0 <= i < N && reg.slot_view()[i] == Some(reg.spec_select(protocol)->Ok_0),
        packet.spec_validate() is Ok ==> (reg.spec_select_for_packet(packet) == Err::<
            ProtocolAdapter<'a>,
            NetworkError,
        >(NetworkError::ProtocolNotFound) <==> !exists|i: int|
            0 <= i < N && (#[trigger] reg.slot_view()[i]) is Some && reg.slot_view()[i].unwrap().state is Enabled
                && reg.slot_view()[i].unwrap().protocol.spec_accepts(packet.protocol)),
        reg.spec_select_for_packet(packet) is Ok ==> {
            let a = reg.spec_select_for_packet(packet)->Ok_0;
            &&& a.state is Enabled
            &&& a.protocol.spec_accepts(packet.protocol)
            &&& a.spec_validate_packet(packet) is Ok
            &&& exists|i: int| 0 <= i < N && reg.slot_view()[i] == Some(a)
        },
{
    let s = reg.slot_view();
    assert(s.len() == N) by {
        assert(reg.adapters@.len() == N);
    }
    lemma_first_index_exists(s, named(name));
    lemma_first_index_exists(s, selectable_for(protocol));
    lemma_first_index_exists(s, selectable_for_packet(packet.protocol));
    lemma_first_index(s, named(name));
    lemma_first_index(s, selectable_for(protocol));
    lemma_first_index(s, selectable_for_packet(packet.protocol));
    if exists|i: int|
        0 <= i < N && (#[trigger] s[i]) is Some && same_text(s[i].unwrap().name, name) {
        let i = choose|i: int| 0 <= i < N && (#[trigger] s[i]) is Some && same_text(s[i].unwrap().name, name);
        assert(named::<'a>(name)(s[i]));
    }
    if exists|i: int|
        0 <= i < N && (#[trigger] s[i]) is Some && s[i].unwrap().protocol == protocol
            && s[i].unwrap().state is Enabled {
        let i = choose|i: int|
            0 <= i < N && (#[trigger] s[i]) is Some && s[i].unwrap().protocol == protocol
                && s[i].unwrap().state is Enabled;
        assert(selectable_for::<'a>(protocol)(s[i]));
    }
    if exists|i: int|
        0 <= i < N && (#[trigger] s[i]) is Some && s[i].unwrap().state is Enabled
            && s[i].unwrap().protocol.spec_accepts(packet.protocol) {
        let i = choose|i: int|
            0 <= i < N && (#[trigger] s[i]) is Some && s[i].unwrap().state is Enabled
                && s[i].unwrap().protocol.spec_accepts(packet.protocol);
        assert(selectable_for_packet::<'a>(packet.protocol)(s[i]));
    }
    let k1 = first_index(s, named(name));
    if k1 < N {
        assert(named::<'a>(name)(s[k1]));
    }
    let k2 = first_index(s, selectable_for(protocol));
    if k2 < N {
        assert(selectable_for::<'a>(protocol)(s[k2]));
    }
    let k3 = first_index(s, selectable_for_packet(packet.protocol));
    if k3 < N {
        assert(selectable_for_packet::<'a>(packet.protocol)(s[k3]));
    }
}

/// Every adapter held by a well-formed registry validates, and no two of
/// them share a name or a transport.
pub proof fn lemma_registry_adapters_are_unique<'a, const N: usize>(reg: ProtocolRegistry<'a, N>)
    requires
        reg.wf(),
    ensures
        reg.slot_view().len() == N,
        forall|i: int|
            0 <= i < N && (#[trigger] reg.slot_view()[i]) is Some ==> reg.slot_view()[i].unwrap().spec_validate() is Ok,
        forall|i: int, j: int|
            0 <= i < N && 0 <= j < N && i != j && (#[trigger] reg.slot_view()[i]) is Some
                && (#[trigger] reg.slot_view()[j]) is Some ==> !same_text(
                reg.slot_view()[i].unwrap().name,
                reg.slot_view()[j].unwrap().name,
            ) && reg.slot_view()[i].unwrap().protocol != reg.slot_view()[j].unwrap().protocol,
        reg.spec_len() <= N,
{
    lemma_count_some_bounds(reg.adapters@);
}

} // verus!

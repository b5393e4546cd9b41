//! Packet buffer, address, protocol, and flag contracts.
//!
//! Packet buffers are borrowed, bounded, and classified. Validation rejects
//! malformed addresses, reserved flag bits, oversized payloads, invalid trace
//! metadata, and secret payloads that lack encryption metadata.

use crate::slots::{
    lemma_ring_advance, lemma_ring_pop, lemma_ring_push, lemma_ring_shrink, set_slot, vacant_array, ring_next_head, ring_slot, ring_view, ring_wf};
use crate::{
    empty_trace, flag_bits_contain, sat_add, label_check, redaction_allowed, validate_network_label,
    validate_redaction, DataClass, NetworkError, NetworkResult, RedactionState, TraceContext,
};
use vstd::prelude::*;

verus! {

/// Packet schema version owned by this crate.
pub const PACKET_SCHEMA_VERSION: &'static str = "alani.network.packet.v1";

/// Invalid packet identifier.
pub const INVALID_PACKET_ID: u64 = 0;

/// Maximum packet payload length for host-mode skeleton buffers.
pub const MAX_PACKET_PAYLOAD_LEN: usize = 4096;

/// Maximum address or packet metadata label length.
pub const MAX_PACKET_LABEL_LEN: usize = 128;

/// Maximum packet classification tags reserved for future schema expansion.
pub const MAX_PACKET_TAGS: usize = 8;

/// Maximum frame size including skeleton transport metadata.
pub const MAX_FRAME_LEN: usize = MAX_PACKET_PAYLOAD_LEN + 128;

/// Maximum scheduling priority accepted by packet metadata.
pub const MAX_PACKET_PRIORITY: u8 = 7;

/// Packet should be delivered to all local peers.
pub const PACKET_FLAG_BROADCAST: u32 = 0x1;
/// Packet is part of a multicast-style delivery path.
pub const PACKET_FLAG_MULTICAST: u32 = 0x2;
/// Packet belongs to a reliable transport.
pub const PACKET_FLAG_RELIABLE: u32 = 0x4;
/// Packet is one fragment of a larger frame.
pub const PACKET_FLAG_FRAGMENTED: u32 = 0x8;
/// Packet carries control-plane metadata.
pub const PACKET_FLAG_CONTROL: u32 = 0x10;
/// Packet send or receive must emit audit evidence.
pub const PACKET_FLAG_AUDIT_REQUIRED: u32 = 0x20;
/// Packet payload is encrypted by the caller or future transport adapter.
pub const PACKET_FLAG_ENCRYPTED: u32 = 0x40;
/// Packet metadata includes checksum coverage.
pub const PACKET_FLAG_CHECKSUMMED: u32 = 0x80;

/// Packet flags known by this crate version (the union of the flags above).
pub const PACKET_KNOWN_FLAGS: u32 = 0xff;

/// Module boundary descriptor.
#[derive(Debug, Eq, PartialEq)]
pub struct PacketDescriptor<'a> {
    /// Human-readable descriptor name.
    pub name: &'a str,
    /// Descriptor version.
    pub version: u32,
}

impl<'a> Clone for PacketDescriptor<'a> {
    /// Copies the descriptor: same name and version.
    fn clone(&self) -> (r: Self)
        ensures
            r == *self,
    {
        PacketDescriptor { name: self.name, version: self.version }
    }
}

impl<'a> PacketDescriptor<'a> {
    /// Creates a packet descriptor.
    pub fn new(name: &'a str, version: u32) -> (r: Self)
        ensures
            r.name == name,
            r.version == version,
    {
        PacketDescriptor { name, version }
    }
}

/// Stable packet identifier.
#[derive(Clone, Copy, Debug, Default, Eq, PartialEq, Structural)]
pub struct PacketId(pub u64);

impl PacketId {
    /// The invalid packet identifier.
    pub fn invalid() -> (r: Self)
        ensures
            r == PacketId(INVALID_PACKET_ID),
    {
        PacketId(INVALID_PACKET_ID)
    }

    /// Creates a packet identifier.
    pub fn new(value: u64) -> (r: NetworkResult<Self>)
        ensures
            r == if value == INVALID_PACKET_ID {
                Err(NetworkError::InvalidPacket)
            } else {
                Ok(PacketId(value))
            },
    {
        if value == INVALID_PACKET_ID {
            Err(NetworkError::InvalidPacket)
        } else {
            Ok(PacketId(value))
        }
    }

    /// Returns the raw identifier value.
    pub fn get(self) -> (r: u64)
        ensures
            r == self.0,
    {
        self.0
    }

    /// Validates the identifier.
    pub fn validate(self) -> (r: NetworkResult<()>)
        ensures
            r == if self.0 == INVALID_PACKET_ID {
                Err(NetworkError::InvalidPacket)
            } else {
                Ok(())
            },
    {
        if self.0 == INVALID_PACKET_ID {
            Err(NetworkError::InvalidPacket)
        } else {
            Ok(())
        }
    }
}

/// Address family for simulated network endpoints.
#[derive(Clone, Copy, Debug, Eq, PartialEq, Structural)]
pub enum AddressKind {
    /// Loopback endpoint.
    Loopback,
    /// IPv4-style endpoint.
    Ipv4,
    /// IPv6-style endpoint.
    Ipv6,
    /// Link-local or simulated device-local endpoint.
    LinkLocal,
    /// Named service endpoint.
    Service,
}

impl AddressKind {
    /// The address kinds that need a nonzero port: all but link-local.
    pub open spec fn spec_requires_port(self) -> bool {
        !(self is LinkLocal)
    }

    /// Stable address kind label.
    pub fn label(self) -> (r: &'static str)
        ensures
            r@ == match self {
                AddressKind::Loopback => "loopback"@,
                AddressKind::Ipv4 => "ipv4"@,
                AddressKind::Ipv6 => "ipv6"@,
                AddressKind::LinkLocal => "link_local"@,
                AddressKind::Service => "service"@,
            },
    {
        match self {
            AddressKind::Loopback => "loopback",
            AddressKind::Ipv4 => "ipv4",
            AddressKind::Ipv6 => "ipv6",
            AddressKind::LinkLocal => "link_local",
            AddressKind::Service => "service",
        }
    }

    /// Returns `true` for loopback endpoints.
    pub fn is_loopback(self) -> (r: bool)
        ensures
            r == self is Loopback,
    {
        matches!(self, AddressKind::Loopback)
    }

    /// Returns `true` when a nonzero port is required.
    pub fn requires_port(self) -> (r: bool)
        ensures
            r == self.spec_requires_port(),
    {
        matches!(
            self,
            AddressKind::Loopback | AddressKind::Ipv4 | AddressKind::Ipv6 | AddressKind::Service
        )
    }
}

/// Borrowed network address metadata.
#[derive(Clone, Copy, Debug, Eq, PartialEq)]
pub struct NetworkAddress<'a> {
    /// Address family.
    pub kind: AddressKind,
    /// Address or service label.
    pub label: &'a str,
    /// Transport port when applicable.
    pub port: u16,
}

impl<'a> NetworkAddress<'a> {
    /// What `validate` answers: the label first, then a missing port.
    pub open spec fn spec_validate(self) -> NetworkResult<()> {
        if label_check(self.label, MAX_PACKET_LABEL_LEN) is Err {
            label_check(self.label, MAX_PACKET_LABEL_LEN)
        } else if self.kind.spec_requires_port() && self.port == 0 {
            Err(NetworkError::InvalidAddress)
        } else {
            Ok(())
        }
    }

    /// Creates a network address.
    pub fn new(kind: AddressKind, label: &'a str, port: u16) -> (r: Self)
        ensures
            r == (NetworkAddress { kind, label, port }),
    {
        NetworkAddress { kind, label, port }
    }

    /// Creates a loopback address.
    pub fn loopback(port: u16) -> (r: Self)
        ensures
            r.kind == AddressKind::Loopback,
            r.label@ == "loopback"@,
            r.port == port,
    {
        NetworkAddress { kind: AddressKind::Loopback, label: "loopback", port }
    }

    /// Returns `true` when the address is loopback.
    pub fn is_loopback(self) -> (r: bool)
        ensures
            r == self.kind is Loopback,
    {
        self.kind.is_loopback()
    }

    /// Validates address metadata.
    pub fn validate(self) -> (r: NetworkResult<()>)
        ensures
            r == self.spec_validate(),
    {
        validate_network_label(self.label, MAX_PACKET_LABEL_LEN)?;
        if self.kind.requires_port() && self.port == 0 {
            return Err(NetworkError::InvalidAddress);
        }
        Ok(())
    }
}

/// Packet protocol carried by a packet buffer.
#[derive(Clone, Copy, Debug, Eq, PartialEq, Structural)]
pub enum PacketProtocol {
    /// Loopback transport.
    Loopback,
    /// IPv4 packet.
    Ipv4,
    /// IPv6 packet.
    Ipv6,
    /// UDP datagram.
    Udp,
    /// TCP segment.
    Tcp,
    /// ICMP control packet.
    Icmp,
    /// Alani control-plane packet.
    Control,
}

impl PacketProtocol {
    /// Protocols that carry control-plane metadata.
    pub open spec fn spec_is_control(self) -> bool {
        self is Control || self is Icmp
    }

    /// Stable protocol label.
    pub fn label(self) -> (r: &'static str)
        ensures
            r@ == match self {
                PacketProtocol::Loopback => "loopback"@,
                PacketProtocol::Ipv4 => "ipv4"@,
                PacketProtocol::Ipv6 => "ipv6"@,
                PacketProtocol::Udp => "udp"@,
                PacketProtocol::Tcp => "tcp"@,
                PacketProtocol::Icmp => "icmp"@,
                PacketProtocol::Control => "control"@,
            },
    {
        match self {
            PacketProtocol::Loopback => "loopback",
            PacketProtocol::Ipv4 => "ipv4",
            PacketProtocol::Ipv6 => "ipv6",
            PacketProtocol::Udp => "udp",
            PacketProtocol::Tcp => "tcp",
            PacketProtocol::Icmp => "icmp",
            PacketProtocol::Control => "control",
        }
    }

    /// Returns `true` when this protocol is restricted to loopback addresses.
    pub fn is_loopback_only(self) -> (r: bool)
        ensures
            r == self is Loopback,
    {
        matches!(self, PacketProtocol::Loopback)
    }

    /// Returns `true` when this protocol carries control-plane metadata.
    pub fn is_control(self) -> (r: bool)
        ensures
            r == self.spec_is_control(),
    {
        matches!(self, PacketProtocol::Control | PacketProtocol::Icmp)
    }
}

/// Packet flag bitset.
#[derive(Clone, Copy, Debug, Default, Eq, PartialEq)]
pub struct PacketFlags(pub u32);

impl PacketFlags {
    /// No flags.
    pub fn empty() -> (r: Self)
        ensures
            r == PacketFlags(0),
    {
        PacketFlags(0)
    }

    /// Broadcast delivery.
    pub fn broadcast() -> (r: Self)
        ensures
            r == PacketFlags(PACKET_FLAG_BROADCAST),
    {
        PacketFlags(PACKET_FLAG_BROADCAST)
    }

    /// Multicast delivery.
    pub fn multicast() -> (r: Self)
        ensures
            r == PacketFlags(PACKET_FLAG_MULTICAST),
    {
        PacketFlags(PACKET_FLAG_MULTICAST)
    }

    /// Reliable transport.
    pub fn reliable() -> (r: Self)
        ensures
            r == PacketFlags(PACKET_FLAG_RELIABLE),
    {
        PacketFlags(PACKET_FLAG_RELIABLE)
    }

    /// Fragmented frame.
    pub fn fragmented() -> (r: Self)
        ensures
            r == PacketFlags(PACKET_FLAG_FRAGMENTED),
    {
        PacketFlags(PACKET_FLAG_FRAGMENTED)
    }

    /// Control-plane packet.
    pub fn control() -> (r: Self)
        ensures
            r == PacketFlags(PACKET_FLAG_CONTROL),
    {
        PacketFlags(PACKET_FLAG_CONTROL)
    }

    /// Audit evidence required.
    pub fn audit_required() -> (r: Self)
        ensures
            r == PacketFlags(PACKET_FLAG_AUDIT_REQUIRED),
    {
        PacketFlags(PACKET_FLAG_AUDIT_REQUIRED)
    }

    /// Encrypted payload.
    pub fn encrypted() -> (r: Self)
        ensures
            r == PacketFlags(PACKET_FLAG_ENCRYPTED),
    {
        PacketFlags(PACKET_FLAG_ENCRYPTED)
    }

    /// Checksum coverage present.
    pub fn checksummed() -> (r: Self)
        ensures
            r == PacketFlags(PACKET_FLAG_CHECKSUMMED),
    {
        PacketFlags(PACKET_FLAG_CHECKSUMMED)
    }

    /// The flags carry no bit unknown to this crate version.
    pub open spec fn spec_is_known(self) -> bool {
        self.0 & !PACKET_KNOWN_FLAGS == 0
    }

    /// Creates packet flags from raw bits.
    pub fn from_bits(bits: u32) -> (r: NetworkResult<Self>)
        ensures
            r == if bits & !PACKET_KNOWN_FLAGS != 0 {
                Err(NetworkError::ReservedBits)
            } else {
                Ok(PacketFlags(bits))
            },
    {
        if bits & !PACKET_KNOWN_FLAGS != 0 {
            Err(NetworkError::ReservedBits)
        } else {
            Ok(PacketFlags(bits))
        }
    }

    /// Returns raw flag bits.
    pub fn bits(self) -> (r: u32)
        ensures
            r == self.0,
    {
        self.0
    }

    /// Returns `true` if all requested flags are set.
    pub fn contains(self, required: Self) -> (r: bool)
        ensures
            r == flag_bits_contain(self.0, required.0),
    {
        self.0 & required.0 == required.0
    }

    /// Combines two flag sets.
    pub fn union(self, other: Self) -> (r: Self)
        ensures
            r == PacketFlags(self.0 | other.0),
    {
        PacketFlags(self.0 | other.0)
    }

    /// Validates reserved bits.
    pub fn validate(self) -> (r: NetworkResult<()>)
        ensures
            r == if self.spec_is_known() {
                Ok(())
            } else {
                Err(NetworkError::ReservedBits)
            },
    {
        if self.0 & !PACKET_KNOWN_FLAGS != 0 {
            Err(NetworkError::ReservedBits)
        } else {
            Ok(())
        }
    }
}

/// The union of two flag sets carries both, and the union of two known sets
/// is known.
pub proof fn lemma_packet_flags_union(a: PacketFlags, b: PacketFlags)
    ensures
        flag_bits_contain(a.0 | b.0, a.0),
        flag_bits_contain(a.0 | b.0, b.0),
        a.spec_is_known() && b.spec_is_known() ==> PacketFlags(a.0 | b.0).spec_is_known(),
{
    let x = a.0;
    let y = b.0;
    assert((x | y) & x == x) by (bit_vector);
    assert((x | y) & y == y) by (bit_vector);
    assert(x & !0xffu32 == 0 && y & !0xffu32 == 0 ==> (x | y) & !0xffu32 == 0) by (bit_vector);
}

/// Borrowed packet buffer envelope.
#[derive(Clone, Copy, Debug, Eq, PartialEq)]
pub struct PacketBuffer<'a> {
    /// Stable packet identifier.
    pub id: PacketId,
    /// Source endpoint.
    pub source: NetworkAddress<'a>,
    /// Destination endpoint.
    pub destination: NetworkAddress<'a>,
    /// Packet protocol.
    pub protocol: PacketProtocol,
    /// Borrowed payload bytes.
    pub payload: &'a [u8],
    /// Logical payload length.
    pub payload_len: usize,
    /// Capacity promised by the owner of the payload backing storage.
    pub capacity: usize,
    /// Packet flags.
    pub flags: PacketFlags,
    /// Scheduling priority in the range `0..=MAX_PACKET_PRIORITY`.
    pub priority: u8,
    /// Transport sequence number when available.
    pub sequence: u64,
    /// Payload data classification.
    pub data_class: DataClass,
    /// Redaction state for diagnostic exports.
    pub redaction: RedactionState,
    /// Trace context.
    pub trace: TraceContext,
}

impl<'a> PacketBuffer<'a> {
    /// Both endpoints of the packet are loopback addresses.
    pub open spec fn spec_is_loopback_path(self) -> bool {
        self.source.kind is Loopback && self.destination.kind is Loopback
    }

    /// The packet needs durable audit evidence: it asks for it, or its data
    /// class is sensitive or secret.
    pub open spec fn spec_requires_audit(self) -> bool {
        flag_bits_contain(self.flags.0, PACKET_FLAG_AUDIT_REQUIRED) || self.data_class is Sensitive
            || self.data_class is Secret
    }

    /// What `validate` answers, checks in this order: identifier, source,
    /// destination, flags, payload length against the payload and the
    /// capacity, payload bound, priority, loopback-only protocol, control
    /// flag, encryption of secret payloads, redaction, trace.
    pub open spec fn spec_validate(self) -> NetworkResult<()> {
        if self.id.0 == INVALID_PACKET_ID {
            Err(NetworkError::InvalidPacket)
        } else if self.source.spec_validate() is Err {
            self.source.spec_validate()
        } else if self.destination.spec_validate() is Err {
            self.destination.spec_validate()
        } else if !self.flags.spec_is_known() {
            Err(NetworkError::ReservedBits)
        } else if self.payload_len != self.payload@.len() || self.payload_len > self.capacity {
            Err(NetworkError::InvalidPacket)
        } else if self.payload_len > MAX_PACKET_PAYLOAD_LEN || self.capacity
            > MAX_PACKET_PAYLOAD_LEN {
            Err(NetworkError::PayloadTooLarge)
        } else if self.priority > MAX_PACKET_PRIORITY {
            Err(NetworkError::InvalidPacket)
        } else if self.protocol is Loopback && !self.spec_is_loopback_path() {
            Err(NetworkError::LoopbackOnly)
        } else if self.protocol.spec_is_control() && !flag_bits_contain(
            self.flags.0,
            PACKET_FLAG_CONTROL,
        ) {
            Err(NetworkError::InvalidPacket)
        } else if self.data_class is Secret && !flag_bits_contain(
            self.flags.0,
            PACKET_FLAG_ENCRYPTED,
        ) {
            Err(NetworkError::EncryptionRequired)
        } else if !redaction_allowed(self.data_class, self.redaction) {
            Err(NetworkError::InvalidRedaction)
        } else {
            self.trace.spec_validate()
        }
    }

    /// Creates a packet buffer over borrowed payload bytes.
    pub fn new(
        id: PacketId,
        source: NetworkAddress<'a>,
        destination: NetworkAddress<'a>,
        protocol: PacketProtocol,
        payload: &'a [u8],
    ) -> (r: Self)
        ensures
            r == (PacketBuffer {
                id,
                source,
                destination,
                protocol,
                payload,
                payload_len: payload@.len() as usize,
                capacity: payload@.len() as usize,
                flags: PacketFlags(0),
                priority: 0,
                sequence: 0,
                data_class: DataClass::Operational,
                redaction: RedactionState::Operational,
                trace: empty_trace(),
            }),
    {
        PacketBuffer {
            id,
            source,
            destination,
            protocol,
            payload,
            payload_len: payload.len(),
            capacity: payload.len(),
            flags: PacketFlags(0),
            priority: 0,
            sequence: 0,
            data_class: DataClass::Operational,
            redaction: RedactionState::Operational,
            trace: TraceContext { trace_id: 0, span_id: 0, parent_span_id: 0, flags: 0 },
        }
    }

    /// Sets the payload capacity metadata.
    pub fn with_capacity(self, capacity: usize) -> (r: Self)
        ensures
            r == (PacketBuffer { capacity, ..self }),
    {
        let mut p = self;
        p.capacity = capacity;
        p
    }

    /// Sets packet flags.
    pub fn with_flags(self, flags: PacketFlags) -> (r: Self)
        ensures
            r == (PacketBuffer { flags, ..self }),
    {
        let mut p = self;
        p.flags = flags;
        p
    }

    /// Sets packet priority.
    pub fn with_priority(self, priority: u8) -> (r: Self)
        ensures
            r == (PacketBuffer { priority, ..self }),
    {
        let mut p = self;
        p.priority = priority;
        p
    }

    /// Sets the transport sequence number.
    pub fn with_sequence(self, sequence: u64) -> (r: Self)
        ensures
            r == (PacketBuffer { sequence, ..self }),
    {
        let mut p = self;
        p.sequence = sequence;
        p
    }

    /// Sets data classification and redaction state.
    pub fn with_classification(self, data_class: DataClass, redaction: RedactionState) -> (r: Self)
        ensures
            r == (PacketBuffer { data_class, redaction, ..self }),
    {
        let mut p = self;
        p.data_class = data_class;
        p.redaction = redaction;
        p
    }

    /// Sets trace context.
    pub fn with_trace(self, trace: TraceContext) -> (r: Self)
        ensures
            r == (PacketBuffer { trace, ..self }),
    {
        let mut p = self;
        p.trace = trace;
        p
    }

    /// Returns `true` when this packet requires durable audit evidence.
    pub fn requires_audit(self) -> (r: bool)
        ensures
            r == self.spec_requires_audit(),
    {
        self.flags.contains(PacketFlags(PACKET_FLAG_AUDIT_REQUIRED)) || matches!(
            self.data_class,
            DataClass::Sensitive | DataClass::Secret
        )
    }

    /// Validates packet metadata.
    pub fn validate(self) -> (r: NetworkResult<()>)
        ensures
            r == self.spec_validate(),
    {
        self.id.validate()?;
        self.source.validate()?;
        self.destination.validate()?;
        self.flags.validate()?;
        if self.payload_len != self.payload.len() || self.payload_len > self.capacity {
            return Err(NetworkError::InvalidPacket);
        }
        if self.payload_len > MAX_PACKET_PAYLOAD_LEN || self.capacity > MAX_PACKET_PAYLOAD_LEN {
            return Err(NetworkError::PayloadTooLarge);
        }
        if self.priority > MAX_PACKET_PRIORITY {
            return Err(NetworkError::InvalidPacket);
        }
        if self.protocol.is_loopback_only() && (!self.source.is_loopback()
            || !self.destination.is_loopback()) {
            return Err(NetworkError::LoopbackOnly);
        }
        if self.protocol.is_control() && !self.flags.contains(PacketFlags(PACKET_FLAG_CONTROL)) {
            return Err(NetworkError::InvalidPacket);
        }
        if matches!(self.data_class, DataClass::Secret) && !self.flags.contains(
            PacketFlags(PACKET_FLAG_ENCRYPTED),
        ) {
            return Err(NetworkError::EncryptionRequired);
        }
        validate_redaction(self.data_class, self.redaction)?;
        self.trace.validate()
    }
}

/// A packet that validates is bounded and classified: its payload fits the
/// buffer bound, its priority is in range, a loopback packet travels between
/// loopback addresses, a control or ICMP packet carries the control flag, a
/// secret payload is encrypted, and its redaction state suits its class.
pub proof fn lemma_valid_packet_is_bounded(p: PacketBuffer)
    requires
        p.spec_validate() is Ok,
    ensures
        p.id.0 != INVALID_PACKET_ID,
        p.source.spec_validate() is Ok,
        p.destination.spec_validate() is Ok,
        p.payload_len == p.payload@.len(),
        p.payload_len <= p.capacity <= MAX_PACKET_PAYLOAD_LEN,
        p.priority <= MAX_PACKET_PRIORITY,
        p.protocol is Loopback ==> p.spec_is_loopback_path(),
        p.protocol.spec_is_control() ==> flag_bits_contain(p.flags.0, PACKET_FLAG_CONTROL),
        p.data_class is Secret ==> flag_bits_contain(p.flags.0, PACKET_FLAG_ENCRYPTED),
        redaction_allowed(p.data_class, p.redaction),
        p.trace.spec_validate() is Ok,
{
}

/// Packet rules: a packet validates exactly when its identifier is valid,
/// both addresses validate, it carries only known flags, its logical length is
/// its payload's length and within its capacity, its capacity is within
/// `MAX_PACKET_PAYLOAD_LEN`, its priority is at most `MAX_PACKET_PRIORITY`, a
/// loopback packet travels between loopback addresses, a control or ICMP
/// packet carries the control flag, a secret payload carries the encrypted
/// flag, its redaction suits its class, and its trace validates.
pub proof fn lemma_packet_validity_rules(p: PacketBuffer)
    ensures
        p.spec_validate() is Ok <==> {
            &&& p.id.0 != 0
            &&& p.source.spec_validate() is Ok
            &&& p.destination.spec_validate() is Ok
            &&& p.flags.0 & !0xffu32 == 0
            &&& p.payload_len == p.payload@.len()
            &&& p.payload_len <= p.capacity
            &&& p.capacity <= 4096
            &&& p.priority <= 7
            &&& p.protocol is Loopback ==> (p.source.kind is Loopback && p.destination.kind is Loopback)
            &&& (p.protocol is Control || p.protocol is Icmp) ==> p.flags.0 & 0x10u32 == 0x10u32
            &&& p.data_class is Secret ==> p.flags.0 & 0x40u32 == 0x40u32
            &&& ((p.data_class is Public && p.redaction is Public) || (p.data_class is Operational
                && p.redaction is Operational) || (p.data_class is Sensitive && (p.redaction is SensitiveRedacted
                || p.redaction is SecretRedacted)) || (p.data_class is Secret && p.redaction is SecretRedacted))
            &&& p.trace.spec_validate() is Ok
        },
{
}

/// Classification decides what a valid packet may carry. Take a packet that
/// validates and give it another data class and redaction state: it still
/// validates exactly when the pair is one of (public, public), (operational,
/// operational), (sensitive, sensitive-redacted), (sensitive,
/// secret-redacted), (secret, secret-redacted), and a secret payload carries
/// the encrypted flag. Only secret data without the encrypted flag is refused
/// with `EncryptionRequired`; any other unsuited pair is refused with
/// `InvalidRedaction`.
pub proof fn lemma_classification_decides_validity(p: PacketBuffer, dc: DataClass, rd: RedactionState)
    requires
        p.spec_validate() is Ok,
    ensures
        ({
            let q = PacketBuffer { data_class: dc, redaction: rd, ..p };
            let suited = (dc is Public && rd is Public) || (dc is Operational && rd is Operational)
                || (dc is Sensitive && (rd is SensitiveRedacted || rd is SecretRedacted)) || (
            dc is Secret && rd is SecretRedacted);
            let encrypted = p.flags.0 & PACKET_FLAG_ENCRYPTED == PACKET_FLAG_ENCRYPTED;
            &&& q.spec_validate() is Ok <==> suited && (dc is Secret ==> encrypted)
            &&& q.spec_validate() == Err::<(), NetworkError>(NetworkError::EncryptionRequired) <==> (
            dc is Secret && !encrypted)
            &&& q.spec_validate() == Err::<(), NetworkError>(NetworkError::InvalidRedaction) <==> (
            !suited && !(dc is Secret && !encrypted))
        }),
{
}

/// Encryption is demanded of secret data only: no packet whose data class is
/// public, operational or sensitive is ever refused with
/// `EncryptionRequired`, and a secret packet that is refused so lacks the
/// encrypted flag.
pub proof fn lemma_encryption_required_only_for_secrets(p: PacketBuffer)
    ensures
        p.spec_validate() == Err::<(), NetworkError>(NetworkError::EncryptionRequired) ==> (
        p.data_class is Secret && p.flags.0 & PACKET_FLAG_ENCRYPTED != PACKET_FLAG_ENCRYPTED),
{
}

/// Packet queue counters for host-mode tests and diagnostics.
#[derive(Clone, Copy, Debug, Default, Eq, PartialEq)]
pub struct PacketQueueStats {
    /// Packets accepted by the queue.
    pub packets_queued: u64,
    /// Packets removed from the queue.
    pub packets_dequeued: u64,
    /// Payload bytes accepted by the queue.
    pub bytes_queued: u64,
    /// Payload bytes removed from the queue.
    pub bytes_dequeued: u64,
    /// Packets dropped because the queue was full.
    pub drops: u64,
}

/// Fixed-capacity packet FIFO used by transport adapters and tests.
#[derive(Debug, Eq, PartialEq)]
pub struct PacketQueue<'a, const N: usize> {
    slots: [Option<PacketBuffer<'a>>; N],
    head: usize,
    len: usize,
    stats: PacketQueueStats,
}

impl<'a, const N: usize> View for PacketQueue<'a, N> {
    type V = Seq<PacketBuffer<'a>>;

    /// The queued packets, oldest first.
    closed spec fn view(&self) -> Seq<PacketBuffer<'a>> {
        ring_view(self.slots@, self.head as int, self.len as int)
    }
}

impl<'a, const N: usize> PacketQueue<'a, N> {
    /// The backing slots.
    pub closed spec fn slot_view(&self) -> Seq<Option<PacketBuffer<'a>>> {
        self.slots@
    }

    /// The slot that holds the oldest packet.
    pub closed spec fn head_slot(&self) -> int {
        self.head as int
    }

    /// The queue counters.
    pub closed spec fn spec_stats(&self) -> PacketQueueStats {
        self.stats
    }

    /// Well-formed queue, kept by every value of the type: the queued
    /// packets occupy consecutive ring slots from the head, and every queued
    /// packet validates.
    #[verifier::type_invariant]
    pub closed spec fn wf(&self) -> bool {
        &&& ring_wf(self.slots@, self.head as int, self.len as int)
        &&& forall|i: int| 0 <= i < self@.len() ==> (#[trigger] self@[i]).spec_validate() is Ok
    }

    /// What `push` does: an invalid packet is refused with its validation
    /// error and changes nothing; a full queue refuses the packet with
    /// `CapacityExceeded` and counts a drop; otherwise the packet is stored in
    /// the slot after the last queued one and counted.
    pub open spec fn pushed(self, post: Self, packet: PacketBuffer<'a>, r: NetworkResult<()>) -> bool {
        if packet.spec_validate() is Err {
            r == packet.spec_validate() && post == self
        } else if self@.len() == N {
            &&& r == Err::<(), NetworkError>(NetworkError::CapacityExceeded)
            &&& post@ == self@
            &&& post.slot_view() == self.slot_view()
            &&& post.head_slot() == self.head_slot()
            &&& post.spec_stats() == (PacketQueueStats {
                drops: sat_add(self.spec_stats().drops, 1),
                ..self.spec_stats()
            })
        } else {
            &&& r == Ok::<(), NetworkError>(())
            &&& post@ == self@.push(packet)
            &&& post.slot_view() == self.slot_view().update(
                ring_slot(self.head_slot(), self@.len() as int, N as int),
                Some(packet),
            )
            &&& post.head_slot() == self.head_slot()
            &&& post.spec_stats() == (PacketQueueStats {
                packets_queued: sat_add(self.spec_stats().packets_queued, 1),
                bytes_queued: sat_add(self.spec_stats().bytes_queued, packet.payload_len as u64),
                ..self.spec_stats()
            })
        }
    }

    /// What `pop` does: an empty queue answers `PacketUnavailable` and changes
    /// nothing; otherwise the oldest packet leaves its slot, is counted and is
    /// returned.
    pub open spec fn popped(self, post: Self, r: NetworkResult<PacketBuffer<'a>>) -> bool {
        if self@.len() == 0 {
            r == Err::<PacketBuffer<'a>, NetworkError>(NetworkError::PacketUnavailable) && post
                == self
        } else {
            &&& r == Ok::<PacketBuffer<'a>, NetworkError>(self@[0])
            &&& post@ == self@.drop_first()
            &&& post.slot_view() == self.slot_view().update(self.head_slot(), None)
            &&& post.head_slot() == ring_next_head(self.head_slot(), self@.len() as int, N as int)
            &&& post.spec_stats() == (PacketQueueStats {
                packets_dequeued: sat_add(self.spec_stats().packets_dequeued, 1),
                bytes_dequeued: sat_add(self.spec_stats().bytes_dequeued, self@[0].payload_len as u64),
                ..self.spec_stats()
            })
        }
    }

    /// Creates an empty packet queue.
    pub fn new() -> (r: Self)
        ensures
            r@.len() == 0,
            r.head_slot() == 0,
            r.slot_view() == Seq::new(N as nat, |i: int| None::<PacketBuffer<'a>>),
            r.spec_stats() == (PacketQueueStats {
                packets_queued: 0,
                packets_dequeued: 0,
                bytes_queued: 0,
                bytes_dequeued: 0,
                drops: 0,
            }),
    {
        let r = PacketQueue {
            slots: vacant_array(),
            head: 0,
            len: 0,
            stats: PacketQueueStats {
                packets_queued: 0,
                packets_dequeued: 0,
                bytes_queued: 0,
                bytes_dequeued: 0,
                drops: 0,
            },
        };
        assert(r@ =~= Seq::<PacketBuffer<'a>>::empty());
        r
    }

    /// Returns active packet count.
    pub fn len(&self) -> (r: usize)
        ensures
            r == self@.len(),
    {
        proof {
            use_type_invariant(self);
        }
        self.len
    }

    /// Returns `true` when no packets are queued.
    pub fn is_empty(&self) -> (r: bool)
        ensures
            r == (self@.len() == 0),
    {
        proof {
            use_type_invariant(self);
        }
        self.len == 0
    }

    /// Returns queue capacity.
    pub fn capacity(&self) -> (r: usize)
        ensures
            r == N,
    {
        N
    }

    /// Returns queue statistics.
    pub fn stats(&self) -> (r: PacketQueueStats)
        ensures
            r == self.spec_stats(),
    {
        self.stats
    }

    /// Returns all backing slots.
    pub fn slots(&self) -> (r: &[Option<PacketBuffer<'a>>; N])
        ensures
            r@ == self.slot_view(),
    {
        &self.slots
    }

    /// Returns the next packet without removing it.
    pub fn peek(&self) -> (r: Option<&PacketBuffer<'a>>)
        ensures
            self@.len() == 0 ==> r is None,
            self@.len() > 0 ==> r is Some && *r.unwrap() == self@[0],
    {
        proof {
            use_type_invariant(self);
        }
        if self.len == 0 || N == 0 {
            None
        } else {
            proof {
                lemma_ring_pop(self.slots@, self.head as int, self.len as int);
            }
            self.slots[self.head].as_ref()
        }
    }

    /// Enqueues a packet after validation. An invalid packet is refused with
    /// its validation error and changes nothing; a full queue refuses the
    /// packet with `CapacityExceeded` and counts a drop; otherwise the packet
    /// is stored in the slot after the last queued one.
    pub fn push(&mut self, packet: PacketBuffer<'a>) -> (r: NetworkResult<()>)
        ensures
            old(self).pushed(*final(self), packet, r),
    {
        proof {
            use_type_invariant(&*self);
        }
        packet.validate()?;
        if self.len == N || N == 0 {
            self.stats.drops = self.stats.drops.saturating_add(1);
            return Err(NetworkError::CapacityExceeded);
        }
        let tail = if self.len < N - self.head {
            self.head + self.len
        } else {
            self.len - (N - self.head)
        };
        let ghost old_view = self@;
        proof {
            let s2 = self.slots@.update(tail as int, Some(packet));
            lemma_ring_push(self.slots@, self.head as int, self.len as int, packet);
            lemma_ring_shrink(s2, self.head as int, self.len as int + 1);
            assert(old_view.push(packet).drop_last() =~= old_view);
            assert forall|i: int| 0 <= i < old_view.len() + 1 implies (#[trigger] old_view.push(
                packet,
            )[i]).spec_validate() is Ok by {
                if i < old_view.len() {
                    assert(old_view.push(packet)[i] == old_view[i]);
                }
            }
        }
        set_slot(&mut self.slots, tail, Some(packet));
        self.len += 1;
        self.stats.packets_queued = self.stats.packets_queued.saturating_add(1);
        self.stats.bytes_queued = self.stats.bytes_queued.saturating_add(packet.payload_len as u64);
        Ok(())
    }

    /// Removes the next packet. An empty queue answers `PacketUnavailable`
    /// and changes nothing; otherwise the oldest packet leaves its slot and is
    /// returned, and it always validates.
    pub fn pop(&mut self) -> (r: NetworkResult<PacketBuffer<'a>>)
        ensures
            old(self).popped(*final(self), r),
            r matches Ok(p) ==> p.spec_validate() is Ok,
    {
        proof {
            use_type_invariant(&*self);
        }
        if self.len == 0 || N == 0 {
            return Err(NetworkError::PacketUnavailable);
        }
        let ghost old_view = self@;
        proof {
            lemma_ring_pop(self.slots@, self.head as int, self.len as int);
            lemma_ring_shrink(self.slots@, self.head as int, self.len as int);
            lemma_ring_advance(self.slots@, self.head as int, self.len as int);
            assert forall|i: int| 0 <= i < old_view.len() - 1 implies (#[trigger] old_view.drop_last()[i]).spec_validate() is Ok
                && (#[trigger] old_view.drop_first()[i]).spec_validate() is Ok by {
                assert(old_view.drop_last()[i] == old_view[i]);
                assert(old_view.drop_first()[i] == old_view[i + 1]);
            }
            assert(old_view[0].spec_validate() is Ok);
        }
        let old_head = self.head;
        let packet = match self.slots[old_head] {
            Some(packet) => packet,
            None => {
                return Err(NetworkError::PacketUnavailable);
            },
        };
        self.len -= 1;
        self.head = if self.len == 0 {
            0
        } else if old_head + 1 < N {
            old_head + 1
        } else {
            0
        };
        set_slot(&mut self.slots, old_head, None);
        self.stats.packets_dequeued = self.stats.packets_dequeued.saturating_add(1);
        self.stats.bytes_dequeued = self.stats.bytes_dequeued.saturating_add(
            packet.payload_len as u64,
        );
        Ok(packet)
    }
}

impl<'a, const N: usize> Clone for PacketQueue<'a, N> {
    /// Copies the queue: same slots, head, length and counters.
    fn clone(&self) -> (r: Self)
        ensures
            r == *self,
    {
        proof {
            use_type_invariant(self);
        }
        PacketQueue { slots: self.slots, head: self.head, len: self.len, stats: self.stats }
    }
}

impl<'a, const N: usize> Default for PacketQueue<'a, N> {
    fn default() -> (r: Self)
        ensures
            r@.len() == 0,
            r.head_slot() == 0,
            r.slot_view() == Seq::new(N as nat, |i: int| None::<PacketBuffer<'a>>),
            r.spec_stats() == (PacketQueueStats {
                packets_queued: 0,
                packets_dequeued: 0,
                bytes_queued: 0,
                bytes_dequeued: 0,
                drops: 0,
            }),
    {
        Self::new()
    }
}

/// Two packet queues that agree on every observation (contents, slots, head
/// and counters) are the same value.
pub proof fn lemma_queue_observations_determine<'a, const N: usize>(
    a: PacketQueue<'a, N>,
    b: PacketQueue<'a, N>,
)
    requires
        a@ == b@,
        a.slot_view() == b.slot_view(),
        a.head_slot() == b.head_slot(),
        a.spec_stats() == b.spec_stats(),
    ensures
        a == b,
{
    assert(a.slots =~= b.slots);
    assert(a.len == a@.len());
}

/// Pushing is deterministic: from one queue and packet, `push` always leaves
/// the same queue and answers the same result.
pub proof fn lemma_push_is_deterministic<'a, const N: usize>(
    q: PacketQueue<'a, N>,
    post1: PacketQueue<'a, N>,
    post2: PacketQueue<'a, N>,
    packet: PacketBuffer<'a>,
    r1: NetworkResult<()>,
    r2: NetworkResult<()>,
)
    requires
        q.pushed(post1, packet, r1),
        q.pushed(post2, packet, r2),
    ensures
        post1 == post2,
        r1 == r2,
{
    lemma_queue_observations_determine(post1, post2);
}

/// Popping is deterministic: from one queue, `pop` always leaves the same
/// queue and answers the same result.
pub proof fn lemma_pop_is_deterministic<'a, const N: usize>(
    q: PacketQueue<'a, N>,
    post1: PacketQueue<'a, N>,
    post2: PacketQueue<'a, N>,
    r1: NetworkResult<PacketBuffer<'a>>,
    r2: NetworkResult<PacketBuffer<'a>>,
)
    requires
        q.popped(post1, r1),
        q.popped(post2, r2),
    ensures
        post1 == post2,
        r1 == r2,
{
    lemma_queue_observations_determine(post1, post2);
}

/// A well-formed queue never holds more packets than it has slots.
pub proof fn lemma_queue_is_bounded<'a, const N: usize>(q: PacketQueue<'a, N>)
    requires
        q.wf(),
    ensures
        q@.len() <= N,
        q.slot_view().len() == N,
{
}

/// First in, first out: a packet pushed onto a queue comes out after every
/// packet queued before it. Pushing onto an empty queue and popping gives the
/// same packet back and leaves the queue empty; popping a nonempty queue after
/// a push answers its oldest packet and leaves the rest followed by the pushed
/// one.
pub proof fn lemma_queue_fifo<'a, const N: usize>(
    q0: PacketQueue<'a, N>,
    q1: PacketQueue<'a, N>,
    q2: PacketQueue<'a, N>,
    packet: PacketBuffer<'a>,
    r: NetworkResult<PacketBuffer<'a>>,
)
    requires
        q0.pushed(q1, packet, Ok(())),
        q1.popped(q2, r),
    ensures
        q0@.len() == 0 ==> r == Ok::<PacketBuffer<'a>, NetworkError>(packet) && q2@.len() == 0,
        q0@.len() > 0 ==> r == Ok::<PacketBuffer<'a>, NetworkError>(q0@[0]) && q2@ == q0@.drop_first().push(
            packet,
        ),
{
    if q0@.len() > 0 {
        assert(q0@.push(packet).drop_first() =~= q0@.drop_first().push(packet));
    }
}

} // verus!

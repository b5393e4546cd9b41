//! Network stack boundary contracts for Alani.
//!
//! `alani-network` is a boundary for loopback devices, packet buffers,
//! sockets, protocol adapters, and future transport services. Every
//! validation, queue and table operation carries a contract that Verus checks.

pub mod loopback;
pub mod packet;
pub mod protocol;
pub mod slots;
pub mod socket;

pub use loopback::{
    LoopbackDescriptor, LoopbackDevice, LoopbackQueue, LoopbackState, LoopbackStats,
    LOOPBACK_DEVICE_LABEL,
};
pub use packet::{
    AddressKind, NetworkAddress, PacketBuffer, PacketDescriptor, PacketFlags, PacketId,
    PacketProtocol, PacketQueue, PacketQueueStats, INVALID_PACKET_ID, MAX_FRAME_LEN,
    MAX_PACKET_LABEL_LEN, MAX_PACKET_PAYLOAD_LEN, MAX_PACKET_PRIORITY, MAX_PACKET_TAGS,
    PACKET_FLAG_AUDIT_REQUIRED, PACKET_FLAG_BROADCAST, PACKET_FLAG_CHECKSUMMED,
    PACKET_FLAG_CONTROL, PACKET_FLAG_ENCRYPTED, PACKET_FLAG_FRAGMENTED, PACKET_FLAG_MULTICAST,
    PACKET_FLAG_RELIABLE, PACKET_KNOWN_FLAGS, PACKET_SCHEMA_VERSION,
};
pub use protocol::{
    ProtocolAdapter, ProtocolCapabilities, ProtocolDescriptor, ProtocolRegistry, ProtocolState,
    TransportProtocol, KNOWN_PROTOCOL_CAPABILITIES, MAX_PROTOCOL_NAME_LEN,
    MAX_PROTOCOL_VERSION_LEN, PROTOCOL_CAP_CHECKSUM, PROTOCOL_CAP_CONTROL, PROTOCOL_CAP_DATAGRAM,
    PROTOCOL_CAP_ENCRYPTION_REQUIRED, PROTOCOL_CAP_LOOPBACK_ONLY, PROTOCOL_CAP_ORDERED,
    PROTOCOL_CAP_RAW, PROTOCOL_CAP_RELIABLE, PROTOCOL_CAP_STREAM, PROTOCOL_SCHEMA_VERSION,
};
pub use socket::{
    SocketDescriptor, SocketEndpoint, SocketFlags, SocketHandle, SocketId, SocketOperation,
    SocketOptions, SocketRequest, SocketState, SocketStats, SocketTable, SocketTableDescriptor,
    SocketType, INVALID_SOCKET_ID, MAX_SOCKET_BACKLOG, MAX_SOCKET_BUFFER_LEN, MAX_SOCKET_OWNER_LEN,
    SOCKET_FLAG_AUDIT_REQUIRED, SOCKET_FLAG_ENCRYPTED, SOCKET_FLAG_LISTEN,
    SOCKET_FLAG_LOOPBACK_ONLY, SOCKET_FLAG_NONBLOCK, SOCKET_FLAG_PRIVILEGED, SOCKET_KNOWN_FLAGS,
    SOCKET_SCHEMA_VERSION,
};

use vstd::prelude::*;
use vstd::string::StringSliceAdditionalSpecFns;

verus! {

/// Repository name.
pub const REPOSITORY: &'static str = "alani-network";

/// Crate version.
pub const VERSION: &'static str = "0.1.0";

/// Public module names exposed by this crate.
pub const MODULES: &'static [&'static str; 4] = &["packet", "socket", "loopback", "protocol"];

/// Feature bit for packet buffers and address descriptors.
pub const NETWORK_FEATURE_PACKET_BUFFERS: u64 = 0x1;
/// Feature bit for socket handles and operation envelopes.
pub const NETWORK_FEATURE_SOCKETS: u64 = 0x2;
/// Feature bit for loopback device queues.
pub const NETWORK_FEATURE_LOOPBACK: u64 = 0x4;
/// Feature bit for protocol adapters and registries.
pub const NETWORK_FEATURE_PROTOCOL_ADAPTERS: u64 = 0x8;
/// Feature bit for capability-aware request validation.
pub const NETWORK_FEATURE_POLICY_GATES: u64 = 0x10;
/// Feature bit for trace-context propagation.
pub const NETWORK_FEATURE_TRACE_CONTEXT: u64 = 0x20;
/// Feature bit for data classification and redaction validation.
pub const NETWORK_FEATURE_REDACTION: u64 = 0x40;
/// Feature bit for generic fixed-capacity packet queues.
pub const NETWORK_FEATURE_PACKET_QUEUES: u64 = 0x80;
/// Feature bit for socket table registration and endpoint conflict checks.
pub const NETWORK_FEATURE_SOCKET_TABLE: u64 = 0x100;

/// All network feature bits known by this crate version (the union of the
/// feature bits above).
pub const NETWORK_KNOWN_FEATURES: u64 = 0x1ff;

/// Caller may inspect network metadata.
pub const NETWORK_RIGHT_READ: u64 = 0x1;
/// Caller may send packets.
pub const NETWORK_RIGHT_SEND: u64 = 0x2;
/// Caller may receive packets.
pub const NETWORK_RIGHT_RECEIVE: u64 = 0x4;
/// Caller may bind local endpoints.
pub const NETWORK_RIGHT_BIND: u64 = 0x8;
/// Caller may listen for inbound connections.
pub const NETWORK_RIGHT_LISTEN: u64 = 0x10;
/// Caller may connect to a peer endpoint.
pub const NETWORK_RIGHT_CONNECT: u64 = 0x20;
/// Caller may configure sockets or protocol adapters.
pub const NETWORK_RIGHT_CONFIGURE: u64 = 0x40;
/// Caller may build raw packet or simulated link-layer envelopes.
pub const NETWORK_RIGHT_RAW_PACKET: u64 = 0x80;
/// Caller may use loopback-only device paths.
pub const NETWORK_RIGHT_LOOPBACK: u64 = 0x100;
/// Caller may emit or preserve durable audit evidence.
pub const NETWORK_RIGHT_AUDIT: u64 = 0x200;
/// Caller has administrative network authority.
pub const NETWORK_RIGHT_ADMIN: u64 = 0x400;

/// All network rights known by this crate version (the union of the rights
/// above).
pub const NETWORK_KNOWN_RIGHTS: u64 = 0x7ff;

/// Trace flag indicating the event was sampled.
pub const TRACE_FLAG_SAMPLED: u32 = 0x1;
/// Trace flag indicating debug metadata may be attached by a trusted sink.
pub const TRACE_FLAG_DEBUG: u32 = 0x2;
/// Trace flag indicating the network operation crossed a transport boundary.
pub const TRACE_FLAG_REMOTE: u32 = 0x4;
/// Trace flag indicating audit evidence must be preserved.
pub const TRACE_FLAG_AUDIT_REQUIRED: u32 = 0x8;
/// Trace flags known by this crate version.
pub const TRACE_KNOWN_FLAGS: u32 = 0xf;

/// Result alias for network validation and host-mode operations.
pub type NetworkResult<T> = Result<T, NetworkError>;

/// Error taxonomy for packets, sockets, protocol adapters, and loopback paths.
#[derive(Clone, Copy, Debug, Eq, PartialEq, Structural)]
pub enum NetworkError {
    /// A required field was empty or omitted.
    MissingField,
    /// A bounded field exceeded its documented maximum length.
    FieldTooLong,
    /// A label contained a disallowed character.
    InvalidLabel,
    /// Unknown feature, capability, flag, or rights bits were supplied.
    ReservedBits,
    /// Network address metadata failed validation.
    InvalidAddress,
    /// Packet identifier, payload, or metadata failed validation.
    InvalidPacket,
    /// Packet payload exceeded the documented buffer bound.
    PayloadTooLarge,
    /// Protocol adapter metadata failed validation.
    InvalidProtocol,
    /// Protocol adapter already exists in a registry.
    DuplicateProtocol,
    /// Requested protocol adapter was not found.
    ProtocolNotFound,
    /// Socket identifier, state, endpoint, or option metadata failed validation.
    InvalidSocket,
    /// Socket identifier already exists in a table.
    DuplicateSocket,
    /// Requested socket was not found.
    SocketNotFound,
    /// Endpoint is already bound by an active socket.
    EndpointInUse,
    /// Socket is already closed.
    SocketClosed,
    /// Caller lacks required network authority.
    AccessDenied,
    /// Operation attempted to use a read-only target.
    ReadOnly,
    /// Operation attempted to use a sealed target.
    Sealed,
    /// Simulated network device is unavailable.
    DeviceUnavailable,
    /// Fixed-capacity collection is full.
    CapacityExceeded,
    /// No packet is available for the requested receive path.
    PacketUnavailable,
    /// Operation requires loopback-only endpoints.
    LoopbackOnly,
    /// Trace context was malformed.
    InvalidTrace,
    /// Redaction state is incompatible with the data class.
    InvalidRedaction,
    /// Secret or protected data requires encryption metadata.
    EncryptionRequired,
    /// Internal invariant failed.
    Internal,
}

impl NetworkError {
    /// The stable reason label of each error.
    pub open spec fn reason_label(self) -> Seq<char> {
        match self {
            NetworkError::MissingField => "missing_field"@,
            NetworkError::FieldTooLong => "field_too_long"@,
            NetworkError::InvalidLabel => "invalid_label"@,
            NetworkError::ReservedBits => "reserved_bits"@,
            NetworkError::InvalidAddress => "invalid_address"@,
            NetworkError::InvalidPacket => "invalid_packet"@,
            NetworkError::PayloadTooLarge => "payload_too_large"@,
            NetworkError::InvalidProtocol => "invalid_protocol"@,
            NetworkError::DuplicateProtocol => "duplicate_protocol"@,
            NetworkError::ProtocolNotFound => "protocol_not_found"@,
            NetworkError::InvalidSocket => "invalid_socket"@,
            NetworkError::DuplicateSocket => "duplicate_socket"@,
            NetworkError::SocketNotFound => "socket_not_found"@,
            NetworkError::EndpointInUse => "endpoint_in_use"@,
            NetworkError::SocketClosed => "socket_closed"@,
            NetworkError::AccessDenied => "access_denied"@,
            NetworkError::ReadOnly => "read_only"@,
            NetworkError::Sealed => "sealed"@,
            NetworkError::DeviceUnavailable => "device_unavailable"@,
            NetworkError::CapacityExceeded => "capacity_exceeded"@,
            NetworkError::PacketUnavailable => "packet_unavailable"@,
            NetworkError::LoopbackOnly => "loopback_only"@,
            NetworkError::InvalidTrace => "invalid_trace"@,
            NetworkError::InvalidRedaction => "invalid_redaction"@,
            NetworkError::EncryptionRequired => "encryption_required"@,
            NetworkError::Internal => "internal"@,
        }
    }

    /// The errors that stand for a fail-closed trust boundary.
    pub open spec fn spec_is_security_relevant(self) -> bool {
        ||| self is ReservedBits
        ||| self is InvalidPacket
        ||| self is PayloadTooLarge
        ||| self is InvalidProtocol
        ||| self is InvalidSocket
        ||| self is EndpointInUse
        ||| self is AccessDenied
        ||| self is ReadOnly
        ||| self is Sealed
        ||| self is LoopbackOnly
        ||| self is InvalidRedaction
        ||| self is EncryptionRequired
    }

    /// Stable reason label for diagnostics and tests.
    pub fn reason(self) -> (r: &'static str)
        ensures
            r@ == self.reason_label(),
    {
        match self {
            NetworkError::MissingField => "missing_field",
            NetworkError::FieldTooLong => "field_too_long",
            NetworkError::InvalidLabel => "invalid_label",
            NetworkError::ReservedBits => "reserved_bits",
            NetworkError::InvalidAddress => "invalid_address",
            NetworkError::InvalidPacket => "invalid_packet",
            NetworkError::PayloadTooLarge => "payload_too_large",
            NetworkError::InvalidProtocol => "invalid_protocol",
            NetworkError::DuplicateProtocol => "duplicate_protocol",
            NetworkError::ProtocolNotFound => "protocol_not_found",
            NetworkError::InvalidSocket => "invalid_socket",
            NetworkError::DuplicateSocket => "duplicate_socket",
            NetworkError::SocketNotFound => "socket_not_found",
            NetworkError::EndpointInUse => "endpoint_in_use",
            NetworkError::SocketClosed => "socket_closed",
            NetworkError::AccessDenied => "access_denied",
            NetworkError::ReadOnly => "read_only",
            NetworkError::Sealed => "sealed",
            NetworkError::DeviceUnavailable => "device_unavailable",
            NetworkError::CapacityExceeded => "capacity_exceeded",
            NetworkError::PacketUnavailable => "packet_unavailable",
            NetworkError::LoopbackOnly => "loopback_only",
            NetworkError::InvalidTrace => "invalid_trace",
            NetworkError::InvalidRedaction => "invalid_redaction",
            NetworkError::EncryptionRequired => "encryption_required",
            NetworkError::Internal => "internal",
        }
    }

    /// Returns `true` when this error represents a fail-closed trust boundary.
    pub fn is_security_relevant(self) -> (r: bool)
        ensures
            r == self.spec_is_security_relevant(),
    {
        match self {
            NetworkError::ReservedBits
            | NetworkError::InvalidPacket
            | NetworkError::PayloadTooLarge
            | NetworkError::InvalidProtocol
            | NetworkError::InvalidSocket
            | NetworkError::EndpointInUse
            | NetworkError::AccessDenied
            | NetworkError::ReadOnly
            | NetworkError::Sealed
            | NetworkError::LoopbackOnly
            | NetworkError::InvalidRedaction
            | NetworkError::EncryptionRequired => true,
            _ => false,
        }
    }
}

/// Data sensitivity classification for network metadata and payloads.
#[derive(Clone, Copy, Debug, Eq, PartialEq, Ord, PartialOrd, Structural)]
pub enum DataClass {
    /// Public metadata or payload.
    Public,
    /// Operational metadata suitable for trusted operators.
    Operational,
    /// Sensitive metadata or payload requiring redaction before export.
    Sensitive,
    /// Secret metadata or payload that must not be exported raw.
    Secret,
}

impl DataClass {
    /// Classes whose data must be redacted before export.
    pub open spec fn spec_requires_redaction(self) -> bool {
        self is Sensitive || self is Secret
    }

    /// Returns `true` when data with this class must be redacted before export.
    pub fn requires_redaction(self) -> (r: bool)
        ensures
            r == self.spec_requires_redaction(),
    {
        match self {
            DataClass::Sensitive | DataClass::Secret => true,
            _ => false,
        }
    }

    /// Stable data class label.
    pub fn label(self) -> (r: &'static str)
        ensures
            r@ == match self {
                DataClass::Public => "public"@,
                DataClass::Operational => "operational"@,
                DataClass::Sensitive => "sensitive"@,
                DataClass::Secret => "secret"@,
            },
    {
        match self {
            DataClass::Public => "public",
            DataClass::Operational => "operational",
            DataClass::Sensitive => "sensitive",
            DataClass::Secret => "secret",
        }
    }
}

/// Redaction state applied to diagnostics and network envelopes.
#[derive(Clone, Copy, Debug, Eq, PartialEq, Structural)]
pub enum RedactionState {
    /// Public fields only.
    Public,
    /// Operational metadata only.
    Operational,
    /// Sensitive fields were redacted.
    SensitiveRedacted,
    /// Secret fields were redacted.
    SecretRedacted,
    /// Sensitive fields are present and must not be exported broadly.
    UnredactedSensitive,
}

impl RedactionState {
    /// Stable redaction label.
    pub fn label(self) -> (r: &'static str)
        ensures
            r@ == match self {
                RedactionState::Public => "public"@,
                RedactionState::Operational => "operational"@,
                RedactionState::SensitiveRedacted => "sensitive_redacted"@,
                RedactionState::SecretRedacted => "secret_redacted"@,
                RedactionState::UnredactedSensitive => "unredacted_sensitive"@,
            },
    {
        match self {
            RedactionState::Public => "public",
            RedactionState::Operational => "operational",
            RedactionState::SensitiveRedacted => "sensitive_redacted",
            RedactionState::SecretRedacted => "secret_redacted",
            RedactionState::UnredactedSensitive => "unredacted_sensitive",
        }
    }
}

/// Stable trace context copied from observability/syscall layers when present.
#[derive(Clone, Copy, Debug, Default, Eq, PartialEq)]
pub struct TraceContext {
    /// Trace identifier shared across component boundaries.
    pub trace_id: u64,
    /// Current span identifier.
    pub span_id: u64,
    /// Parent span identifier.
    pub parent_span_id: u64,
    /// Trace flags.
    pub flags: u32,
}

/// The empty trace context, used when no trace is available.
pub open spec fn empty_trace() -> TraceContext {
    TraceContext { trace_id: 0, span_id: 0, parent_span_id: 0, flags: 0 }
}

impl TraceContext {
    /// What `validate` answers: reserved flag bits first, then the empty
    /// context, then missing identifiers, then a span that is its own parent.
    pub open spec fn spec_validate(self) -> NetworkResult<()> {
        if self.flags & !TRACE_KNOWN_FLAGS != 0 {
            Err(NetworkError::ReservedBits)
        } else if self.trace_id == 0 && self.span_id == 0 && self.parent_span_id == 0 {
            Ok(())
        } else if self.trace_id == 0 || self.span_id == 0 {
            Err(NetworkError::InvalidTrace)
        } else if self.parent_span_id != 0 && self.parent_span_id == self.span_id {
            Err(NetworkError::InvalidTrace)
        } else {
            Ok(())
        }
    }

    /// Both the trace and the span identifier are present.
    pub open spec fn spec_is_present(self) -> bool {
        self.trace_id != 0 && self.span_id != 0
    }

    /// The empty trace context, used when no trace is available.
    pub fn empty() -> (r: Self)
        ensures
            r == empty_trace(),
    {
        TraceContext { trace_id: 0, span_id: 0, parent_span_id: 0, flags: 0 }
    }

    /// Creates a root trace context.
    pub fn root(trace_id: u64, span_id: u64) -> (r: Self)
        ensures
            r == (TraceContext { trace_id, span_id, parent_span_id: 0, flags: TRACE_FLAG_SAMPLED }),
    {
        TraceContext { trace_id, span_id, parent_span_id: 0, flags: TRACE_FLAG_SAMPLED }
    }

    /// Creates a child trace context preserving the trace identifier.
    pub fn child(self, span_id: u64) -> (r: Self)
        ensures
            r == (TraceContext {
                trace_id: self.trace_id,
                span_id,
                parent_span_id: self.span_id,
                flags: self.flags,
            }),
    {
        TraceContext {
            trace_id: self.trace_id,
            span_id,
            parent_span_id: self.span_id,
            flags: self.flags,
        }
    }

    /// Returns `true` when both trace and span identifiers are present.
    pub fn is_present(self) -> (r: bool)
        ensures
            r == self.spec_is_present(),
    {
        self.trace_id != 0 && self.span_id != 0
    }

    /// Validates trace metadata.
    pub fn validate(self) -> (r: NetworkResult<()>)
        ensures
            r == self.spec_validate(),
    {
        if self.flags & !TRACE_KNOWN_FLAGS != 0 {
            return Err(NetworkError::ReservedBits);
        }
        if self.trace_id == 0 && self.span_id == 0 && self.parent_span_id == 0 {
            return Ok(());
        }
        if self.trace_id == 0 || self.span_id == 0 {
            return Err(NetworkError::InvalidTrace);
        }
        if self.parent_span_id != 0 && self.parent_span_id == self.span_id {
            return Err(NetworkError::InvalidTrace);
        }
        Ok(())
    }
}

/// A root context with both identifiers present is present and valid.
pub proof fn lemma_root_trace_is_valid(trace_id: u64, span_id: u64)
    requires
        trace_id != 0,
        span_id != 0,
    ensures
        (TraceContext { trace_id, span_id, parent_span_id: 0, flags: TRACE_FLAG_SAMPLED }).spec_is_present(),
        (TraceContext { trace_id, span_id, parent_span_id: 0, flags: TRACE_FLAG_SAMPLED }).spec_validate()
            == Ok::<(), NetworkError>(()),
{
    assert(TRACE_FLAG_SAMPLED & !TRACE_KNOWN_FLAGS == 0) by (bit_vector);
}

/// A child of a present, valid context keeps its trace identifier, records the
/// parent span, and is itself valid when its new span is nonzero and differs
/// from the parent's span.
pub proof fn lemma_child_trace_is_valid(parent: TraceContext, span_id: u64)
    requires
        parent.spec_validate() is Ok,
        parent.spec_is_present(),
        span_id != 0,
        span_id != parent.span_id,
    ensures
        ({
            let c = TraceContext {
                trace_id: parent.trace_id,
                span_id,
                parent_span_id: parent.span_id,
                flags: parent.flags,
            };
            &&& c.trace_id == parent.trace_id
            &&& c.parent_span_id == parent.span_id
            &&& c.spec_is_present()
            &&& c.spec_validate() == Ok::<(), NetworkError>(())
        }),
{
}

/// `x + y`, held at `u64::MAX` instead of overflowing.
pub open spec fn sat_add(x: u64, y: u64) -> u64 {
    if x + y > u64::MAX {
        u64::MAX
    } else {
        (x + y) as u64
    }
}

/// Network authority bitmap.
#[derive(Clone, Copy, Debug, Default, Eq, PartialEq)]
pub struct NetworkRights(pub u64);

/// `held` carries every bit of `required`.
pub open spec fn bits_contain(held: u64, required: u64) -> bool {
    held & required == required
}

/// `held` carries every bit of `required` (32-bit flag sets).
pub open spec fn flag_bits_contain(held: u32, required: u32) -> bool {
    held & required == required
}

impl NetworkRights {
    /// No authority.
    pub fn none() -> (r: Self)
        ensures
            r == NetworkRights(0),
    {
        NetworkRights(0)
    }

    /// Read metadata.
    pub fn read() -> (r: Self)
        ensures
            r == NetworkRights(NETWORK_RIGHT_READ),
    {
        NetworkRights(NETWORK_RIGHT_READ)
    }

    /// Send packets.
    pub fn send() -> (r: Self)
        ensures
            r == NetworkRights(NETWORK_RIGHT_SEND),
    {
        NetworkRights(NETWORK_RIGHT_SEND)
    }

    /// Receive packets.
    pub fn receive() -> (r: Self)
        ensures
            r == NetworkRights(NETWORK_RIGHT_RECEIVE),
    {
        NetworkRights(NETWORK_RIGHT_RECEIVE)
    }

    /// Bind local endpoints.
    pub fn bind() -> (r: Self)
        ensures
            r == NetworkRights(NETWORK_RIGHT_BIND),
    {
        NetworkRights(NETWORK_RIGHT_BIND)
    }

    /// Listen for inbound connections.
    pub fn listen() -> (r: Self)
        ensures
            r == NetworkRights(NETWORK_RIGHT_LISTEN),
    {
        NetworkRights(NETWORK_RIGHT_LISTEN)
    }

    /// Connect to peers.
    pub fn connect() -> (r: Self)
        ensures
            r == NetworkRights(NETWORK_RIGHT_CONNECT),
    {
        NetworkRights(NETWORK_RIGHT_CONNECT)
    }

    /// Configure sockets or protocol adapters.
    pub fn configure() -> (r: Self)
        ensures
            r == NetworkRights(NETWORK_RIGHT_CONFIGURE),
    {
        NetworkRights(NETWORK_RIGHT_CONFIGURE)
    }

    /// Build raw packet envelopes.
    pub fn raw_packet() -> (r: Self)
        ensures
            r == NetworkRights(NETWORK_RIGHT_RAW_PACKET),
    {
        NetworkRights(NETWORK_RIGHT_RAW_PACKET)
    }

    /// Use loopback-only paths.
    pub fn loopback() -> (r: Self)
        ensures
            r == NetworkRights(NETWORK_RIGHT_LOOPBACK),
    {
        NetworkRights(NETWORK_RIGHT_LOOPBACK)
    }

    /// Emit audit evidence.
    pub fn audit() -> (r: Self)
        ensures
            r == NetworkRights(NETWORK_RIGHT_AUDIT),
    {
        NetworkRights(NETWORK_RIGHT_AUDIT)
    }

    /// Administrative network authority.
    pub fn admin() -> (r: Self)
        ensures
            r == NetworkRights(NETWORK_RIGHT_ADMIN),
    {
        NetworkRights(NETWORK_RIGHT_ADMIN)
    }

    /// Full authority for host-mode administrative tests.
    pub fn administrator() -> (r: Self)
        ensures
            r == NetworkRights(NETWORK_KNOWN_RIGHTS),
    {
        NetworkRights(NETWORK_KNOWN_RIGHTS)
    }

    /// The rights carry no bit unknown to this crate version.
    pub open spec fn spec_is_known(self) -> bool {
        self.0 & !NETWORK_KNOWN_RIGHTS == 0
    }

    /// What `require` answers.
    pub open spec fn spec_require(self, required: NetworkRights) -> NetworkResult<()> {
        if !self.spec_is_known() || !required.spec_is_known() {
            Err(NetworkError::ReservedBits)
        } else if bits_contain(self.0, required.0) {
            Ok(())
        } else {
            Err(NetworkError::AccessDenied)
        }
    }

    /// Creates rights from raw bits after rejecting unknown bits.
    pub fn from_bits(bits: u64) -> (r: NetworkResult<Self>)
        ensures
            r == if bits & !NETWORK_KNOWN_RIGHTS != 0 {
                Err(NetworkError::ReservedBits)
            } else {
                Ok(NetworkRights(bits))
            },
    {
        if bits & !NETWORK_KNOWN_RIGHTS != 0 {
            Err(NetworkError::ReservedBits)
        } else {
            Ok(NetworkRights(bits))
        }
    }

    /// Returns raw rights bits.
    pub fn bits(self) -> (r: u64)
        ensures
            r == self.0,
    {
        self.0
    }

    /// Returns `true` when all required rights are present.
    pub fn contains(self, required: Self) -> (r: bool)
        ensures
            r == bits_contain(self.0, required.0),
    {
        self.0 & required.0 == required.0
    }

    /// Returns the union of two rights sets.
    pub fn union(self, other: Self) -> (r: Self)
        ensures
            r == NetworkRights(self.0 | other.0),
    {
        NetworkRights(self.0 | other.0)
    }

    /// Validates reserved bits.
    pub fn validate(self) -> (r: NetworkResult<()>)
        ensures
            r == if self.spec_is_known() {
                Ok(())
            } else {
                Err(NetworkError::ReservedBits)
            },
    {
        if self.0 & !NETWORK_KNOWN_RIGHTS != 0 {
            Err(NetworkError::ReservedBits)
        } else {
            Ok(())
        }
    }

    /// Fails closed when required rights are absent.
    pub fn require(self, required: Self) -> (r: NetworkResult<()>)
        ensures
            r == self.spec_require(required),
    {
        if self.0 & !NETWORK_KNOWN_RIGHTS != 0 || required.0 & !NETWORK_KNOWN_RIGHTS != 0 {
            return Err(NetworkError::ReservedBits);
        }
        if self.contains(required) {
            Ok(())
        } else {
            Err(NetworkError::AccessDenied)
        }
    }
}

/// The union of two rights sets carries both of them, and the union of two
/// known sets is known.
pub proof fn lemma_rights_union(a: NetworkRights, b: NetworkRights)
    ensures
        bits_contain(a.0 | b.0, a.0),
        bits_contain(a.0 | b.0, b.0),
        a.spec_is_known() && b.spec_is_known() ==> NetworkRights(a.0 | b.0).spec_is_known(),
{
    let x = a.0;
    let y = b.0;
    assert((x | y) & x == x) by (bit_vector);
    assert((x | y) & y == y) by (bit_vector);
    assert(x & !0x7ffu64 == 0 && y & !0x7ffu64 == 0 ==> (x | y) & !0x7ffu64 == 0) by (bit_vector);
}

/// Full administrative authority satisfies every known requirement, and every
/// set of rights satisfies the empty requirement once its bits are known.
pub proof fn lemma_rights_require_admin(required: NetworkRights)
    requires
        required.spec_is_known(),
    ensures
        NetworkRights(NETWORK_KNOWN_RIGHTS).spec_require(required) == Ok::<(), NetworkError>(()),
{
    let y = required.0;
    assert(0x7ffu64 & !0x7ffu64 == 0) by (bit_vector);
    assert(y & !0x7ffu64 == 0 ==> 0x7ffu64 & y == y) by (bit_vector);
}

/// `require` succeeds exactly when both sets are known and the held rights
/// carry every required bit; it never succeeds for a missing right.
pub proof fn lemma_require_is_containment(held: NetworkRights, required: NetworkRights)
    ensures
        held.spec_require(required) is Ok <==> (held.spec_is_known() && required.spec_is_known()
            && bits_contain(held.0, required.0)),
        held.spec_require(required) is Err ==> held.spec_require(required) == Err::<(), NetworkError>(NetworkError::ReservedBits)
            || held.spec_require(required) == Err::<(), NetworkError>(NetworkError::AccessDenied),
{
}

/// Implementation maturity marker for generated repository metadata.
#[derive(Clone, Copy, Debug, Eq, PartialEq, Structural)]
pub enum ComponentStatus {
    /// API is present as a draft skeleton.
    Draft,
    /// API is implemented enough for host-mode experimentation.
    Experimental,
    /// API is compatible and stable.
    Stable,
}

/// Stable component identity record.
#[derive(Debug, Eq, PartialEq)]
pub struct ComponentInfo {
    /// Repository name.
    pub repository: &'static str,
    /// Crate version.
    pub version: &'static str,
    /// Current implementation status.
    pub status: ComponentStatus,
}

impl Clone for ComponentInfo {
    /// Copies the record: same repository, version and status.
    fn clone(&self) -> (r: Self)
        ensures
            r == *self,
    {
        ComponentInfo { repository: self.repository, version: self.version, status: self.status }
    }
}

/// Returns stable component identity metadata.
pub fn component_info() -> (r: ComponentInfo)
    ensures
        r.repository@ == REPOSITORY@,
        r.version@ == VERSION@,
        r.status == ComponentStatus::Experimental,
{
    ComponentInfo { repository: REPOSITORY, version: VERSION, status: ComponentStatus::Experimental }
}

/// Returns the repository name.
pub fn repository_name() -> (r: &'static str)
    ensures
        r@ == REPOSITORY@,
{
    REPOSITORY
}

/// Returns public module names.
pub fn module_names() -> (r: &'static [&'static str])
    ensures
        r@.len() == 4,
        r@[0]@ == "packet"@,
        r@[1]@ == "socket"@,
        r@[2]@ == "loopback"@,
        r@[3]@ == "protocol"@,
{
    MODULES
}

/// Compact root view of the network crate contract.
#[derive(Clone, Copy, Debug, Eq, PartialEq)]
pub struct NetworkCatalog {
    /// Repository name.
    pub repository: &'static str,
    /// Crate version.
    pub version: &'static str,
    /// Feature bitmap.
    pub features: u64,
    /// Rights bitmap recognized by this crate version.
    pub rights: u64,
    /// Packet schema version.
    pub packet_schema: &'static str,
    /// Socket schema version.
    pub socket_schema: &'static str,
    /// Protocol schema version.
    pub protocol_schema: &'static str,
}

impl NetworkCatalog {
    /// The current catalog holds these names, versions and bitmaps.
    pub open spec fn spec_is_current(self) -> bool {
        &&& self.repository@ == REPOSITORY@
        &&& self.version@ == VERSION@
        &&& self.features == NETWORK_KNOWN_FEATURES
        &&& self.rights == NETWORK_KNOWN_RIGHTS
        &&& self.packet_schema@ == packet::PACKET_SCHEMA_VERSION@
        &&& self.socket_schema@ == socket::SOCKET_SCHEMA_VERSION@
        &&& self.protocol_schema@ == protocol::PROTOCOL_SCHEMA_VERSION@
    }

    /// What `validate` answers.
    pub open spec fn spec_validate(self) -> NetworkResult<()> {
        if self.repository@.len() == 0 || self.version@.len() == 0
            || self.packet_schema@.len() == 0 || self.socket_schema@.len() == 0
            || self.protocol_schema@.len() == 0 {
            Err(NetworkError::MissingField)
        } else if self.features & !NETWORK_KNOWN_FEATURES != 0
            || self.rights & !NETWORK_KNOWN_RIGHTS != 0 {
            Err(NetworkError::ReservedBits)
        } else {
            Ok(())
        }
    }

    /// Returns the current network catalog.
    pub fn current() -> (r: Self)
        ensures
            r.spec_is_current(),
    {
        NetworkCatalog {
            repository: REPOSITORY,
            version: VERSION,
            features: NETWORK_KNOWN_FEATURES,
            rights: NETWORK_KNOWN_RIGHTS,
            packet_schema: packet::PACKET_SCHEMA_VERSION,
            socket_schema: socket::SOCKET_SCHEMA_VERSION,
            protocol_schema: protocol::PROTOCOL_SCHEMA_VERSION,
        }
    }

    /// Validates catalog metadata.
    pub fn validate(self) -> (r: NetworkResult<()>)
        ensures
            r == self.spec_validate(),
    {
        if self.repository.is_empty() || self.version.is_empty() || self.packet_schema.is_empty()
            || self.socket_schema.is_empty() || self.protocol_schema.is_empty() {
            return Err(NetworkError::MissingField);
        }
        if self.features & !NETWORK_KNOWN_FEATURES != 0 || self.rights & !NETWORK_KNOWN_RIGHTS
            != 0 {
            return Err(NetworkError::ReservedBits);
        }
        Ok(())
    }
}

/// Returns the current network catalog.
pub fn network_catalog() -> (r: NetworkCatalog)
    ensures
        r.spec_is_current(),
{
    NetworkCatalog::current()
}

/// The current catalog validates, and its feature bitmap carries only known
/// features.
pub proof fn lemma_current_catalog_is_valid(c: NetworkCatalog)
    requires
        c.spec_is_current(),
    ensures
        c.spec_validate() == Ok::<(), NetworkError>(()),
        c.features & NETWORK_KNOWN_FEATURES == c.features,
{
    reveal_strlit("alani-network");
    reveal_strlit("0.1.0");
    reveal_strlit("alani.network.packet.v1");
    reveal_strlit("alani.network.socket.v1");
    reveal_strlit("alani.network.protocol.v1");
    assert(0x1ffu64 & !0x1ffu64 == 0) by (bit_vector);
    assert(0x7ffu64 & !0x7ffu64 == 0) by (bit_vector);
    assert(0x1ffu64 & 0x1ffu64 == 0x1ffu64) by (bit_vector);
}

/// What `validate_redaction` answers: each data class accepts exactly the
/// redaction states listed here.
pub open spec fn redaction_allowed(data_class: DataClass, redaction: RedactionState) -> bool {
    match data_class {
        DataClass::Public => redaction is Public,
        DataClass::Operational => redaction is Operational,
        DataClass::Sensitive => redaction is SensitiveRedacted || redaction is SecretRedacted,
        DataClass::Secret => redaction is SecretRedacted,
    }
}

/// Validates redaction state for a data class.
pub fn validate_redaction(data_class: DataClass, redaction: RedactionState) -> (r: NetworkResult<()>)
    ensures
        r == if redaction_allowed(data_class, redaction) {
            Ok(())
        } else {
            Err(NetworkError::InvalidRedaction)
        },
{
    match data_class {
        DataClass::Public => {
            if matches!(redaction, RedactionState::Public) {
                Ok(())
            } else {
                Err(NetworkError::InvalidRedaction)
            }
        },
        DataClass::Operational => {
            if matches!(redaction, RedactionState::Operational) {
                Ok(())
            } else {
                Err(NetworkError::InvalidRedaction)
            }
        },
        DataClass::Sensitive => {
            if matches!(redaction, RedactionState::SensitiveRedacted | RedactionState::SecretRedacted) {
                Ok(())
            } else {
                Err(NetworkError::InvalidRedaction)
            }
        },
        DataClass::Secret => {
            if matches!(redaction, RedactionState::SecretRedacted) {
                Ok(())
            } else {
                Err(NetworkError::InvalidRedaction)
            }
        },
    }
}

/// Data that must be redacted is only ever accepted in a redacted state, and
/// never in the unredacted sensitive state.
pub proof fn lemma_redaction_fails_closed(data_class: DataClass, redaction: RedactionState)
    requires
        redaction_allowed(data_class, redaction),
    ensures
        data_class.spec_requires_redaction() ==> (redaction is SensitiveRedacted
            || redaction is SecretRedacted),
        !(redaction is UnredactedSensitive),
{
}

/// `validate_redaction` accepts exactly five pairs: public data in the
/// public state, operational data in the operational state, sensitive data
/// redacted as sensitive or as secret, and secret data redacted as secret.
/// Every other pair is refused with `InvalidRedaction`; in particular
/// operational data is never accepted in the public state.
pub proof fn lemma_redaction_accepts_exactly(
    data_class: DataClass,
    redaction: RedactionState,
    r: NetworkResult<()>,
)
    requires
        r == if redaction_allowed(data_class, redaction) {
            Ok::<(), NetworkError>(())
        } else {
            Err(NetworkError::InvalidRedaction)
        },
    ensures
        r is Ok <==> ((data_class is Public && redaction is Public) || (data_class is Operational
            && redaction is Operational) || (data_class is Sensitive && (redaction is SensitiveRedacted
            || redaction is SecretRedacted)) || (data_class is Secret && redaction is SecretRedacted)),
        r is Err ==> r == Err::<(), NetworkError>(NetworkError::InvalidRedaction),
{
}

/// A byte allowed in a network label: ASCII letters and digits and
/// `:`, `_`, `-`, `.`, `/`, `@`.
pub open spec fn label_byte_allowed(b: u8) -> bool {
    ||| (0x30 <= b && b <= 0x39)
    ||| (0x41 <= b && b <= 0x5a)
    ||| (0x61 <= b && b <= 0x7a)
    ||| b == 0x3a
    ||| b == 0x5f
    ||| b == 0x2d
    ||| b == 0x2e
    ||| b == 0x2f
    ||| b == 0x40
}

/// What `validate_network_label` answers: an empty label is missing, a label
/// longer than `max_len` bytes is too long, and every byte must be allowed.
pub open spec fn label_check(label: &str, max_len: usize) -> NetworkResult<()> {
    if label@.len() == 0 {
        Err(NetworkError::MissingField)
    } else if label.spec_bytes().len() > max_len {
        Err(NetworkError::FieldTooLong)
    } else if !(forall|i: int| 0 <= i < label.spec_bytes().len() ==> label_byte_allowed(#[trigger] label.spec_bytes()[i])) {
        Err(NetworkError::InvalidLabel)
    } else {
        Ok(())
    }
}

fn byte_allowed(b: u8) -> (r: bool)
    ensures
        r == label_byte_allowed(b),
{
    (b >= 0x30 && b <= 0x39) || (b >= 0x41 && b <= 0x5a) || (b >= 0x61 && b <= 0x7a) || b == 0x3a
        || b == 0x5f || b == 0x2d || b == 0x2e || b == 0x2f || b == 0x40
}

/// Validates a stable network label.
pub fn validate_network_label(label: &str, max_len: usize) -> (r: NetworkResult<()>)
    ensures
        r == label_check(label, max_len),
{
    if label.is_empty() {
        return Err(NetworkError::MissingField);
    }
    let bytes = label.as_bytes();
    let n = bytes.len();
    if n > max_len {
        return Err(NetworkError::FieldTooLong);
    }
    let mut i: usize = 0;
    while i < n
        invariant
            n == bytes@.len(),
            bytes@ == label.spec_bytes(),
            label@.len() != 0,
            n <= max_len,
            i <= n,
            forall|j: int| 0 <= j < i ==> label_byte_allowed(#[trigger] bytes@[j]),
        decreases n - i,
    {
        if !byte_allowed(bytes[i]) {
            assert(!label_byte_allowed(label.spec_bytes()[i as int]));
            return Err(NetworkError::InvalidLabel);
        }
        i += 1;
    }
    Ok(())
}

/// Label rules: a label is accepted exactly when it is nonempty, holds at
/// most `max_len` bytes, and every byte is an ASCII letter or digit or one of
/// `:`, `_`, `-`, `.`, `/`, `@`. An empty label is missing, and a nonempty one
/// over the bound is too long, whatever its bytes.
pub proof fn lemma_label_rules(label: &str, max_len: usize)
    ensures
        label_check(label, max_len) is Ok <==> {
            &&& label@.len() > 0
            &&& label.spec_bytes().len() <= max_len
            &&& forall|i: int|
                0 <= i < label.spec_bytes().len() ==> {
                    let b = #[trigger] label.spec_bytes()[i];
                    ||| (48 <= b && b <= 57)
                    ||| (65 <= b && b <= 90)
                    ||| (97 <= b && b <= 122)
                    ||| b == 58 || b == 95 || b == 45 || b == 46 || b == 47 || b == 64
                }
        },
        label@.len() == 0 ==> label_check(label, max_len) == Err::<(), NetworkError>(
            NetworkError::MissingField,
        ),
        label@.len() > 0 && label.spec_bytes().len() > max_len ==> label_check(label, max_len)
            == Err::<(), NetworkError>(NetworkError::FieldTooLong),
        label_check(label, max_len) is Err ==> label_check(label, max_len) == Err::<(), NetworkError>(
            NetworkError::MissingField,
        ) || label_check(label, max_len) == Err::<(), NetworkError>(NetworkError::FieldTooLong)
            || label_check(label, max_len) == Err::<(), NetworkError>(NetworkError::InvalidLabel),
{
}

/// Two strings hold the same bytes, which is what `==` on `str` compares.
pub open spec fn same_text(a: &str, b: &str) -> bool {
    a.spec_bytes() == b.spec_bytes()
}

/// Compares two strings byte by byte.
pub(crate) fn text_eq(a: &str, b: &str) -> (r: bool)
    ensures
        r == same_text(a, b),
{
    let x = a.as_bytes();
    let y = b.as_bytes();
    if x.len() != y.len() {
        return false;
    }
    let n = x.len();
    let mut i: usize = 0;
    while i < n
        invariant
            n == x@.len(),
            x@.len() == y@.len(),
            x@ == a.spec_bytes(),
            y@ == b.spec_bytes(),
            i <= n,
            forall|j: int| 0 <= j < i ==> x@[j] == y@[j],
        decreases n - i,
    {
        if x[i] != y[i] {
            return false;
        }
        i += 1;
    }
    assert(x@ =~= y@);
    true
}

} // verus!

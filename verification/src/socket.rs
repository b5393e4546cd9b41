//! Socket handles, endpoints, options, and operation envelopes.
//!
//! Socket requests are capability checked and trace-aware. Transport state is
//! explicit so runtime and kernel callers can validate trust-boundary metadata
//! before any packet or device operation occurs.

use crate::packet::{NetworkAddress, PacketBuffer};
use crate::protocol::TransportProtocol;
use crate::slots::{set_slot, slot_mut, vacant_array, 
    count_some, first_index, first_index_from, lemma_count_some_bounds, lemma_count_some_update,
    lemma_count_some_vacant, lemma_first_index, lemma_first_index_at, lemma_first_index_exists,
    vacant,
};
use crate::{
    bits_contain, empty_trace, flag_bits_contain, sat_add, label_check, same_text, text_eq,
    validate_network_label, NetworkError, NetworkResult, NetworkRights, TraceContext,
    NETWORK_RIGHT_AUDIT, NETWORK_RIGHT_BIND, NETWORK_RIGHT_CONFIGURE, NETWORK_RIGHT_CONNECT,
    NETWORK_RIGHT_LISTEN, NETWORK_RIGHT_RAW_PACKET, NETWORK_RIGHT_READ, NETWORK_RIGHT_RECEIVE,
    NETWORK_RIGHT_SEND,
};
use vstd::prelude::*;

verus! {

/// Socket schema version owned by this crate.
pub const SOCKET_SCHEMA_VERSION: &'static str = "alani.network.socket.v1";

/// Invalid socket identifier.
pub const INVALID_SOCKET_ID: u64 = 0;

/// Maximum socket owner/principal label length.
pub const MAX_SOCKET_OWNER_LEN: usize = 128;

/// Maximum receive or send buffer length in socket options.
pub const MAX_SOCKET_BUFFER_LEN: usize = 65536;

/// Maximum listen backlog in socket options.
pub const MAX_SOCKET_BACKLOG: u16 = 1024;

/// Nonblocking socket flag.
pub const SOCKET_FLAG_NONBLOCK: u32 = 0x1;
/// Socket is listening for inbound connections.
pub const SOCKET_FLAG_LISTEN: u32 = 0x2;
/// Socket must only use loopback endpoints.
pub const SOCKET_FLAG_LOOPBACK_ONLY: u32 = 0x4;
/// Socket operations must emit audit evidence.
pub const SOCKET_FLAG_AUDIT_REQUIRED: u32 = 0x8;
/// Socket transport is encrypted by caller or future adapter.
pub const SOCKET_FLAG_ENCRYPTED: u32 = 0x10;
/// Socket is privileged and should be policy gated.
pub const SOCKET_FLAG_PRIVILEGED: u32 = 0x20;

/// Socket flags known by this crate version (the union of the flags above).
pub const SOCKET_KNOWN_FLAGS: u32 = 0x3f;

/// Module boundary descriptor.
#[derive(Debug, Eq, PartialEq)]
pub struct SocketDescriptor<'a> {
    /// Human-readable descriptor name.
    pub name: &'a str,
    /// Descriptor version.
    pub version: u32,
}

impl<'a> Clone for SocketDescriptor<'a> {
    /// Copies the descriptor: same name and version.
    fn clone(&self) -> (r: Self)
        ensures
            r == *self,
    {
        SocketDescriptor { name: self.name, version: self.version }
    }
}

impl<'a> SocketDescriptor<'a> {
    /// Creates a socket descriptor.
    pub fn new(name: &'a str, version: u32) -> (r: Self)
        ensures
            r.name == name,
            r.version == version,
    {
        SocketDescriptor { name, version }
    }
}

/// Stable socket identifier.
#[derive(Clone, Copy, Debug, Default, Eq, PartialEq, Structural)]
pub struct SocketId(pub u64);

impl SocketId {
    /// The invalid socket identifier.
    pub fn invalid() -> (r: Self)
        ensures
            r == SocketId(INVALID_SOCKET_ID),
    {
        SocketId(INVALID_SOCKET_ID)
    }

    /// Creates a socket identifier.
    pub fn new(value: u64) -> (r: NetworkResult<Self>)
        ensures
            r == if value == INVALID_SOCKET_ID {
                Err(NetworkError::InvalidSocket)
            } else {
                Ok(SocketId(value))
            },
    {
        if value == INVALID_SOCKET_ID {
            Err(NetworkError::InvalidSocket)
        } else {
            Ok(SocketId(value))
        }
    }

    /// Returns the raw identifier value.
    pub fn get(self) -> (r: u64)
        ensures
            r == self.0,
    {
        self.0
    }

    /// Validates the identifier.
    pub fn validate(self) -> (r: NetworkResult<()>)
        ensures
            r == if self.0 == INVALID_SOCKET_ID {
                Err(NetworkError::InvalidSocket)
            } else {
                Ok(())
            },
    {
        if self.0 == INVALID_SOCKET_ID {
            Err(NetworkError::InvalidSocket)
        } else {
            Ok(())
        }
    }
}

/// Socket type.
#[derive(Clone, Copy, Debug, Eq, PartialEq, Structural)]
pub enum SocketType {
    /// Datagram socket.
    Datagram,
    /// Stream socket.
    Stream,
    /// Raw packet socket.
    Raw,
    /// Control-plane socket.
    Control,
}

impl SocketType {
    /// The transports each socket type carries: datagram sockets carry
    /// loopback, UDP and ICMP; stream sockets TCP; raw sockets raw packets;
    /// control sockets the control protocol.
    pub open spec fn spec_supports(self, protocol: TransportProtocol) -> bool {
        match self {
            SocketType::Datagram => protocol is Loopback || protocol is Udp || protocol is Icmp,
            SocketType::Stream => protocol is Tcp,
            SocketType::Raw => protocol is Raw,
            SocketType::Control => protocol is Control,
        }
    }

    /// Stable socket type label.
    pub fn label(self) -> (r: &'static str)
        ensures
            r@ == match self {
                SocketType::Datagram => "datagram"@,
                SocketType::Stream => "stream"@,
                SocketType::Raw => "raw"@,
                SocketType::Control => "control"@,
            },
    {
        match self {
            SocketType::Datagram => "datagram",
            SocketType::Stream => "stream",
            SocketType::Raw => "raw",
            SocketType::Control => "control",
        }
    }

    /// Returns `true` when this socket type can carry the protocol.
    pub fn supports(self, protocol: TransportProtocol) -> (r: bool)
        ensures
            r == self.spec_supports(protocol),
    {
        match self {
            SocketType::Datagram => matches!(
                protocol,
                TransportProtocol::Loopback | TransportProtocol::Udp | TransportProtocol::Icmp
            ),
            SocketType::Stream => matches!(protocol, TransportProtocol::Tcp),
            SocketType::Raw => matches!(protocol, TransportProtocol::Raw),
            SocketType::Control => matches!(protocol, TransportProtocol::Control),
        }
    }
}

/// Socket lifecycle state.
#[derive(Clone, Copy, Debug, Eq, PartialEq, Structural)]
pub enum SocketState {
    /// Socket has been created but not bound.
    Created,
    /// Socket has a local endpoint.
    Bound,
    /// Socket is listening for inbound peers.
    Listening,
    /// Socket has a peer endpoint.
    Connected,
    /// Socket is closing.
    Closing,
    /// Socket is closed.
    Closed,
    /// Socket faulted.
    Faulted,
}

impl SocketState {
    /// States in which send and receive are allowed.
    pub open spec fn spec_allows_io(self) -> bool {
        self is Bound || self is Listening || self is Connected
    }

    /// States of a socket that still holds its endpoint.
    pub open spec fn spec_is_active(self) -> bool {
        !(self is Closed || self is Faulted)
    }

    /// Stable state label.
    pub fn label(self) -> (r: &'static str)
        ensures
            r@ == match self {
                SocketState::Created => "created"@,
                SocketState::Bound => "bound"@,
                SocketState::Listening => "listening"@,
                SocketState::Connected => "connected"@,
                SocketState::Closing => "closing"@,
                SocketState::Closed => "closed"@,
                SocketState::Faulted => "faulted"@,
            },
    {
        match self {
            SocketState::Created => "created",
            SocketState::Bound => "bound",
            SocketState::Listening => "listening",
            SocketState::Connected => "connected",
            SocketState::Closing => "closing",
            SocketState::Closed => "closed",
            SocketState::Faulted => "faulted",
        }
    }

    /// Returns `true` when bind is allowed.
    pub fn allows_bind(self) -> (r: bool)
        ensures
            r == self is Created,
    {
        matches!(self, SocketState::Created)
    }

    /// Returns `true` when listen is allowed.
    pub fn allows_listen(self) -> (r: bool)
        ensures
            r == self is Bound,
    {
        matches!(self, SocketState::Bound)
    }

    /// Returns `true` when connect is allowed.
    pub fn allows_connect(self) -> (r: bool)
        ensures
            r == self is Bound,
    {
        matches!(self, SocketState::Bound)
    }

    /// Returns `true` when send or receive is allowed.
    pub fn allows_io(self) -> (r: bool)
        ensures
            r == self.spec_allows_io(),
    {
        matches!(self, SocketState::Bound | SocketState::Listening | SocketState::Connected)
    }
}

/// Socket flag bitset.
#[derive(Clone, Copy, Debug, Default, Eq, PartialEq)]
pub struct SocketFlags(pub u32);

impl SocketFlags {
    /// No flags.
    pub fn empty() -> (r: Self)
        ensures
            r == SocketFlags(0),
    {
        SocketFlags(0)
    }

    /// Nonblocking operation.
    pub fn nonblock() -> (r: Self)
        ensures
            r == SocketFlags(SOCKET_FLAG_NONBLOCK),
    {
        SocketFlags(SOCKET_FLAG_NONBLOCK)
    }

    /// Listening state flag.
    pub fn listen() -> (r: Self)
        ensures
            r == SocketFlags(SOCKET_FLAG_LISTEN),
    {
        SocketFlags(SOCKET_FLAG_LISTEN)
    }

    /// Loopback-only socket.
    pub fn loopback_only() -> (r: Self)
        ensures
            r == SocketFlags(SOCKET_FLAG_LOOPBACK_ONLY),
    {
        SocketFlags(SOCKET_FLAG_LOOPBACK_ONLY)
    }

    /// Audit evidence required.
    pub fn audit_required() -> (r: Self)
        ensures
            r == SocketFlags(SOCKET_FLAG_AUDIT_REQUIRED),
    {
        SocketFlags(SOCKET_FLAG_AUDIT_REQUIRED)
    }

    /// Encrypted transport metadata.
    pub fn encrypted() -> (r: Self)
        ensures
            r == SocketFlags(SOCKET_FLAG_ENCRYPTED),
    {
        SocketFlags(SOCKET_FLAG_ENCRYPTED)
    }

    /// Privileged socket metadata.
    pub fn privileged() -> (r: Self)
        ensures
            r == SocketFlags(SOCKET_FLAG_PRIVILEGED),
    {
        SocketFlags(SOCKET_FLAG_PRIVILEGED)
    }

    /// The flags carry no bit unknown to this crate version.
    pub open spec fn spec_is_known(self) -> bool {
        self.0 & !SOCKET_KNOWN_FLAGS == 0
    }

    /// Creates socket flags from raw bits.
    pub fn from_bits(bits: u32) -> (r: NetworkResult<Self>)
        ensures
            r == if bits & !SOCKET_KNOWN_FLAGS != 0 {
                Err(NetworkError::ReservedBits)
            } else {
                Ok(SocketFlags(bits))
            },
    {
        if bits & !SOCKET_KNOWN_FLAGS != 0 {
            Err(NetworkError::ReservedBits)
        } else {
            Ok(SocketFlags(bits))
        }
    }

    /// Returns raw flag bits.
    pub fn bits(self) -> (r: u32)
        ensures
            r == self.0,
    {
        self.0
    }

    /// Returns `true` if all requested flags are set.
    pub fn contains(self, required: Self) -> (r: bool)
        ensures
            r == flag_bits_contain(self.0, required.0),
    {
        self.0 & required.0 == required.0
    }

    /// Combines two flag sets.
    pub fn union(self, other: Self) -> (r: Self)
        ensures
            r == SocketFlags(self.0 | other.0),
    {
        SocketFlags(self.0 | other.0)
    }

    /// Validates reserved bits.
    pub fn validate(self) -> (r: NetworkResult<()>)
        ensures
            r == if self.spec_is_known() {
                Ok(())
            } else {
                Err(NetworkError::ReservedBits)
            },
    {
        if self.0 & !SOCKET_KNOWN_FLAGS != 0 {
            Err(NetworkError::ReservedBits)
        } else {
            Ok(())
        }
    }
}

/// The union of two socket flag sets carries both, and the union of two known
/// sets is known.
pub proof fn lemma_socket_flags_union(a: SocketFlags, b: SocketFlags)
    ensures
        flag_bits_contain(a.0 | b.0, a.0),
        flag_bits_contain(a.0 | b.0, b.0),
        a.spec_is_known() && b.spec_is_known() ==> SocketFlags(a.0 | b.0).spec_is_known(),
{
    let x = a.0;
    let y = b.0;
    assert((x | y) & x == x) by (bit_vector);
    assert((x | y) & y == y) by (bit_vector);
    assert(x & !0x3fu32 == 0 && y & !0x3fu32 == 0 ==> (x | y) & !0x3fu32 == 0) by (bit_vector);
}

/// Socket endpoint binding.
#[derive(Clone, Copy, Debug, Eq, PartialEq)]
pub struct SocketEndpoint<'a> {
    /// Endpoint address.
    pub address: NetworkAddress<'a>,
    /// Transport protocol.
    pub protocol: TransportProtocol,
}

/// Two endpoints are equal: same address kind, label bytes, port and
/// transport (what `==` compares).
pub open spec fn same_endpoint(a: SocketEndpoint, b: SocketEndpoint) -> bool {
    &&& a.address.kind == b.address.kind
    &&& same_text(a.address.label, b.address.label)
    &&& a.address.port == b.address.port
    &&& a.protocol == b.protocol
}

fn endpoint_eq(a: SocketEndpoint, b: SocketEndpoint) -> (r: bool)
    ensures
        r == same_endpoint(a, b),
{
    a.address.kind == b.address.kind && text_eq(a.address.label, b.address.label)
        && a.address.port == b.address.port && a.protocol == b.protocol
}

impl<'a> SocketEndpoint<'a> {
    /// What `validate` answers: the address first, then a loopback or control
    /// transport on a non-loopback address.
    pub open spec fn spec_validate(self) -> NetworkResult<()> {
        if self.address.spec_validate() is Err {
            self.address.spec_validate()
        } else if (self.protocol is Loopback || self.protocol is Control)
            && !(self.address.kind is Loopback) {
            Err(NetworkError::LoopbackOnly)
        } else {
            Ok(())
        }
    }

    /// Creates a socket endpoint.
    pub fn new(address: NetworkAddress<'a>, protocol: TransportProtocol) -> (r: Self)
        ensures
            r == (SocketEndpoint { address, protocol }),
    {
        SocketEndpoint { address, protocol }
    }

    /// Creates a loopback endpoint.
    pub fn loopback(port: u16) -> (r: Self)
        ensures
            r.address.kind == crate::packet::AddressKind::Loopback,
            r.address.label@ == "loopback"@,
            r.address.port == port,
            r.protocol == TransportProtocol::Loopback,
    {
        SocketEndpoint { address: NetworkAddress::loopback(port), protocol: TransportProtocol::Loopback }
    }

    /// Returns `true` when this endpoint is loopback.
    pub fn is_loopback(self) -> (r: bool)
        ensures
            r == self.address.kind is Loopback,
    {
        self.address.is_loopback()
    }

    /// Validates endpoint metadata.
    pub fn validate(self) -> (r: NetworkResult<()>)
        ensures
            r == self.spec_validate(),
    {
        self.address.validate()?;
        if matches!(self.protocol, TransportProtocol::Loopback | TransportProtocol::Control)
            && !self.address.is_loopback() {
            return Err(NetworkError::LoopbackOnly);
        }
        Ok(())
    }
}

/// Socket buffer and transport options.
#[derive(Clone, Copy, Debug, Eq, PartialEq)]
pub struct SocketOptions {
    /// Receive buffer capacity.
    pub recv_capacity: usize,
    /// Send buffer capacity.
    pub send_capacity: usize,
    /// Time to live or hop limit.
    pub ttl: u8,
    /// Listen backlog.
    pub backlog: u16,
}

/// The conservative default socket options.
pub open spec fn default_socket_options() -> SocketOptions {
    SocketOptions { recv_capacity: 4096, send_capacity: 4096, ttl: 64, backlog: 0 }
}

impl SocketOptions {
    /// What `validate` answers: buffer capacities must lie in
    /// `1..=MAX_SOCKET_BUFFER_LEN`, the TTL must be nonzero and the backlog at
    /// most `MAX_SOCKET_BACKLOG`.
    pub open spec fn spec_validate(self) -> NetworkResult<()> {
        if self.recv_capacity == 0 || self.send_capacity == 0 || self.recv_capacity
            > MAX_SOCKET_BUFFER_LEN || self.send_capacity > MAX_SOCKET_BUFFER_LEN {
            Err(NetworkError::InvalidSocket)
        } else if self.ttl == 0 || self.backlog > MAX_SOCKET_BACKLOG {
            Err(NetworkError::InvalidSocket)
        } else {
            Ok(())
        }
    }

    /// Creates socket options.
    pub fn new(recv_capacity: usize, send_capacity: usize) -> (r: Self)
        ensures
            r == (SocketOptions { recv_capacity, send_capacity, ttl: 64, backlog: 0 }),
    {
        SocketOptions { recv_capacity, send_capacity, ttl: 64, backlog: 0 }
    }

    /// Sets TTL or hop limit.
    pub fn with_ttl(self, ttl: u8) -> (r: Self)
        ensures
            r == (SocketOptions { ttl, ..self }),
    {
        let mut o = self;
        o.ttl = ttl;
        o
    }

    /// Sets listen backlog.
    pub fn with_backlog(self, backlog: u16) -> (r: Self)
        ensures
            r == (SocketOptions { backlog, ..self }),
    {
        let mut o = self;
        o.backlog = backlog;
        o
    }

    /// Validates socket option metadata.
    pub fn validate(self) -> (r: NetworkResult<()>)
        ensures
            r == self.spec_validate(),
    {
        if self.recv_capacity == 0 || self.send_capacity == 0 || self.recv_capacity
            > MAX_SOCKET_BUFFER_LEN || self.send_capacity > MAX_SOCKET_BUFFER_LEN {
            return Err(NetworkError::InvalidSocket);
        }
        if self.ttl == 0 || self.backlog > MAX_SOCKET_BACKLOG {
            return Err(NetworkError::InvalidSocket);
        }
        Ok(())
    }
}

impl Default for SocketOptions {
    fn default() -> (r: Self)
        ensures
            r == default_socket_options(),
    {
        SocketOptions { recv_capacity: 4096, send_capacity: 4096, ttl: 64, backlog: 0 }
    }
}

/// Socket handle returned by a future kernel/runtime allocator.
#[derive(Clone, Copy, Debug, Eq, PartialEq)]
pub struct SocketHandle<'a> {
    /// Socket identifier.
    pub id: SocketId,
    /// Owning principal or service label.
    pub owner: &'a str,
    /// Socket type.
    pub socket_type: SocketType,
    /// Lifecycle state.
    pub state: SocketState,
    /// Local endpoint when bound.
    pub endpoint: Option<SocketEndpoint<'a>>,
    /// Peer endpoint when connected.
    pub peer: Option<SocketEndpoint<'a>>,
    /// Socket flags.
    pub flags: SocketFlags,
    /// Rights granted to the handle.
    pub rights: NetworkRights,
    /// Socket options.
    pub options: SocketOptions,
    /// Trace context.
    pub trace: TraceContext,
}

/// An optional endpoint is absent or lies on a loopback address.
pub open spec fn loopback_or_absent(e: Option<SocketEndpoint>) -> bool {
    e matches Some(x) ==> x.address.kind is Loopback
}

impl<'a> SocketHandle<'a> {
    /// The handle asks to stay on loopback endpoints.
    pub open spec fn spec_is_loopback_only(self) -> bool {
        flag_bits_contain(self.flags.0, SOCKET_FLAG_LOOPBACK_ONLY)
    }

    /// What `validate` answers, checks in this order: identifier, owner,
    /// flags, rights, options, trace, the local endpoint and its transport,
    /// the peer and its transport, a bound or listening socket without an
    /// endpoint, a connected socket without both endpoints, and loopback-only
    /// sockets with a non-loopback endpoint or peer.
    pub open spec fn spec_validate(self) -> NetworkResult<()> {
        if self.id.0 == INVALID_SOCKET_ID {
            Err(NetworkError::InvalidSocket)
        } else if label_check(self.owner, MAX_SOCKET_OWNER_LEN) is Err {
            label_check(self.owner, MAX_SOCKET_OWNER_LEN)
        } else if !self.flags.spec_is_known() {
            Err(NetworkError::ReservedBits)
        } else if !self.rights.spec_is_known() {
            Err(NetworkError::ReservedBits)
        } else if self.options.spec_validate() is Err {
            self.options.spec_validate()
        } else if self.trace.spec_validate() is Err {
            self.trace.spec_validate()
        } else if self.endpoint is Some && self.endpoint.unwrap().spec_validate() is Err {
            self.endpoint.unwrap().spec_validate()
        } else if self.endpoint is Some && !self.socket_type.spec_supports(
            self.endpoint.unwrap().protocol,
        ) {
            Err(NetworkError::InvalidSocket)
        } else if self.peer is Some && self.peer.unwrap().spec_validate() is Err {
            self.peer.unwrap().spec_validate()
        } else if self.peer is Some && !self.socket_type.spec_supports(self.peer.unwrap().protocol) {
            Err(NetworkError::InvalidSocket)
        } else if (self.state is Bound || self.state is Listening) && self.endpoint is None {
            Err(NetworkError::InvalidSocket)
        } else if self.state is Connected && (self.endpoint is None || self.peer is None) {
            Err(NetworkError::InvalidSocket)
        } else if self.spec_is_loopback_only() && !loopback_or_absent(self.endpoint) {
            Err(NetworkError::LoopbackOnly)
        } else if self.spec_is_loopback_only() && !loopback_or_absent(self.peer) {
            Err(NetworkError::LoopbackOnly)
        } else {
            Ok(())
        }
    }

    /// What `bind` answers: the handle must validate, be freshly created and
    /// hold the bind right, and the endpoint must validate, respect a
    /// loopback-only socket and suit the socket type.
    pub open spec fn spec_bind(self, endpoint: SocketEndpoint) -> NetworkResult<()> {
        if self.spec_validate() is Err {
            self.spec_validate()
        } else if !(self.state is Created) {
            Err(NetworkError::InvalidSocket)
        } else if self.rights.spec_require(NetworkRights(NETWORK_RIGHT_BIND)) is Err {
            self.rights.spec_require(NetworkRights(NETWORK_RIGHT_BIND))
        } else if endpoint.spec_validate() is Err {
            endpoint.spec_validate()
        } else if self.spec_is_loopback_only() && !(endpoint.address.kind is Loopback) {
            Err(NetworkError::LoopbackOnly)
        } else if !self.socket_type.spec_supports(endpoint.protocol) {
            Err(NetworkError::InvalidSocket)
        } else {
            Ok(())
        }
    }

    /// What `listen` answers: the handle must validate, be bound and hold the
    /// listen right, and the backlog must lie in `1..=MAX_SOCKET_BACKLOG`.
    pub open spec fn spec_listen(self, backlog: u16) -> NetworkResult<()> {
        if self.spec_validate() is Err {
            self.spec_validate()
        } else if !(self.state is Bound) {
            Err(NetworkError::InvalidSocket)
        } else if self.rights.spec_require(NetworkRights(NETWORK_RIGHT_LISTEN)) is Err {
            self.rights.spec_require(NetworkRights(NETWORK_RIGHT_LISTEN))
        } else if backlog == 0 || backlog > MAX_SOCKET_BACKLOG {
            Err(NetworkError::InvalidSocket)
        } else {
            Ok(())
        }
    }

    /// What `connect` answers: the handle must validate, be bound and hold
    /// the connect right, and the peer must validate, respect a loopback-only
    /// socket and suit the socket type.
    pub open spec fn spec_connect(self, peer: SocketEndpoint) -> NetworkResult<()> {
        if self.spec_validate() is Err {
            self.spec_validate()
        } else if !(self.state is Bound) {
            Err(NetworkError::InvalidSocket)
        } else if self.rights.spec_require(NetworkRights(NETWORK_RIGHT_CONNECT)) is Err {
            self.rights.spec_require(NetworkRights(NETWORK_RIGHT_CONNECT))
        } else if peer.spec_validate() is Err {
            peer.spec_validate()
        } else if self.spec_is_loopback_only() && !(peer.address.kind is Loopback) {
            Err(NetworkError::LoopbackOnly)
        } else if !self.socket_type.spec_supports(peer.protocol) {
            Err(NetworkError::InvalidSocket)
        } else {
            Ok(())
        }
    }

    /// Creates a socket handle.
    pub fn new(id: SocketId, owner: &'a str, socket_type: SocketType, rights: NetworkRights) -> (r:
        Self)
        ensures
            r == (SocketHandle {
                id,
                owner,
                socket_type,
                state: SocketState::Created,
                endpoint: None,
                peer: None,
                flags: SocketFlags(0),
                rights,
                options: default_socket_options(),
                trace: empty_trace(),
            }),
    {
        SocketHandle {
            id,
            owner,
            socket_type,
            state: SocketState::Created,
            endpoint: None,
            peer: None,
            flags: SocketFlags(0),
            rights,
            options: SocketOptions { recv_capacity: 4096, send_capacity: 4096, ttl: 64, backlog: 0 },
            trace: TraceContext { trace_id: 0, span_id: 0, parent_span_id: 0, flags: 0 },
        }
    }

    /// Sets socket flags.
    pub fn with_flags(self, flags: SocketFlags) -> (r: Self)
        ensures
            r == (SocketHandle { flags, ..self }),
    {
        let mut h = self;
        h.flags = flags;
        h
    }

    /// Sets socket options.
    pub fn with_options(self, options: SocketOptions) -> (r: Self)
        ensures
            r == (SocketHandle { options, ..self }),
    {
        let mut h = self;
        h.options = options;
        h
    }

    /// Sets trace context.
    pub fn with_trace(self, trace: TraceContext) -> (r: Self)
        ensures
            r == (SocketHandle { trace, ..self }),
    {
        let mut h = self;
        h.trace = trace;
        h
    }

    /// Returns `true` when the socket can perform I/O.
    pub fn is_open(self) -> (r: bool)
        ensures
            r == self.state.spec_allows_io(),
    {
        self.state.allows_io()
    }

    /// Binds a local endpoint. A refusal changes nothing; success records the
    /// endpoint and moves the socket to `Bound`.
    pub fn bind(&mut self, endpoint: SocketEndpoint<'a>) -> (r: NetworkResult<()>)
        ensures
            r == old(self).spec_bind(endpoint),
            r is Ok ==> *final(self) == (SocketHandle {
                endpoint: Some(endpoint),
                state: SocketState::Bound,
                ..*old(self)
            }),
            r is Err ==> *final(self) == *old(self),
    {
        self.validate()?;
        if !self.state.allows_bind() {
            return Err(NetworkError::InvalidSocket);
        }
        self.rights.require(NetworkRights(NETWORK_RIGHT_BIND))?;
        endpoint.validate()?;
        if self.flags.contains(SocketFlags(SOCKET_FLAG_LOOPBACK_ONLY)) && !endpoint.is_loopback() {
            return Err(NetworkError::LoopbackOnly);
        }
        if !self.socket_type.supports(endpoint.protocol) {
            return Err(NetworkError::InvalidSocket);
        }
        self.endpoint = Some(endpoint);
        self.state = SocketState::Bound;
        Ok(())
    }

    /// Marks a bound socket as listening. A refusal changes nothing; success
    /// records the backlog, sets the listen flag and moves the socket to
    /// `Listening`.
    pub fn listen(&mut self, backlog: u16) -> (r: NetworkResult<()>)
        ensures
            r == old(self).spec_listen(backlog),
            r is Ok ==> *final(self) == (SocketHandle {
                options: SocketOptions { backlog, ..old(self).options },
                flags: SocketFlags(old(self).flags.0 | SOCKET_FLAG_LISTEN),
                state: SocketState::Listening,
                ..*old(self)
            }),
            r is Err ==> *final(self) == *old(self),
    {
        self.validate()?;
        if !self.state.allows_listen() {
            return Err(NetworkError::InvalidSocket);
        }
        self.rights.require(NetworkRights(NETWORK_RIGHT_LISTEN))?;
        if backlog == 0 || backlog > MAX_SOCKET_BACKLOG {
            return Err(NetworkError::InvalidSocket);
        }
        self.options.backlog = backlog;
        self.flags = self.flags.union(SocketFlags(SOCKET_FLAG_LISTEN));
        self.state = SocketState::Listening;
        Ok(())
    }

    /// Connects a bound socket to a peer endpoint. A refusal changes nothing;
    /// success records the peer and moves the socket to `Connected`.
    pub fn connect(&mut self, peer: SocketEndpoint<'a>) -> (r: NetworkResult<()>)
        ensures
            r == old(self).spec_connect(peer),
            r is Ok ==> *final(self) == (SocketHandle {
                peer: Some(peer),
                state: SocketState::Connected,
                ..*old(self)
            }),
            r is Err ==> *final(self) == *old(self),
    {
        self.validate()?;
        if !self.state.allows_connect() {
            return Err(NetworkError::InvalidSocket);
        }
        self.rights.require(NetworkRights(NETWORK_RIGHT_CONNECT))?;
        peer.validate()?;
        if self.flags.contains(SocketFlags(SOCKET_FLAG_LOOPBACK_ONLY)) && !peer.is_loopback() {
            return Err(NetworkError::LoopbackOnly);
        }
        if !self.socket_type.supports(peer.protocol) {
            return Err(NetworkError::InvalidSocket);
        }
        self.peer = Some(peer);
        self.state = SocketState::Connected;
        Ok(())
    }

    /// Closes the socket; closing a closed socket answers `SocketClosed` and
    /// changes nothing.
    pub fn close(&mut self) -> (r: NetworkResult<()>)
        ensures
            old(self).state is Closed ==> r == Err::<(), NetworkError>(NetworkError::SocketClosed)
                && *final(self) == *old(self),
            !(old(self).state is Closed) ==> r == Ok::<(), NetworkError>(()) && *final(self) == (
            SocketHandle { state: SocketState::Closed, ..*old(self) }),
    {
        if matches!(self.state, SocketState::Closed) {
            return Err(NetworkError::SocketClosed);
        }
        self.state = SocketState::Closed;
        Ok(())
    }

    /// Validates socket handle metadata.
    pub fn validate(self) -> (r: NetworkResult<()>)
        ensures
            r == self.spec_validate(),
    {
        self.id.validate()?;
        validate_network_label(self.owner, MAX_SOCKET_OWNER_LEN)?;
        self.flags.validate()?;
        self.rights.validate()?;
        self.options.validate()?;
        self.trace.validate()?;
        if let Some(endpoint) = self.endpoint {
            endpoint.validate()?;
            if !self.socket_type.supports(endpoint.protocol) {
                return Err(NetworkError::InvalidSocket);
            }
        }
        if let Some(peer) = self.peer {
            peer.validate()?;
            if !self.socket_type.supports(peer.protocol) {
                return Err(NetworkError::InvalidSocket);
            }
        }
        if matches!(self.state, SocketState::Bound | SocketState::Listening)
            && self.endpoint.is_none() {
            return Err(NetworkError::InvalidSocket);
        }
        if matches!(self.state, SocketState::Connected) && (self.endpoint.is_none()
            || self.peer.is_none()) {
            return Err(NetworkError::InvalidSocket);
        }
        if self.flags.contains(SocketFlags(SOCKET_FLAG_LOOPBACK_ONLY)) {
            if let Some(endpoint) = self.endpoint {
                if !endpoint.is_loopback() {
                    return Err(NetworkError::LoopbackOnly);
                }
            }
            if let Some(peer) = self.peer {
                if !peer.is_loopback() {
                    return Err(NetworkError::LoopbackOnly);
                }
            }
        }
        Ok(())
    }
}

/// The socket lifecycle: a successful bind leaves a valid bound socket, a
/// successful listen a valid listening socket, and a successful connect a
/// valid connected socket.
pub proof fn lemma_lifecycle_keeps_sockets_valid(h: SocketHandle, e: SocketEndpoint, backlog: u16)
    ensures
        h.spec_bind(e) is Ok ==> (SocketHandle {
            endpoint: Some(e),
            state: SocketState::Bound,
            ..h
        }).spec_validate() is Ok,
        h.spec_connect(e) is Ok ==> (SocketHandle {
            peer: Some(e),
            state: SocketState::Connected,
            ..h
        }).spec_validate() is Ok,
        h.spec_listen(backlog) is Ok ==> (SocketHandle {
            options: SocketOptions { backlog, ..h.options },
            flags: SocketFlags(h.flags.0 | SOCKET_FLAG_LISTEN),
            state: SocketState::Listening,
            ..h
        }).spec_validate() is Ok,
{
    if h.spec_listen(backlog) is Ok {
        let f = h.flags.0;
        assert(f & !0x3fu32 == 0 ==> (f | 0x2u32) & !0x3fu32 == 0) by (bit_vector);
        assert(((f | 0x2u32) & 0x4u32 == 0x4u32) == (f & 0x4u32 == 0x4u32)) by (bit_vector);
    }
}

/// Socket operation envelope kind.
#[derive(Clone, Copy, Debug, Eq, PartialEq, Structural)]
pub enum SocketOperation {
    /// Create a socket.
    Create,
    /// Bind a local endpoint.
    Bind,
    /// Listen for inbound peers.
    Listen,
    /// Accept a peer.
    Accept,
    /// Connect to a peer.
    Connect,
    /// Send a packet.
    Send,
    /// Receive a packet.
    Receive,
    /// Close the socket.
    Close,
    /// Shut down part of the transport.
    Shutdown,
    /// Configure socket options.
    Configure,
    /// Use raw packet transport.
    RawPacket,
}

impl SocketOperation {
    /// The right each operation requires.
    pub open spec fn spec_required_rights(self) -> NetworkRights {
        match self {
            SocketOperation::Create => NetworkRights(NETWORK_RIGHT_READ),
            SocketOperation::Bind => NetworkRights(NETWORK_RIGHT_BIND),
            SocketOperation::Listen => NetworkRights(NETWORK_RIGHT_LISTEN),
            SocketOperation::Accept => NetworkRights(NETWORK_RIGHT_RECEIVE),
            SocketOperation::Connect => NetworkRights(NETWORK_RIGHT_CONNECT),
            SocketOperation::Send => NetworkRights(NETWORK_RIGHT_SEND),
            SocketOperation::Receive => NetworkRights(NETWORK_RIGHT_RECEIVE),
            SocketOperation::Close => NetworkRights(NETWORK_RIGHT_READ),
            SocketOperation::Shutdown => NetworkRights(NETWORK_RIGHT_CONNECT),
            SocketOperation::Configure => NetworkRights(NETWORK_RIGHT_CONFIGURE),
            SocketOperation::RawPacket => NetworkRights(NETWORK_RIGHT_RAW_PACKET),
        }
    }

    /// Operations that normally emit audit evidence.
    pub open spec fn spec_is_audit_relevant(self) -> bool {
        ||| self is Bind
        ||| self is Listen
        ||| self is Accept
        ||| self is Connect
        ||| self is Configure
        ||| self is RawPacket
    }

    /// Stable operation label.
    pub fn label(self) -> (r: &'static str)
        ensures
            r@ == match self {
                SocketOperation::Create => "create"@,
                SocketOperation::Bind => "bind"@,
                SocketOperation::Listen => "listen"@,
                SocketOperation::Accept => "accept"@,
                SocketOperation::Connect => "connect"@,
                SocketOperation::Send => "send"@,
                SocketOperation::Receive => "receive"@,
                SocketOperation::Close => "close"@,
                SocketOperation::Shutdown => "shutdown"@,
                SocketOperation::Configure => "configure"@,
                SocketOperation::RawPacket => "raw_packet"@,
            },
    {
        match self {
            SocketOperation::Create => "create",
            SocketOperation::Bind => "bind",
            SocketOperation::Listen => "listen",
            SocketOperation::Accept => "accept",
            SocketOperation::Connect => "connect",
            SocketOperation::Send => "send",
            SocketOperation::Receive => "receive",
            SocketOperation::Close => "close",
            SocketOperation::Shutdown => "shutdown",
            SocketOperation::Configure => "configure",
            SocketOperation::RawPacket => "raw_packet",
        }
    }

    /// Required rights for this operation.
    pub fn required_rights(self) -> (r: NetworkRights)
        ensures
            r == self.spec_required_rights(),
    {
        match self {
            SocketOperation::Create => NetworkRights(NETWORK_RIGHT_READ),
            SocketOperation::Bind => NetworkRights(NETWORK_RIGHT_BIND),
            SocketOperation::Listen => NetworkRights(NETWORK_RIGHT_LISTEN),
            SocketOperation::Accept => NetworkRights(NETWORK_RIGHT_RECEIVE),
            SocketOperation::Connect => NetworkRights(NETWORK_RIGHT_CONNECT),
            SocketOperation::Send => NetworkRights(NETWORK_RIGHT_SEND),
            SocketOperation::Receive => NetworkRights(NETWORK_RIGHT_RECEIVE),
            SocketOperation::Close => NetworkRights(NETWORK_RIGHT_READ),
            SocketOperation::Shutdown => NetworkRights(NETWORK_RIGHT_CONNECT),
            SocketOperation::Configure => NetworkRights(NETWORK_RIGHT_CONFIGURE),
            SocketOperation::RawPacket => NetworkRights(NETWORK_RIGHT_RAW_PACKET),
        }
    }

    /// Returns `true` when audit evidence should normally be emitted.
    pub fn is_audit_relevant(self) -> (r: bool)
        ensures
            r == self.spec_is_audit_relevant(),
    {
        matches!(
            self,
            SocketOperation::Bind | SocketOperation::Listen | SocketOperation::Accept
                | SocketOperation::Connect | SocketOperation::Configure | SocketOperation::RawPacket
        )
    }
}

/// Socket request validated before execution by a future transport backend.
#[derive(Clone, Copy, Debug, Eq, PartialEq)]
pub struct SocketRequest<'a> {
    /// Requested operation.
    pub operation: SocketOperation,
    /// Socket handle.
    pub socket: SocketHandle<'a>,
    /// Optional packet for send/raw operations.
    pub packet: Option<PacketBuffer<'a>>,
    /// Rights offered by the caller.
    pub rights: NetworkRights,
    /// Request trace context.
    pub trace: TraceContext,
}

impl<'a> SocketRequest<'a> {
    /// The request needs durable audit evidence: its operation is audit
    /// relevant, its socket asks for audit, or its packet needs audit.
    pub open spec fn spec_requires_audit(self) -> bool {
        ||| self.operation.spec_is_audit_relevant()
        ||| flag_bits_contain(self.socket.flags.0, SOCKET_FLAG_AUDIT_REQUIRED)
        ||| (self.packet matches Some(p) && p.spec_requires_audit())
    }

    /// What the operation-specific gate of `validate` answers.
    pub open spec fn spec_operation_gate(self) -> NetworkResult<()> {
        match self.operation {
            SocketOperation::Send | SocketOperation::RawPacket => {
                if self.packet is None {
                    Err(NetworkError::InvalidPacket)
                } else if self.packet.unwrap().spec_validate() is Err {
                    self.packet.unwrap().spec_validate()
                } else if !self.socket.state.spec_allows_io() {
                    Err(NetworkError::InvalidSocket)
                } else if self.socket.spec_is_loopback_only()
                    && !self.packet.unwrap().spec_is_loopback_path() {
                    Err(NetworkError::LoopbackOnly)
                } else if self.operation is RawPacket && self.rights.spec_require(
                    NetworkRights(NETWORK_RIGHT_RAW_PACKET),
                ) is Err {
                    self.rights.spec_require(NetworkRights(NETWORK_RIGHT_RAW_PACKET))
                } else {
                    Ok(())
                }
            },
            SocketOperation::Receive => if !self.socket.state.spec_allows_io() {
                Err(NetworkError::InvalidSocket)
            } else {
                Ok(())
            },
            SocketOperation::Bind => if !(self.socket.state is Created) {
                Err(NetworkError::InvalidSocket)
            } else {
                Ok(())
            },
            SocketOperation::Listen | SocketOperation::Connect => if !(self.socket.state is Bound) {
                Err(NetworkError::InvalidSocket)
            } else {
                Ok(())
            },
            _ => Ok(()),
        }
    }

    /// What `validate` answers, checks in this order: the socket, the trace,
    /// the caller's rights for the operation, the socket's rights for the
    /// operation, the audit right when audit is required, a closed or faulted
    /// socket (only `Close` may use one), then the operation-specific gate.
    pub open spec fn spec_validate(self) -> NetworkResult<()> {
        if self.socket.spec_validate() is Err {
            self.socket.spec_validate()
        } else if self.trace.spec_validate() is Err {
            self.trace.spec_validate()
        } else if self.rights.spec_require(self.operation.spec_required_rights()) is Err {
            self.rights.spec_require(self.operation.spec_required_rights())
        } else if self.socket.rights.spec_require(self.operation.spec_required_rights()) is Err {
            self.socket.rights.spec_require(self.operation.spec_required_rights())
        } else if self.spec_requires_audit() && self.rights.spec_require(
            NetworkRights(NETWORK_RIGHT_AUDIT),
        ) is Err {
            self.rights.spec_require(NetworkRights(NETWORK_RIGHT_AUDIT))
        } else if !self.socket.state.spec_is_active() && !(self.operation is Close) {
            Err(NetworkError::SocketClosed)
        } else {
            self.spec_operation_gate()
        }
    }

    /// Creates a socket request.
    pub fn new(operation: SocketOperation, socket: SocketHandle<'a>, rights: NetworkRights) -> (r:
        Self)
        ensures
            r == (SocketRequest { operation, socket, packet: None, rights, trace: empty_trace() }),
    {
        SocketRequest {
            operation,
            socket,
            packet: None,
            rights,
            trace: TraceContext { trace_id: 0, span_id: 0, parent_span_id: 0, flags: 0 },
        }
    }

    /// Attaches a packet.
    pub fn with_packet(self, packet: PacketBuffer<'a>) -> (r: Self)
        ensures
            r == (SocketRequest { packet: Some(packet), ..self }),
    {
        let mut q = self;
        q.packet = Some(packet);
        q
    }

    /// Sets trace context.
    pub fn with_trace(self, trace: TraceContext) -> (r: Self)
        ensures
            r == (SocketRequest { trace, ..self }),
    {
        let mut q = self;
        q.trace = trace;
        q
    }

    /// Returns `true` when the request should emit durable audit evidence.
    pub fn requires_audit(self) -> (r: bool)
        ensures
            r == self.spec_requires_audit(),
    {
        self.operation.is_audit_relevant() || self.socket.flags.contains(
            SocketFlags(SOCKET_FLAG_AUDIT_REQUIRED),
        ) || match self.packet {
            Some(packet) => packet.requires_audit(),
            None => false,
        }
    }

    /// Validates request metadata and capability gates.
    pub fn validate(self) -> (r: NetworkResult<()>)
        ensures
            r == self.spec_validate(),
    {
        self.socket.validate()?;
        self.trace.validate()?;
        self.rights.require(self.operation.required_rights())?;
        self.socket.rights.require(self.operation.required_rights())?;
        if self.requires_audit() {
            self.rights.require(NetworkRights(NETWORK_RIGHT_AUDIT))?;
        }
        if matches!(self.socket.state, SocketState::Closed | SocketState::Faulted) && !matches!(
            self.operation,
            SocketOperation::Close
        ) {
            return Err(NetworkError::SocketClosed);
        }
        match self.operation {
            SocketOperation::Send | SocketOperation::RawPacket => {
                let packet = self.packet.ok_or(NetworkError::InvalidPacket)?;
                packet.validate()?;
                if !self.socket.state.allows_io() {
                    return Err(NetworkError::InvalidSocket);
                }
                if self.socket.flags.contains(SocketFlags(SOCKET_FLAG_LOOPBACK_ONLY)) && (
                !packet.source.is_loopback() || !packet.destination.is_loopback()) {
                    return Err(NetworkError::LoopbackOnly);
                }
                if matches!(self.operation, SocketOperation::RawPacket) {
                    self.rights.require(NetworkRights(NETWORK_RIGHT_RAW_PACKET))?;
                }
            },
            SocketOperation::Receive => {
                if !self.socket.state.allows_io() {
                    return Err(NetworkError::InvalidSocket);
                }
            },
            SocketOperation::Bind => {
                if !self.socket.state.allows_bind() {
                    return Err(NetworkError::InvalidSocket);
                }
            },
            SocketOperation::Listen => {
                if !self.socket.state.allows_listen() {
                    return Err(NetworkError::InvalidSocket);
                }
            },
            SocketOperation::Connect => {
                if !self.socket.state.allows_connect() {
                    return Err(NetworkError::InvalidSocket);
                }
            },
            SocketOperation::Accept
            | SocketOperation::Create
            | SocketOperation::Close
            | SocketOperation::Shutdown
            | SocketOperation::Configure => {},
        }
        Ok(())
    }
}

/// Capability gating: a request that validates comes from a valid socket,
/// and both the caller and the socket hold the rights its operation
/// requires; the caller also holds the audit right whenever the request needs
/// audit and the raw-packet right for raw packets; only `Close` may address a
/// closed or faulted socket; and a send or raw-packet request carries a valid
/// packet, on a loopback path when the socket is loopback-only.
pub proof fn lemma_validated_request_is_authorized(req: SocketRequest)
    requires
        req.spec_validate() is Ok,
    ensures
        req.socket.spec_validate() is Ok,
        req.trace.spec_validate() is Ok,
        req.rights.spec_is_known(),
        bits_contain(req.rights.0, req.operation.spec_required_rights().0),
        bits_contain(req.socket.rights.0, req.operation.spec_required_rights().0),
        req.spec_requires_audit() ==> bits_contain(req.rights.0, NETWORK_RIGHT_AUDIT),
        req.operation is RawPacket ==> bits_contain(req.rights.0, NETWORK_RIGHT_RAW_PACKET),
        !req.socket.state.spec_is_active() ==> req.operation is Close,
        (req.operation is Send || req.operation is RawPacket) ==> {
            &&& req.packet is Some
            &&& req.packet.unwrap().spec_validate() is Ok
            &&& req.socket.state.spec_allows_io()
            &&& req.socket.spec_is_loopback_only() ==> req.packet.unwrap().spec_is_loopback_path()
        },
{
}

/// Lifecycle gating of requests: once the socket, the trace and the rights
/// of a request without a packet pass, the socket's state alone decides.
/// Receive is allowed on a bound, listening or connected socket; bind only on
/// a created one; listen and connect only on a bound one; close on any
/// socket; create, accept, shutdown and configure on any socket that is
/// neither closed nor faulted. Every refusal is `SocketClosed` or
/// `InvalidSocket`.
pub proof fn lemma_request_state_gates(req: SocketRequest)
    requires
        !(req.operation is Send || req.operation is RawPacket),
        req.socket.spec_validate() is Ok,
        req.trace.spec_validate() is Ok,
        req.rights.spec_require(req.operation.spec_required_rights()) is Ok,
        req.socket.rights.spec_require(req.operation.spec_required_rights()) is Ok,
        req.spec_requires_audit() ==> req.rights.spec_require(NetworkRights(NETWORK_RIGHT_AUDIT)) is Ok,
    ensures
        req.operation is Receive ==> (req.spec_validate() is Ok <==> (req.socket.state is Bound
            || req.socket.state is Listening || req.socket.state is Connected)),
        req.operation is Bind ==> (req.spec_validate() is Ok <==> req.socket.state is Created),
        (req.operation is Listen || req.operation is Connect) ==> (req.spec_validate() is Ok
            <==> req.socket.state is Bound),
        req.operation is Close ==> req.spec_validate() is Ok,
        (req.operation is Create || req.operation is Accept || req.operation is Shutdown
            || req.operation is Configure) ==> (req.spec_validate() is Ok <==> !(req.socket.state is Closed
            || req.socket.state is Faulted)),
        req.spec_validate() is Err ==> req.spec_validate() == Err::<(), NetworkError>(
            NetworkError::SocketClosed,
        ) || req.spec_validate() == Err::<(), NetworkError>(NetworkError::InvalidSocket),
{
}

/// Packet gating of send and raw-packet requests: once the socket, the trace
/// and the rights pass and the socket is neither closed nor faulted, such a
/// request validates exactly when it carries a valid packet, the socket is
/// bound, listening or connected, a loopback-only socket's packet travels
/// between loopback addresses, and for a raw packet the caller holds the
/// raw-packet right.
pub proof fn lemma_request_packet_gates(req: SocketRequest)
    requires
        req.operation is Send || req.operation is RawPacket,
        req.socket.spec_validate() is Ok,
        req.trace.spec_validate() is Ok,
        req.rights.spec_require(req.operation.spec_required_rights()) is Ok,
        req.socket.rights.spec_require(req.operation.spec_required_rights()) is Ok,
        req.spec_requires_audit() ==> req.rights.spec_require(NetworkRights(NETWORK_RIGHT_AUDIT)) is Ok,
        !(req.socket.state is Closed || req.socket.state is Faulted),
    ensures
        req.spec_validate() is Ok <==> {
            &&& req.packet is Some
            &&& req.packet.unwrap().spec_validate() is Ok
            &&& (req.socket.state is Bound || req.socket.state is Listening
                || req.socket.state is Connected)
            &&& req.socket.flags.0 & 0x4u32 == 0x4u32 ==> (req.packet.unwrap().source.kind is Loopback
                && req.packet.unwrap().destination.kind is Loopback)
            &&& req.operation is RawPacket ==> req.rights.0 & 0x80u64 == 0x80u64
        },
        req.packet is None ==> req.spec_validate() == Err::<(), NetworkError>(
            NetworkError::InvalidPacket,
        ),
{
    if req.operation is RawPacket {
        let x = req.rights.0;
        assert(x & !0x7ffu64 == 0 ==> (0x80u64 & !0x7ffu64 == 0)) by (bit_vector);
    }
}

/// Socket table module descriptor.
#[derive(Debug, Eq, PartialEq)]
pub struct SocketTableDescriptor<'a> {
    /// Human-readable descriptor name.
    pub name: &'a str,
    /// Descriptor version.
    pub version: u32,
}

impl<'a> Clone for SocketTableDescriptor<'a> {
    /// Copies the descriptor: same name and version.
    fn clone(&self) -> (r: Self)
        ensures
            r == *self,
    {
        SocketTableDescriptor { name: self.name, version: self.version }
    }
}

impl<'a> SocketTableDescriptor<'a> {
    /// Creates a socket table descriptor.
    pub fn new(name: &'a str, version: u32) -> (r: Self)
        ensures
            r.name == name,
            r.version == version,
    {
        SocketTableDescriptor { name, version }
    }
}

/// Socket table counters for diagnostics.
#[derive(Clone, Copy, Debug, Default, Eq, PartialEq)]
pub struct SocketStats {
    /// Active socket handles.
    pub active: usize,
    /// Handles inserted into the table.
    pub inserted: u64,
    /// Handles removed from the table.
    pub removed: u64,
    /// Endpoint conflict attempts.
    pub endpoint_conflicts: u64,
}

/// Matches a registered socket with the given identifier.
pub open spec fn has_socket_id<'a>(id: SocketId) -> spec_fn(Option<SocketHandle<'a>>) -> bool {
    |o: Option<SocketHandle<'a>>| o matches Some(h) && h.id == id
}

/// Matches a registered, active socket bound to the given endpoint.
pub open spec fn bound_to<'a>(endpoint: SocketEndpoint) -> spec_fn(Option<SocketHandle<'a>>) -> bool {
    |o: Option<SocketHandle<'a>>|
        o matches Some(h) && h.state.spec_is_active() && (h.endpoint matches Some(b)
            && same_endpoint(b, endpoint))
}

/// Fixed-capacity socket handle table.
#[derive(Debug, Eq, PartialEq)]
pub struct SocketTable<'a, const N: usize> {
    sockets: [Option<SocketHandle<'a>>; N],
    len: usize,
    stats: SocketStats,
}

impl<'a, const N: usize> SocketTable<'a, N> {
    /// The backing slots.
    pub closed spec fn slot_view(&self) -> Seq<Option<SocketHandle<'a>>> {
        self.sockets@
    }

    /// Number of registered sockets.
    pub closed spec fn spec_len(&self) -> nat {
        self.len as nat
    }

    /// The table counters.
    pub closed spec fn spec_stats(&self) -> SocketStats {
        self.stats
    }

    /// Well-formed table, kept by every value of the type: the count matches
    /// the occupied slots and the active counter matches the count.
    #[verifier::type_invariant]
    pub closed spec fn wf(&self) -> bool {
        &&& self.len == count_some(self.sockets@)
        &&& self.stats.active == self.len
    }

    /// What `get` answers: an invalid identifier is refused, otherwise the
    /// first socket registered under it, if any.
    pub open spec fn spec_get(&self, id: SocketId) -> NetworkResult<SocketHandle<'a>> {
        if id.0 == INVALID_SOCKET_ID {
            Err(NetworkError::InvalidSocket)
        } else {
            let k = first_index(self.slot_view(), has_socket_id(id));
            if k < N {
                Ok(self.slot_view()[k].unwrap())
            } else {
                Err(NetworkError::SocketNotFound)
            }
        }
    }

    /// What `find_by_endpoint` answers: an invalid endpoint is refused with
    /// its validation error, otherwise the first active socket bound to it.
    pub open spec fn spec_find_by_endpoint(&self, endpoint: SocketEndpoint) -> NetworkResult<
        SocketHandle<'a>,
    > {
        match endpoint.spec_validate() {
            Err(e) => Err(e),
            Ok(_) => {
                let k = first_index(self.slot_view(), bound_to(endpoint));
                if k < N {
                    Ok(self.slot_view()[k].unwrap())
                } else {
                    Err(NetworkError::SocketNotFound)
                }
            },
        }
    }

    /// An active candidate with an endpoint conflicts when an active
    /// registered socket is bound to the same endpoint.
    pub open spec fn spec_conflicts(&self, candidate: SocketHandle) -> bool {
        &&& candidate.state.spec_is_active()
        &&& candidate.endpoint is Some
        &&& first_index(self.slot_view(), bound_to(candidate.endpoint.unwrap())) < N
    }

    /// What `insert` does: an invalid handle is refused with its validation
    /// error, a taken identifier with `DuplicateSocket`, and a full table with
    /// `CapacityExceeded`, each changing nothing; an endpoint already held by
    /// an active socket is refused with `EndpointInUse` and counted.
    /// Otherwise the handle takes the first vacant slot, and `get` by its
    /// identifier then answers it.
    pub open spec fn inserted(self, post: Self, handle: SocketHandle<'a>, r: NetworkResult<()>) -> bool {
        if handle.spec_validate() is Err {
            r == handle.spec_validate() && post == self
        } else if first_index(self.slot_view(), has_socket_id(handle.id)) < N {
            r == Err::<(), NetworkError>(NetworkError::DuplicateSocket) && post == self
        } else if self.spec_conflicts(handle) {
            &&& r == Err::<(), NetworkError>(NetworkError::EndpointInUse)
            &&& post.slot_view() == self.slot_view()
            &&& post.spec_len() == self.spec_len()
            &&& post.spec_stats() == (SocketStats {
                endpoint_conflicts: sat_add(self.spec_stats().endpoint_conflicts, 1),
                ..self.spec_stats()
            })
        } else if first_index(self.slot_view(), vacant()) == N {
            r == Err::<(), NetworkError>(NetworkError::CapacityExceeded) && post == self
        } else {
            &&& r == Ok::<(), NetworkError>(())
            &&& post.slot_view() == self.slot_view().update(
                first_index(self.slot_view(), vacant()),
                Some(handle),
            )
            &&& post.spec_len() == self.spec_len() + 1
            &&& post.spec_stats() == (SocketStats {
                active: (self.spec_stats().active + 1) as usize,
                inserted: sat_add(self.spec_stats().inserted, 1),
                ..self.spec_stats()
            })
            &&& post.spec_get(handle.id) == Ok::<SocketHandle<'a>, NetworkError>(handle)
        }
    }

    /// Creates an empty socket table.
    pub fn new() -> (r: Self)
        ensures
            r.spec_len() == 0,
            r.slot_view() == Seq::new(N as nat, |i: int| None::<SocketHandle<'a>>),
            r.spec_stats() == (SocketStats {
                active: 0,
                inserted: 0,
                removed: 0,
                endpoint_conflicts: 0,
            }),
    {
        let sockets: [Option<SocketHandle<'a>>; N] = vacant_array();
        proof {
            lemma_count_some_vacant(sockets@);
        }
        SocketTable {
            sockets,
            len: 0,
            stats: SocketStats { active: 0, inserted: 0, removed: 0, endpoint_conflicts: 0 },
        }
    }

    /// Returns active socket count.
    pub fn len(&self) -> (r: usize)
        ensures
            r == self.spec_len(),
            r == count_some(self.slot_view()),
    {
        proof {
            use_type_invariant(self);
        }
        self.len
    }

    /// Returns `true` when no sockets are registered.
    pub fn is_empty(&self) -> (r: bool)
        ensures
            r == (self.spec_len() == 0),
    {
        proof {
            use_type_invariant(self);
        }
        self.len == 0
    }

    /// Returns table capacity.
    pub fn capacity(&self) -> (r: usize)
        ensures
            r == N,
    {
        N
    }

    /// Returns table statistics.
    pub fn stats(&self) -> (r: SocketStats)
        ensures
            r == self.spec_stats(),
    {
        self.stats
    }

    /// Returns all backing slots.
    pub fn slots(&self) -> (r: &[Option<SocketHandle<'a>>; N])
        ensures
            r@ == self.slot_view(),
    {
        &self.sockets
    }

    /// Inserts a socket handle after validation and conflict checks. An
    /// invalid handle is refused with its validation error, a taken identifier
    /// with `DuplicateSocket`, and a full table with `CapacityExceeded`, each
    /// changing nothing; an endpoint already held by an active socket is
    /// refused with `EndpointInUse` and counted. Otherwise the handle takes the
    /// first vacant slot, and `get` by its identifier then answers it.
    pub fn insert(&mut self, handle: SocketHandle<'a>) -> (r: NetworkResult<()>)
        ensures
            old(self).inserted(*final(self), handle, r),
    {
        proof {
            use_type_invariant(&*self);
        }
        handle.validate()?;
        let ghost s = self.sockets@;
        let mut i: usize = 0;
        while i < N
            invariant
                i <= N,
                s == self.sockets@,
                *self == *old(self),
                self.wf(),
                handle.spec_validate() is Ok,
                first_index(s, has_socket_id(handle.id)) == first_index_from(
                    s,
                    has_socket_id(handle.id),
                    i as int,
                ),
            decreases N - i,
        {
            if let Some(existing) = self.sockets[i] {
                if existing.id == handle.id {
                    return Err(NetworkError::DuplicateSocket);
                }
            }
            i += 1;
        }
        if self.endpoint_conflict(handle) {
            self.stats.endpoint_conflicts = self.stats.endpoint_conflicts.saturating_add(1);
            return Err(NetworkError::EndpointInUse);
        }
        let mut k: usize = 0;
        while k < N && self.sockets[k].is_some()
            invariant
                k <= N,
                s == self.sockets@,
                first_index(s, vacant()) == first_index_from(s, vacant(), k as int),
            decreases N - k,
        {
            k += 1;
        }
        if k == N {
            return Err(NetworkError::CapacityExceeded);
        }
        proof {
            lemma_first_index(s, has_socket_id(handle.id));
            lemma_first_index(s, vacant());
            lemma_count_some_update(s, k as int, Some(handle));
            lemma_count_some_bounds(s);
            assert(s[k as int] is None);
        }
        let mut sockets = self.sockets;
        set_slot(&mut sockets, k, Some(handle));
        let len = self.len + 1;
        *self = SocketTable {
            sockets,
            len,
            stats: SocketStats {
                active: len,
                inserted: self.stats.inserted.saturating_add(1),
                removed: self.stats.removed,
                endpoint_conflicts: self.stats.endpoint_conflicts,
            },
        };
        proof {
            let s2 = self.sockets@;
            assert(s2 == s.update(k as int, Some(handle)));
            assert forall|j: int| 0 <= j < k implies !(#[trigger] has_socket_id(handle.id)(s2[j])) by {
                assert(!has_socket_id(handle.id)(s[j]));
            }
            lemma_first_index_at(s2, has_socket_id(handle.id), 0, k as int);
        }
        Ok(())
    }

    /// Returns a socket by identifier.
    pub fn get(&self, id: SocketId) -> (r: NetworkResult<SocketHandle<'a>>)
        ensures
            r == self.spec_get(id),
    {
        id.validate()?;
        let ghost s = self.sockets@;
        let mut i: usize = 0;
        while i < N
            invariant
                i <= N,
                s == self.sockets@,
                id.0 != INVALID_SOCKET_ID,
                first_index(s, has_socket_id(id)) == first_index_from(
                    s,
                    has_socket_id(id),
                    i as int,
                ),
            decreases N - i,
        {
            if let Some(handle) = self.sockets[i] {
                if handle.id == id {
                    return Ok(handle);
                }
            }
            i += 1;
        }
        Err(NetworkError::SocketNotFound)
    }

    /// Returns a mutable socket by identifier. The handle stays in its slot;
    /// whatever the caller writes through the reference is what the slot holds
    /// afterwards.
    pub fn get_mut(&mut self, id: SocketId) -> (r: NetworkResult<&mut SocketHandle<'a>>)
        ensures
            final(self).spec_len() == old(self).spec_len(),
            final(self).spec_stats() == old(self).spec_stats(),
            old(self).spec_get(id) is Err ==> r is Err && r->Err_0 == old(self).spec_get(id)->Err_0
                && *final(self) == *old(self),
            old(self).spec_get(id) is Ok ==> r is Ok && *r->Ok_0 == old(self).spec_get(id)->Ok_0
                && final(self).slot_view() == old(self).slot_view().update(
                first_index(old(self).slot_view(), has_socket_id(id)),
                Some(*final(r->Ok_0)),
            ),
    {
        proof {
            use_type_invariant(&*self);
        }
        if let Err(e) = id.validate() {
            return Err(e);
        }
        let ghost s = self.sockets@;
        let mut i: usize = 0;
        while i < N
            invariant
                i <= N,
                s == self.sockets@,
                *self == *old(self),
                self.wf(),
                id.0 != INVALID_SOCKET_ID,
                first_index(s, has_socket_id(id)) == first_index_from(
                    s,
                    has_socket_id(id),
                    i as int,
                ),
            decreases N - i,
        {
            let found = match self.sockets[i] {
                Some(handle) => handle.id == id,
                None => false,
            };
            if found {
                proof {
                    assert forall|v: SocketHandle<'a>|
                        #[trigger] count_some(s.update(i as int, Some(v))) == count_some(s) by {
                        lemma_count_some_update(s, i as int, Some(v));
                    }
                }
                match slot_mut(&mut self.sockets, i) {
                    Some(handle) => {
                        return Ok(handle);
                    },
                    None => {
                        return Err(NetworkError::SocketNotFound);
                    },
                }
            }
            i += 1;
        }
        Err(NetworkError::SocketNotFound)
    }

    /// Removes a socket by identifier. An invalid identifier or an absent
    /// socket is refused and changes nothing; otherwise the first socket with
    /// the identifier leaves its slot and is returned.
    pub fn remove(&mut self, id: SocketId) -> (r: NetworkResult<SocketHandle<'a>>)
        ensures
            r == old(self).spec_get(id),
            r is Err ==> *final(self) == *old(self),
            r is Ok ==> {
                &&& final(self).slot_view() == old(self).slot_view().update(
                    first_index(old(self).slot_view(), has_socket_id(id)),
                    None,
                )
                &&& final(self).spec_len() == old(self).spec_len() - 1
                &&& final(self).spec_stats() == (SocketStats {
                    active: (old(self).spec_stats().active - 1) as usize,
                    removed: sat_add(old(self).spec_stats().removed, 1),
                    ..old(self).spec_stats()
                })
            },
    {
        proof {
            use_type_invariant(&*self);
        }
        id.validate()?;
        let ghost s = self.sockets@;
        let mut i: usize = 0;
        while i < N
            invariant
                i <= N,
                s == self.sockets@,
                *self == *old(self),
                self.wf(),
                id.0 != INVALID_SOCKET_ID,
                first_index(s, has_socket_id(id)) == first_index_from(
                    s,
                    has_socket_id(id),
                    i as int,
                ),
            decreases N - i,
        {
            let found = match self.sockets[i] {
                Some(handle) => handle.id == id,
                None => false,
            };
            if found {
                proof {
                    lemma_count_some_update(s, i as int, None);
                    lemma_count_some_bounds(s);
                }
                let handle = match self.sockets[i] {
                    Some(handle) => handle,
                    None => {
                        return Err(NetworkError::SocketNotFound);
                    },
                };
                let mut sockets = self.sockets;
                set_slot(&mut sockets, i, None);
                let len = self.len - 1;
                *self = SocketTable {
                    sockets,
                    len,
                    stats: SocketStats {
                        active: len,
                        inserted: self.stats.inserted,
                        removed: self.stats.removed.saturating_add(1),
                        endpoint_conflicts: self.stats.endpoint_conflicts,
                    },
                };
                return Ok(handle);
            }
            i += 1;
        }
        Err(NetworkError::SocketNotFound)
    }

    /// Finds an active socket bound to an endpoint.
    pub fn find_by_endpoint(&self, endpoint: SocketEndpoint<'_>) -> (r: NetworkResult<
        SocketHandle<'a>,
    >)
        ensures
            r == self.spec_find_by_endpoint(endpoint),
    {
        endpoint.validate()?;
        let ghost s = self.sockets@;
        let mut i: usize = 0;
        while i < N
            invariant
                i <= N,
                s == self.sockets@,
                endpoint.spec_validate() is Ok,
                first_index(s, bound_to(endpoint)) == first_index_from(
                    s,
                    bound_to(endpoint),
                    i as int,
                ),
            decreases N - i,
        {
            if let Some(handle) = self.sockets[i] {
                if !matches!(handle.state, SocketState::Closed | SocketState::Faulted) {
                    if let Some(bound) = handle.endpoint {
                        if endpoint_eq(bound, endpoint) {
                            return Ok(handle);
                        }
                    }
                }
            }
            i += 1;
        }
        Err(NetworkError::SocketNotFound)
    }

    fn endpoint_conflict(&self, candidate: SocketHandle<'_>) -> (r: bool)
        ensures
            r == self.spec_conflicts(candidate),
    {
        if matches!(candidate.state, SocketState::Closed | SocketState::Faulted) {
            return false;
        }
        let endpoint = match candidate.endpoint {
            Some(endpoint) => endpoint,
            None => {
                return false;
            },
        };
        let ghost s = self.sockets@;
        let mut i: usize = 0;
        while i < N
            invariant
                i <= N,
                s == self.sockets@,
                candidate.state.spec_is_active(),
                candidate.endpoint == Some(endpoint),
                first_index(s, bound_to(endpoint)) == first_index_from(
                    s,
                    bound_to(endpoint),
                    i as int,
                ),
            decreases N - i,
        {
            if let Some(existing) = self.sockets[i] {
                if !matches!(existing.state, SocketState::Closed | SocketState::Faulted) {
                    if let Some(bound) = existing.endpoint {
                        if endpoint_eq(bound, endpoint) {
                            return true;
                        }
                    }
                }
            }
            i += 1;
        }
        false
    }
}

impl<'a, const N: usize> Clone for SocketTable<'a, N> {
    /// Copies the table: same slots, count and counters.
    fn clone(&self) -> (r: Self)
        ensures
            r == *self,
    {
        proof {
            use_type_invariant(self);
        }
        SocketTable { sockets: self.sockets, len: self.len, stats: self.stats }
    }
}

impl<'a, const N: usize> Default for SocketTable<'a, N> {
    fn default() -> (r: Self)
        ensures
            r.spec_len() == 0,
            r.slot_view() == Seq::new(N as nat, |i: int| None::<SocketHandle<'a>>),
            r.spec_stats() == (SocketStats {
                active: 0,
                inserted: 0,
                removed: 0,
                endpoint_conflicts: 0,
            }),
    {
        Self::new()
    }
}

/// A well-formed table never holds more sockets than it has slots, and its
/// active counter is its socket count.
pub proof fn lemma_table_count_is_bounded<'a, const N: usize>(t: SocketTable<'a, N>)
    requires
        t.wf(),
    ensures
        t.spec_len() == count_some(t.slot_view()),
        t.spec_len() <= N,
        t.spec_stats().active == t.spec_len(),
{
    lemma_count_some_bounds(t.sockets@);
}

/// No two registered sockets share an identifier.
pub open spec fn ids_unique<'a>(s: Seq<Option<SocketHandle<'a>>>) -> bool {
    forall|i: int, j: int|
        0 <= i < s.len() && 0 <= j < s.len() && i != j && (#[trigger] s[i]) is Some && (
        #[trigger] s[j]) is Some ==> s[i].unwrap().id != s[j].unwrap().id
}

/// No two registered active sockets are bound to the same endpoint.
pub open spec fn endpoints_unique<'a>(s: Seq<Option<SocketHandle<'a>>>) -> bool {
    forall|i: int, j: int|
        0 <= i < s.len() && 0 <= j < s.len() && i != j && (#[trigger] s[i]) is Some && (
        #[trigger] s[j]) is Some && s[i].unwrap().state.spec_is_active()
            && s[j].unwrap().state.spec_is_active() && s[i].unwrap().endpoint is Some
            && s[j].unwrap().endpoint is Some ==> !same_endpoint(
            s[i].unwrap().endpoint.unwrap(),
            s[j].unwrap().endpoint.unwrap(),
        )
}

/// Storing a handle whose identifier is absent in the first vacant slot keeps
/// identifiers unique.
pub proof fn lemma_insert_keeps_ids_unique<'a>(s: Seq<Option<SocketHandle<'a>>>, handle: SocketHandle<'a>)
    requires
        ids_unique(s),
        first_index(s, has_socket_id(handle.id)) == s.len(),
        first_index(s, vacant()) < s.len(),
    ensures
        ids_unique(s.update(first_index(s, vacant()), Some(handle))),
{
    let k = first_index(s, vacant());
    lemma_first_index(s, vacant());
    lemma_first_index(s, has_socket_id(handle.id));
    let s2 = s.update(k, Some(handle));
    assert forall|i: int, j: int|
        0 <= i < s2.len() && 0 <= j < s2.len() && i != j && (#[trigger] s2[i]) is Some && (
        #[trigger] s2[j]) is Some implies s2[i].unwrap().id != s2[j].unwrap().id by {
        if i == k {
            assert(!has_socket_id(handle.id)(s[j]));
        } else if j == k {
            assert(!has_socket_id(handle.id)(s[i]));
        }
    }
}

/// Storing a handle in the first vacant slot keeps active endpoints unshared
/// when no active socket is bound to the endpoint of an active handle.
pub proof fn lemma_insert_keeps_endpoints_unique<'a>(
    s: Seq<Option<SocketHandle<'a>>>,
    handle: SocketHandle<'a>,
)
    requires
        endpoints_unique(s),
        !(handle.state.spec_is_active() && handle.endpoint is Some && first_index(
            s,
            bound_to(handle.endpoint.unwrap()),
        ) < s.len()),
        first_index(s, vacant()) < s.len(),
    ensures
        endpoints_unique(s.update(first_index(s, vacant()), Some(handle))),
{
    let k = first_index(s, vacant());
    lemma_first_index(s, vacant());
    let s2 = s.update(k, Some(handle));
    if handle.state.spec_is_active() && handle.endpoint is Some {
        lemma_first_index(s, bound_to(handle.endpoint.unwrap()));
    }
    assert forall|i: int, j: int|
        0 <= i < s2.len() && 0 <= j < s2.len() && i != j && (#[trigger] s2[i]) is Some && (
        #[trigger] s2[j]) is Some && s2[i].unwrap().state.spec_is_active()
            && s2[j].unwrap().state.spec_is_active() && s2[i].unwrap().endpoint is Some
            && s2[j].unwrap().endpoint is Some implies !same_endpoint(
        s2[i].unwrap().endpoint.unwrap(),
        s2[j].unwrap().endpoint.unwrap(),
    ) by {
        if i == k {
            if same_endpoint(handle.endpoint.unwrap(), s2[j].unwrap().endpoint.unwrap()) {
                assert(bound_to(handle.endpoint.unwrap())(s[j]));
            }
        } else if j == k {
            if same_endpoint(s2[i].unwrap().endpoint.unwrap(), handle.endpoint.unwrap()) {
                assert(bound_to(handle.endpoint.unwrap())(s[i]));
            }
        }
    }
}

/// A successful insert keeps identifiers unique and active endpoints
/// unshared: the inserted handle's identifier was absent, and no active
/// socket was bound to its endpoint.
pub proof fn lemma_insert_keeps_table_unique<'a>(
    s: Seq<Option<SocketHandle<'a>>>,
    handle: SocketHandle<'a>,
)
    requires
        ids_unique(s),
        endpoints_unique(s),
        first_index(s, has_socket_id(handle.id)) == s.len(),
        !(handle.state.spec_is_active() && handle.endpoint is Some && first_index(
            s,
            bound_to(handle.endpoint.unwrap()),
        ) < s.len()),
        first_index(s, vacant()) < s.len(),
    ensures
        ids_unique(s.update(first_index(s, vacant()), Some(handle))),
        endpoints_unique(s.update(first_index(s, vacant()), Some(handle))),
{
    lemma_insert_keeps_ids_unique(s, handle);
    lemma_insert_keeps_endpoints_unique(s, handle);
}

/// Insertion never lets two active sockets share an endpoint, nor two
/// sockets share an identifier. For a valid handle whose identifier is not
/// registered: when the handle is active (neither closed nor faulted) and has
/// an endpoint that some registered active socket is bound to, insertion
/// answers `EndpointInUse`, whatever the handle's lifecycle state. A
/// successful insertion stores the handle in the first vacant slot, after
/// which `get` by its identifier answers it, and it leaves identifiers unique
/// and active endpoints unshared when they were before.
pub proof fn lemma_insert_keeps_endpoints_unshared<'a, const N: usize>(
    t: SocketTable<'a, N>,
    post: SocketTable<'a, N>,
    handle: SocketHandle<'a>,
    r: NetworkResult<()>,
)
    requires
        t.inserted(post, handle, r),
    ensures
        handle.spec_validate() is Ok && (forall|i: int|
            0 <= i < N && (#[trigger] t.slot_view()[i]) is Some ==> t.slot_view()[i].unwrap().id
                != handle.id) && !(handle.state is Closed || handle.state is Faulted)
            && handle.endpoint is Some && (exists|i: int|
            0 <= i < N && (#[trigger] t.slot_view()[i]) is Some && !(t.slot_view()[i].unwrap().state is Closed
                || t.slot_view()[i].unwrap().state is Faulted) && t.slot_view()[i].unwrap().endpoint is Some
                && same_endpoint(t.slot_view()[i].unwrap().endpoint.unwrap(), handle.endpoint.unwrap()))
            ==> r == Err::<(), NetworkError>(NetworkError::EndpointInUse),
        r is Ok ==> exists|k: int|
            0 <= k < N && t.slot_view()[k] is None && (forall|j: int|
                0 <= j < k ==> (#[trigger] t.slot_view()[j]) is Some) && post.slot_view()
                == t.slot_view().update(k, Some(handle)),
        r is Ok ==> post.spec_get(handle.id) == Ok::<SocketHandle<'a>, NetworkError>(handle),
        r is Ok && ids_unique(t.slot_view()) ==> ids_unique(post.slot_view()),
        r is Ok && endpoints_unique(t.slot_view()) ==> endpoints_unique(post.slot_view()),
{
    let s = t.slot_view();
    assert(s.len() == N) by {
        assert(t.sockets@.len() == N);
    }
    lemma_first_index(s, has_socket_id(handle.id));
    if handle.spec_validate() is Ok && (forall|i: int|
        0 <= i < N && (#[trigger] s[i]) is Some ==> s[i].unwrap().id != handle.id) {
        let c = first_index(s, has_socket_id(handle.id));
        if c < N {
            assert(has_socket_id(handle.id)(s[c]));
        }
        if !(handle.state is Closed || handle.state is Faulted) && handle.endpoint is Some && (exists|i: int|
            0 <= i < N && (#[trigger] s[i]) is Some && !(s[i].unwrap().state is Closed
                || s[i].unwrap().state is Faulted) && s[i].unwrap().endpoint is Some && same_endpoint(
                s[i].unwrap().endpoint.unwrap(),
                handle.endpoint.unwrap(),
            )) {
            let i = choose|i: int|
                0 <= i < N && (#[trigger] s[i]) is Some && !(s[i].unwrap().state is Closed
                    || s[i].unwrap().state is Faulted) && s[i].unwrap().endpoint is Some && same_endpoint(
                    s[i].unwrap().endpoint.unwrap(),
                    handle.endpoint.unwrap(),
                );
            let e = handle.endpoint.unwrap();
            lemma_first_index(s, bound_to(e));
            assert(bound_to(e)(s[i]));
            assert(first_index(s, bound_to(e)) <= i);
        }
    }
    if r is Ok {
        lemma_first_index(s, vacant());
        if ids_unique(s) {
            lemma_insert_keeps_ids_unique(s, handle);
        }
        if endpoints_unique(s) {
            lemma_insert_keeps_endpoints_unique(s, handle);
        }
    }
}

/// Lookups answer from what is registered. `get` (and with it `get_mut`
/// and `remove`) refuses the invalid identifier, succeeds for a valid one
/// exactly when a socket with that identifier is registered, and answers a
/// registered socket with that identifier. For a valid endpoint,
/// `find_by_endpoint` succeeds exactly when a registered socket that is
/// neither closed nor faulted is bound to an equal endpoint, and answers such
/// a socket.
pub proof fn lemma_table_lookups_answer_registered_sockets<'a, const N: usize>(
    t: SocketTable<'a, N>,
    id: SocketId,
    endpoint: SocketEndpoint,
)
    ensures
        id.0 == INVALID_SOCKET_ID ==> t.spec_get(id) == Err::<SocketHandle<'a>, NetworkError>(
            NetworkError::InvalidSocket,
        ),
        id.0 != INVALID_SOCKET_ID ==> (t.spec_get(id) is Ok <==> exists|i: int|
            0 <= i < N && (#[trigger] t.slot_view()[i]) is Some && t.slot_view()[i].unwrap().id == id),
        t.spec_get(id) is Ok ==> t.spec_get(id)->Ok_0.id == id && exists|i: int|
            0 <= i < N && t.slot_view()[i] == Some(t.spec_get(id)->Ok_0),
        endpoint.spec_validate() is Ok ==> (t.spec_find_by_endpoint(endpoint) is Ok <==> exists|i: int|
            0 <= i < N && (#[trigger] t.slot_view()[i]) is Some && !(t.slot_view()[i].unwrap().state is Closed
                || t.slot_view()[i].unwrap().state is Faulted) && t.slot_view()[i].unwrap().endpoint is Some
                && same_endpoint(t.slot_view()[i].unwrap().endpoint.unwrap(), endpoint)),
        t.spec_find_by_endpoint(endpoint) is Ok ==> {
            let h = t.spec_find_by_endpoint(endpoint)->Ok_0;
            &&& !(h.state is Closed || h.state is Faulted)
            &&& h.endpoint is Some
            &&& same_endpoint(h.endpoint.unwrap(), endpoint)
            &&& exists|i: int| 0 <= i < N && t.slot_view()[i] == Some(h)
        },
{
    let s = t.slot_view();
    assert(s.len() == N) by {
        assert(t.sockets@.len() == N);
    }
    lemma_first_index_exists(s, has_socket_id(id));
    lemma_first_index_exists(s, bound_to(endpoint));
    lemma_first_index(s, has_socket_id(id));
    lemma_first_index(s, bound_to(endpoint));
    if exists|i: int| 0 <= i < N && (#[trigger] s[i]) is Some && s[i].unwrap().id == id {
        let i = choose|i: int| 0 <= i < N && (#[trigger] s[i]) is Some && s[i].unwrap().id == id;
        assert(has_socket_id::<'a>(id)(s[i]));
    }
    if exists|i: int|
        0 <= i < N && (#[trigger] s[i]) is Some && !(s[i].unwrap().state is Closed
            || s[i].unwrap().state is Faulted) && s[i].unwrap().endpoint is Some && same_endpoint(
            s[i].unwrap().endpoint.unwrap(),
            endpoint,
        ) {
        let i = choose|i: int|
            0 <= i < N && (#[trigger] s[i]) is Some && !(s[i].unwrap().state is Closed
                || s[i].unwrap().state is Faulted) && s[i].unwrap().endpoint is Some && same_endpoint(
                s[i].unwrap().endpoint.unwrap(),
                endpoint,
            );
        assert(bound_to::<'a>(endpoint)(s[i]));
    }
    let k1 = first_index(s, has_socket_id(id));
    if k1 < N {
        assert(has_socket_id::<'a>(id)(s[k1]));
    }
    let k2 = first_index(s, bound_to(endpoint));
    if k2 < N {
        assert(bound_to::<'a>(endpoint)(s[k2]));
    }
}

/// Removing a socket makes its identifier unknown to the table when the
/// identifier was held by one socket only: after the slot of the first match
/// is vacated no match remains.
pub proof fn lemma_removed_socket_is_gone<'a>(s: Seq<Option<SocketHandle<'a>>>, id: SocketId)
    requires
        first_index(s, has_socket_id(id)) < s.len(),
        forall|i: int, j: int|
            0 <= i < s.len() && 0 <= j < s.len() && #[trigger] has_socket_id(id)(s[i])
                && #[trigger] has_socket_id(id)(s[j]) ==> i == j,
    ensures
        first_index(s.update(first_index(s, has_socket_id(id)), None), has_socket_id(id))
            == s.len(),
{
    let k = first_index(s, has_socket_id(id));
    lemma_first_index(s, has_socket_id(id));
    let s2 = s.update(k, None);
    lemma_first_index(s2, has_socket_id(id));
    let k2 = first_index(s2, has_socket_id(id));
    if k2 < s2.len() {
        assert(has_socket_id(id)(s[k2]));
    }
}

} // verus!

use alani_network::{
    LoopbackDescriptor, PacketDescriptor, ProtocolDescriptor, SocketDescriptor, SocketTableDescriptor,
    component_info, module_names, network_catalog, repository_name, validate_network_label,
    validate_redaction, AddressKind, ComponentStatus, DataClass, LoopbackDevice, LoopbackQueue,
    LoopbackState, NetworkAddress, NetworkError, NetworkRights, PacketBuffer, PacketFlags,
    PacketId, PacketProtocol, PacketQueue, ProtocolAdapter, ProtocolCapabilities,
    ProtocolRegistry, ProtocolState, RedactionState, SocketEndpoint, SocketFlags, SocketHandle,
    SocketId, SocketOperation, SocketOptions, SocketRequest, SocketState, SocketTable, SocketType,
    TraceContext, TransportProtocol, NETWORK_KNOWN_RIGHTS, NETWORK_RIGHT_AUDIT, NETWORK_RIGHT_BIND,
    NETWORK_RIGHT_CONNECT, NETWORK_RIGHT_LISTEN, NETWORK_RIGHT_LOOPBACK, NETWORK_RIGHT_RAW_PACKET,
    NETWORK_RIGHT_READ, NETWORK_RIGHT_RECEIVE, NETWORK_RIGHT_SEND, PACKET_FLAG_CONTROL,
    PACKET_FLAG_ENCRYPTED, PROTOCOL_CAP_CHECKSUM, PROTOCOL_CAP_DATAGRAM, PROTOCOL_CAP_LOOPBACK_ONLY,
    SOCKET_FLAG_AUDIT_REQUIRED, SOCKET_FLAG_LISTEN, TRACE_FLAG_SAMPLED,
};

fn loopback_packet<'a>(id: u64, payload: &'a [u8]) -> PacketBuffer<'a> {
    PacketBuffer::new(
        PacketId::new(id).expect("valid packet id"),
        NetworkAddress::loopback(7),
        NetworkAddress::loopback(8),
        PacketProtocol::Loopback,
        payload,
    )
}

fn all_rights() -> NetworkRights {
    NetworkRights(NETWORK_KNOWN_RIGHTS)
}

#[test]
fn identity_helpers_report_stable_names() {
    assert_eq!(repository_name(), "alani-network");
    assert_eq!(module_names().len(), 4);
    assert_eq!(module_names()[2], "loopback");
    let info = component_info();
    assert_eq!(info.repository, "alani-network");
    assert_eq!(info.version, "0.1.0");
    assert_eq!(info.status, ComponentStatus::Experimental);
    let catalog = network_catalog();
    assert_eq!(catalog.packet_schema, "alani.network.packet.v1");
    assert_eq!(catalog.rights, NETWORK_KNOWN_RIGHTS);
    let mut broken = catalog;
    broken.version = "";
    assert_eq!(broken.validate(), Err(NetworkError::MissingField));
    let mut reserved = catalog;
    reserved.features = 1 << 20;
    assert_eq!(reserved.validate(), Err(NetworkError::ReservedBits));
}

#[test]
fn error_reasons_and_security_relevance() {
    assert_eq!(NetworkError::MissingField.reason(), "missing_field");
    assert_eq!(NetworkError::EndpointInUse.reason(), "endpoint_in_use");
    assert_eq!(NetworkError::Internal.reason(), "internal");
    assert!(NetworkError::AccessDenied.is_security_relevant());
    assert!(NetworkError::EncryptionRequired.is_security_relevant());
    assert!(!NetworkError::SocketNotFound.is_security_relevant());
    assert!(!NetworkError::MissingField.is_security_relevant());
    assert_eq!(DataClass::Secret.label(), "secret");
    assert!(DataClass::Sensitive.requires_redaction());
    assert!(!DataClass::Operational.requires_redaction());
    assert_eq!(RedactionState::UnredactedSensitive.label(), "unredacted_sensitive");
}

#[test]
fn trace_contexts_root_and_child_stay_valid() {
    let root = TraceContext::root(5, 6);
    assert!(root.is_present());
    assert_eq!(root.flags, TRACE_FLAG_SAMPLED);
    assert_eq!(root.validate(), Ok(()));
    let child = root.child(7);
    assert_eq!(child.trace_id, 5);
    assert_eq!(child.parent_span_id, 6);
    assert_eq!(child.validate(), Ok(()));
    let looped = root.child(6);
    assert_eq!(looped.validate(), Err(NetworkError::InvalidTrace));
    let empty = TraceContext::default();
    assert!(!empty.is_present());
    assert_eq!(empty.validate(), Ok(()));
    let reserved = TraceContext { flags: 1 << 9, ..root };
    assert_eq!(reserved.validate(), Err(NetworkError::ReservedBits));
}

#[test]
fn rights_union_and_require_behave_as_sets() {
    let read = NetworkRights(NETWORK_RIGHT_READ);
    let send = NetworkRights(NETWORK_RIGHT_SEND);
    let both = read.union(send);
    assert_eq!(both.bits(), NETWORK_RIGHT_READ | NETWORK_RIGHT_SEND);
    assert!(both.contains(read));
    assert!(both.contains(send));
    assert_eq!(both.require(send), Ok(()));
    assert_eq!(read.require(send), Err(NetworkError::AccessDenied));
    assert_eq!(all_rights().require(both), Ok(()));
    assert_eq!(NetworkRights(1 << 40).require(read), Err(NetworkError::ReservedBits));
    assert_eq!(read.require(NetworkRights(1 << 40)), Err(NetworkError::ReservedBits));
    assert_eq!(NetworkRights::from_bits(1 << 11), Err(NetworkError::ReservedBits));
    assert_eq!(NetworkRights::from_bits(3), Ok(both));
    assert_eq!(NetworkRights(1 << 11).validate(), Err(NetworkError::ReservedBits));
}

#[test]
fn redaction_table_is_exact() {
    let states = [
        RedactionState::Public,
        RedactionState::Operational,
        RedactionState::SensitiveRedacted,
        RedactionState::SecretRedacted,
        RedactionState::UnredactedSensitive,
    ];
    let classes = [
        DataClass::Public,
        DataClass::Operational,
        DataClass::Sensitive,
        DataClass::Secret,
    ];
    let mut accepted = 0;
    for class in classes {
        for state in states {
            if validate_redaction(class, state).is_ok() {
                accepted += 1;
                assert_ne!(state, RedactionState::UnredactedSensitive);
                if class.requires_redaction() {
                    assert!(matches!(
                        state,
                        RedactionState::SensitiveRedacted | RedactionState::SecretRedacted
                    ));
                }
            } else {
                assert_eq!(
                    validate_redaction(class, state),
                    Err(NetworkError::InvalidRedaction)
                );
            }
        }
    }
    assert_eq!(accepted, 5);
}

#[test]
fn network_labels_fail_closed() {
    assert_eq!(validate_network_label("", 8), Err(NetworkError::MissingField));
    assert_eq!(validate_network_label("abcdefghi", 8), Err(NetworkError::FieldTooLong));
    assert_eq!(validate_network_label("a b", 8), Err(NetworkError::InvalidLabel));
    assert_eq!(validate_network_label("é", 8), Err(NetworkError::InvalidLabel));
    assert_eq!(validate_network_label("svc:a_b-c.d/e@f", 32), Ok(()));
    assert_eq!(validate_network_label("abcdefgh", 8), Ok(()));
}

#[test]
fn packet_validation_reports_each_error() {
    let payload = b"data";
    let good = loopback_packet(1, payload);
    assert_eq!(good.validate(), Ok(()));
    assert_eq!(good.payload_len, 4);
    assert_eq!(good.capacity, 4);
    assert!(!good.requires_audit());

    let mut bad_id = good;
    bad_id.id = PacketId(0);
    assert_eq!(bad_id.validate(), Err(NetworkError::InvalidPacket));
    assert_eq!(PacketId::new(0), Err(NetworkError::InvalidPacket));

    let mut no_port = good;
    no_port.source = NetworkAddress::new(AddressKind::Ipv4, "10.0.0.1", 0);
    assert_eq!(no_port.validate(), Err(NetworkError::InvalidAddress));
    assert_eq!(
        NetworkAddress::new(AddressKind::LinkLocal, "eth0", 0).validate(),
        Ok(())
    );

    let mut wrong_len = good;
    wrong_len.payload_len = 3;
    assert_eq!(wrong_len.validate(), Err(NetworkError::InvalidPacket));

    let oversized = good.with_capacity(5000);
    assert_eq!(oversized.validate(), Err(NetworkError::PayloadTooLarge));

    let low_priority = good.with_priority(8);
    assert_eq!(low_priority.validate(), Err(NetworkError::InvalidPacket));
    assert_eq!(good.with_priority(7).validate(), Ok(()));

    let mut off_loop = good;
    off_loop.destination = NetworkAddress::new(AddressKind::Ipv4, "10.0.0.2", 9);
    assert_eq!(off_loop.validate(), Err(NetworkError::LoopbackOnly));

    let mut control = good;
    control.protocol = PacketProtocol::Icmp;
    assert_eq!(control.validate(), Err(NetworkError::InvalidPacket));
    assert_eq!(
        control.with_flags(PacketFlags(PACKET_FLAG_CONTROL)).validate(),
        Ok(())
    );

    let reserved = good.with_flags(PacketFlags(1 << 12));
    assert_eq!(reserved.validate(), Err(NetworkError::ReservedBits));

    let mislabelled = good.with_classification(DataClass::Public, RedactionState::Operational);
    assert_eq!(mislabelled.validate(), Err(NetworkError::InvalidRedaction));

    let bad_trace = good.with_trace(TraceContext {
        trace_id: 0,
        span_id: 3,
        parent_span_id: 0,
        flags: 0,
    });
    assert_eq!(bad_trace.validate(), Err(NetworkError::InvalidTrace));

    let sensitive =
        good.with_classification(DataClass::Sensitive, RedactionState::SensitiveRedacted);
    assert!(sensitive.requires_audit());
    assert_eq!(sensitive.with_sequence(9).sequence, 9);
}

#[test]
fn flag_sets_union_and_reject_reserved_bits() {
    let both = PacketFlags(PACKET_FLAG_CONTROL).union(PacketFlags(PACKET_FLAG_ENCRYPTED));
    assert!(both.contains(PacketFlags(PACKET_FLAG_CONTROL)));
    assert!(both.contains(PacketFlags(PACKET_FLAG_ENCRYPTED)));
    assert_eq!(both.bits(), PACKET_FLAG_CONTROL | PACKET_FLAG_ENCRYPTED);
    assert_eq!(PacketFlags::from_bits(1 << 8), Err(NetworkError::ReservedBits));
    assert_eq!(SocketFlags::from_bits(1 << 6), Err(NetworkError::ReservedBits));
    assert_eq!(SocketFlags::from_bits(1), Ok(SocketFlags(1)));
    assert_eq!(
        ProtocolCapabilities::from_bits(1 << 9),
        Err(NetworkError::ReservedBits)
    );
    assert_eq!(ProtocolCapabilities(1 << 9).validate(), Err(NetworkError::ReservedBits));
}

#[test]
fn packet_queue_is_fifo_across_wraparound() {
    let mut queue: PacketQueue<'_, 3> = PacketQueue::default();
    assert!(queue.is_empty());
    assert_eq!(queue.capacity(), 3);
    assert_eq!(queue.peek(), None);
    assert_eq!(queue.push(loopback_packet(1, b"a")), Ok(()));
    assert_eq!(queue.push(loopback_packet(2, b"bb")), Ok(()));
    assert_eq!(queue.push(loopback_packet(3, b"ccc")), Ok(()));
    assert_eq!(queue.pop().map(|p| p.id.get()), Ok(1));
    assert_eq!(queue.push(loopback_packet(4, b"dddd")), Ok(()));
    assert_eq!(queue.slots()[0].map(|p| p.id.get()), Some(4));
    assert_eq!(queue.len(), 3);
    assert_eq!(queue.pop().map(|p| p.id.get()), Ok(2));
    assert_eq!(queue.pop().map(|p| p.id.get()), Ok(3));
    assert_eq!(queue.pop().map(|p| p.id.get()), Ok(4));
    assert_eq!(queue.pop(), Err(NetworkError::PacketUnavailable));
    assert_eq!(queue.stats().bytes_queued, 10);
    assert_eq!(queue.stats().bytes_dequeued, 10);
    assert_eq!(queue.stats().drops, 0);

    let mut bad = loopback_packet(5, b"x");
    bad.priority = 9;
    assert_eq!(queue.push(bad), Err(NetworkError::InvalidPacket));
    assert_eq!(queue.stats().drops, 0);
    assert!(queue.is_empty());

    let mut none: PacketQueue<'_, 0> = PacketQueue::new();
    assert_eq!(none.push(loopback_packet(6, b"y")), Err(NetworkError::CapacityExceeded));
    assert_eq!(none.pop(), Err(NetworkError::PacketUnavailable));
}

#[test]
fn loopback_queue_states_gate_io() {
    let rights = NetworkRights(NETWORK_RIGHT_SEND | NETWORK_RIGHT_RECEIVE | NETWORK_RIGHT_LOOPBACK);
    let mut down: LoopbackQueue<'_, 2> = LoopbackQueue::down();
    assert_eq!(down.state(), LoopbackState::Down);
    assert_eq!(
        down.enqueue(rights, loopback_packet(1, b"a")),
        Err(NetworkError::DeviceUnavailable)
    );
    assert_eq!(down.stats().drops, 1);
    assert_eq!(down.dequeue(rights), Err(NetworkError::DeviceUnavailable));
    assert_eq!(
        down.bring_up(NetworkRights(NETWORK_RIGHT_SEND)),
        Err(NetworkError::AccessDenied)
    );
    assert_eq!(down.bring_up(rights), Ok(()));
    assert_eq!(down.state(), LoopbackState::Up);

    assert_eq!(down.enqueue(rights, loopback_packet(2, b"round")), Ok(()));
    assert_eq!(down.dequeue(rights).map(|p| p.id.get()), Ok(2));
    assert!(down.is_empty());
    assert_eq!(down.stats().bytes_sent, 5);
    assert_eq!(down.stats().bytes_received, 5);

    assert_eq!(down.seal(rights), Ok(()));
    assert_eq!(down.state(), LoopbackState::Sealed);
    assert_eq!(
        down.enqueue(rights, loopback_packet(3, b"a")),
        Err(NetworkError::Sealed)
    );
    assert_eq!(down.dequeue(rights), Err(NetworkError::Sealed));
    assert_eq!(down.bring_up(rights), Err(NetworkError::Sealed));
    assert_eq!(down.state(), LoopbackState::Sealed);
    assert_eq!(down.capacity(), 2);
    assert_eq!(down.len(), 0);
    assert_eq!(LoopbackState::Sealed.label(), "sealed");
    assert!(!LoopbackState::Down.allows_io());
}

#[test]
fn loopback_device_checks_label_then_queue() {
    let rights = NetworkRights(NETWORK_RIGHT_SEND | NETWORK_RIGHT_RECEIVE | NETWORK_RIGHT_LOOPBACK);
    let mut device: LoopbackDevice<'_, 2> = LoopbackDevice::builtin();
    assert_eq!(device.label, "loopback0");
    assert_eq!(device.validate(), Ok(()));
    assert_eq!(device.send(rights, loopback_packet(9, b"hi")), Ok(()));
    assert_eq!(device.receive(rights).map(|p| p.id.get()), Ok(9));
    assert_eq!(device.receive(rights), Err(NetworkError::PacketUnavailable));

    let mut unnamed: LoopbackDevice<'_, 2> = LoopbackDevice::new("");
    assert_eq!(
        unnamed.send(rights, loopback_packet(10, b"hi")),
        Err(NetworkError::MissingField)
    );
    assert_eq!(unnamed.queue.len(), 0);
    let traced = LoopbackDevice::<'_, 2>::new("lo1").with_trace(TraceContext::root(1, 2));
    assert_eq!(traced.trace.span_id, 2);
}

#[test]
fn socket_lifecycle_transitions_are_exact() {
    let rights = NetworkRights(
        NETWORK_RIGHT_READ | NETWORK_RIGHT_BIND | NETWORK_RIGHT_LISTEN | NETWORK_RIGHT_CONNECT,
    );
    let mut socket = SocketHandle::new(SocketId(20), "svc:test", SocketType::Datagram, rights);
    assert_eq!(socket.state, SocketState::Created);
    assert!(!socket.is_open());
    assert_eq!(socket.listen(4), Err(NetworkError::InvalidSocket));
    assert_eq!(
        socket.bind(SocketEndpoint::new(
            NetworkAddress::loopback(80),
            TransportProtocol::Tcp
        )),
        Err(NetworkError::InvalidSocket)
    );
    assert_eq!(socket.state, SocketState::Created);
    assert_eq!(socket.bind(SocketEndpoint::loopback(80)), Ok(()));
    assert_eq!(socket.bind(SocketEndpoint::loopback(81)), Err(NetworkError::InvalidSocket));
    assert_eq!(socket.listen(0), Err(NetworkError::InvalidSocket));
    assert_eq!(socket.listen(2000), Err(NetworkError::InvalidSocket));
    assert_eq!(socket.listen(16), Ok(()));
    assert_eq!(socket.options.backlog, 16);
    assert!(socket.flags.contains(SocketFlags(SOCKET_FLAG_LISTEN)));
    assert_eq!(socket.state, SocketState::Listening);
    assert!(socket.is_open());
    assert_eq!(socket.close(), Ok(()));
    assert_eq!(socket.close(), Err(NetworkError::SocketClosed));

    let mut bad_options = SocketHandle::new(SocketId(21), "svc:test", SocketType::Stream, rights)
        .with_options(SocketOptions::new(0, 10));
    assert_eq!(
        bad_options.bind(SocketEndpoint::loopback(90)),
        Err(NetworkError::InvalidSocket)
    );
    assert_eq!(SocketOptions::default().validate(), Ok(()));
    assert_eq!(
        SocketOptions::default().with_ttl(0).validate(),
        Err(NetworkError::InvalidSocket)
    );
    assert_eq!(
        SocketOptions::default().with_backlog(1025).validate(),
        Err(NetworkError::InvalidSocket)
    );
    assert!(SocketType::Raw.supports(TransportProtocol::Raw));
    assert!(!SocketType::Stream.supports(TransportProtocol::Udp));
}

#[test]
fn socket_requests_gate_rights_and_state() {
    let rights = all_rights();
    let mut socket = SocketHandle::new(SocketId(30), "svc:req", SocketType::Datagram, rights);
    let create = SocketRequest::new(SocketOperation::Create, socket, NetworkRights(NETWORK_RIGHT_READ));
    assert_eq!(create.validate(), Ok(()));
    assert!(!create.requires_audit());
    let receive = SocketRequest::new(SocketOperation::Receive, socket, rights);
    assert_eq!(receive.validate(), Err(NetworkError::InvalidSocket));
    let send = SocketRequest::new(SocketOperation::Send, socket, rights);
    assert_eq!(send.validate(), Err(NetworkError::InvalidPacket));

    socket.bind(SocketEndpoint::loopback(100)).expect("bind");
    let packet = loopback_packet(31, b"raw");
    let raw_rights = NetworkRights(NETWORK_RIGHT_RAW_PACKET | NETWORK_RIGHT_AUDIT);
    let mut raw_socket = socket;
    raw_socket.rights = raw_rights;
    let raw = SocketRequest::new(SocketOperation::RawPacket, raw_socket, raw_rights)
        .with_packet(packet);
    assert!(raw.requires_audit());
    assert_eq!(raw.validate(), Ok(()));
    let raw_no_audit = SocketRequest::new(
        SocketOperation::RawPacket,
        raw_socket,
        NetworkRights(NETWORK_RIGHT_RAW_PACKET),
    )
    .with_packet(packet);
    assert_eq!(raw_no_audit.validate(), Err(NetworkError::AccessDenied));

    let audited = socket.with_flags(SocketFlags(SOCKET_FLAG_AUDIT_REQUIRED));
    assert!(SocketRequest::new(SocketOperation::Send, audited, rights).requires_audit());

    socket.close().expect("close");
    let after_close = SocketRequest::new(SocketOperation::Send, socket, rights).with_packet(packet);
    assert_eq!(after_close.validate(), Err(NetworkError::SocketClosed));
    let close_again = SocketRequest::new(SocketOperation::Close, socket, rights);
    assert_eq!(close_again.validate(), Ok(()));
    assert_eq!(
        SocketRequest::new(SocketOperation::Close, socket, rights)
            .with_trace(TraceContext { trace_id: 1, span_id: 0, parent_span_id: 0, flags: 0 })
            .validate(),
        Err(NetworkError::InvalidTrace)
    );
    assert_eq!(SocketOperation::RawPacket.label(), "raw_packet");
    assert_eq!(
        SocketOperation::Shutdown.required_rights(),
        NetworkRights(NETWORK_RIGHT_CONNECT)
    );
    assert!(SocketOperation::Configure.is_audit_relevant());
    assert!(!SocketOperation::Send.is_audit_relevant());
}

#[test]
fn socket_table_reads_back_what_it_stores() {
    let rights = NetworkRights(NETWORK_RIGHT_READ | NETWORK_RIGHT_BIND);
    let mut a = SocketHandle::new(SocketId(1), "svc:a", SocketType::Datagram, rights);
    a.bind(SocketEndpoint::loopback(5000)).expect("bind a");
    let b = SocketHandle::new(SocketId(2), "svc:b", SocketType::Datagram, rights);
    let c = SocketHandle::new(SocketId(3), "svc:c", SocketType::Datagram, rights);

    let mut table: SocketTable<'_, 2> = SocketTable::default();
    assert_eq!(table.capacity(), 2);
    assert_eq!(table.insert(a), Ok(()));
    assert_eq!(table.insert(b), Ok(()));
    assert_eq!(table.insert(c), Err(NetworkError::CapacityExceeded));
    assert_eq!(table.len(), 2);
    assert_eq!(table.stats().active, 2);
    assert_eq!(table.stats().inserted, 2);
    assert_eq!(table.get(SocketId(2)), Ok(b));
    assert_eq!(table.get(SocketId(0)), Err(NetworkError::InvalidSocket));

    {
        let handle = table.get_mut(SocketId(1)).expect("present");
        handle.close().expect("close");
    }
    assert_eq!(table.get(SocketId(1)).map(|h| h.state), Ok(SocketState::Closed));
    assert_eq!(
        table.find_by_endpoint(SocketEndpoint::loopback(5000)),
        Err(NetworkError::SocketNotFound)
    );
    assert!(table.get_mut(SocketId(9)).is_err());

    assert_eq!(table.remove(SocketId(2)), Ok(b));
    assert_eq!(table.remove(SocketId(2)), Err(NetworkError::SocketNotFound));
    assert!(table.slots()[1].is_none());
    assert_eq!(table.insert(c), Ok(()));
    assert_eq!(table.slots()[1], Some(c));
    assert_eq!(table.stats().removed, 1);
    assert!(!table.is_empty());
}

#[test]
fn protocol_registry_find_and_capacity() {
    let mut registry: ProtocolRegistry<'_, 1> = ProtocolRegistry::default();
    assert!(registry.is_empty());
    let udp = ProtocolAdapter::new("udp", "1.0", TransportProtocol::Udp)
        .with_state(ProtocolState::Enabled);
    let tcp = ProtocolAdapter::new("tcp", "1.0", TransportProtocol::Tcp);
    assert_eq!(registry.register(udp), Ok(()));
    assert_eq!(registry.register(tcp), Err(NetworkError::CapacityExceeded));
    assert_eq!(registry.find("udp"), Ok(udp));
    assert_eq!(registry.find("tcp"), Err(NetworkError::ProtocolNotFound));
    assert_eq!(registry.find("bad name"), Err(NetworkError::InvalidLabel));
    assert_eq!(registry.len(), 1);
    assert_eq!(registry.slots()[0], Some(udp));

    let invalid = ProtocolAdapter::new("raw", "1.0", TransportProtocol::Raw)
        .with_capabilities(ProtocolCapabilities(PROTOCOL_CAP_DATAGRAM));
    assert_eq!(invalid.validate(), Err(NetworkError::InvalidProtocol));
    let no_payload = udp.with_max_payload_len(0);
    assert_eq!(no_payload.validate(), Err(NetworkError::InvalidProtocol));
    let no_port = udp.with_default_port(0);
    assert_eq!(no_port.validate(), Err(NetworkError::InvalidProtocol));
    let leaked = udp.with_classification(DataClass::Secret, RedactionState::Public);
    assert_eq!(leaked.validate(), Err(NetworkError::InvalidRedaction));
    assert!(udp.is_selectable());
    assert!(!tcp.is_selectable());

    let mut loopback_only = ProtocolRegistry::<'_, 2>::new();
    let lo = ProtocolAdapter::new("lo", "1.0", TransportProtocol::Loopback)
        .with_state(ProtocolState::Enabled);
    loopback_only.register(lo).expect("register");
    let off_path = PacketBuffer::new(
        PacketId(77),
        NetworkAddress::new(AddressKind::Ipv4, "10.0.0.1", 7),
        NetworkAddress::new(AddressKind::Ipv4, "10.0.0.2", 8),
        PacketProtocol::Udp,
        b"x",
    );
    assert_eq!(
        loopback_only.select_for_packet(off_path),
        Err(NetworkError::ProtocolNotFound)
    );
    assert_eq!(
        loopback_only.select_for_packet(loopback_packet(78, b"y")),
        Ok(lo)
    );
}

#[test]
fn transport_defaults_are_consistent() {
    let all = [
        TransportProtocol::Loopback,
        TransportProtocol::Udp,
        TransportProtocol::Tcp,
        TransportProtocol::Icmp,
        TransportProtocol::Raw,
        TransportProtocol::Control,
    ];
    for transport in all {
        assert!(transport.accepts_packet_protocol(transport.packet_protocol()));
        assert_eq!(transport.default_capabilities().validate(), Ok(()));
        if transport.requires_port() {
            assert_ne!(transport.default_port(), 0);
        }
    }
    assert_eq!(
        TransportProtocol::Loopback.default_capabilities(),
        ProtocolCapabilities(PROTOCOL_CAP_DATAGRAM | PROTOCOL_CAP_LOOPBACK_ONLY | PROTOCOL_CAP_CHECKSUM)
    );
    assert_eq!(TransportProtocol::Udp.default_port(), 9);
    assert!(TransportProtocol::Raw.accepts_packet_protocol(PacketProtocol::Ipv6));
    assert_eq!(TransportProtocol::Raw.label(), "raw");
    assert_eq!(ProtocolState::Deprecated.label(), "deprecated");
    assert!(ProtocolCapabilities(PROTOCOL_CAP_LOOPBACK_ONLY).union(ProtocolCapabilities(1)).contains(ProtocolCapabilities(1)));
    assert_eq!(PacketProtocol::Icmp.label(), "icmp");
    assert!(PacketProtocol::Icmp.is_control());
    assert_eq!(AddressKind::LinkLocal.label(), "link_local");
    assert!(!AddressKind::LinkLocal.requires_port());
}

#[test]
fn cloned_collections_behave_like_the_original() {
    let rights = NetworkRights(NETWORK_RIGHT_SEND | NETWORK_RIGHT_RECEIVE | NETWORK_RIGHT_LOOPBACK);
    let mut queue: LoopbackQueue<'_, 2> = LoopbackQueue::new();
    queue.enqueue(rights, loopback_packet(40, b"a")).expect("enqueue");
    let mut copy = queue.clone();
    assert_eq!(copy.len(), 1);
    assert_eq!(copy.dequeue(rights).map(|p| p.id.get()), Ok(40));
    assert_eq!(queue.len(), 1);

    let mut packets: PacketQueue<'_, 2> = PacketQueue::new();
    packets.push(loopback_packet(41, b"b")).expect("push");
    let mut packets_copy = packets.clone();
    assert_eq!(packets_copy.pop().map(|p| p.id.get()), Ok(41));
    assert_eq!(packets.len(), 1);

    let mut table: SocketTable<'_, 1> = SocketTable::new();
    let handle = SocketHandle::new(SocketId(42), "svc:copy", SocketType::Datagram, all_rights());
    table.insert(handle).expect("insert");
    let mut table_copy = table.clone();
    assert_eq!(table_copy.remove(SocketId(42)), Ok(handle));
    assert_eq!(table.len(), 1);

    let mut registry: ProtocolRegistry<'_, 1> = ProtocolRegistry::new();
    registry
        .register(ProtocolAdapter::new("udp", "1.0", TransportProtocol::Udp))
        .expect("register");
    let registry_copy = registry.clone();
    assert_eq!(registry_copy.len(), 1);
    assert_eq!(registry_copy, registry);
}

#[test]
fn named_constant_values_match_their_bits() {
    assert_eq!(NetworkRights::none(), NetworkRights(0));
    assert_eq!(NetworkRights::read(), NetworkRights(NETWORK_RIGHT_READ));
    assert_eq!(NetworkRights::raw_packet(), NetworkRights(NETWORK_RIGHT_RAW_PACKET));
    assert_eq!(NetworkRights::administrator(), NetworkRights(NETWORK_KNOWN_RIGHTS));
    assert_eq!(NetworkRights::administrator().require(NetworkRights::admin()), Ok(()));
    assert_eq!(PacketFlags::empty(), PacketFlags(0));
    assert_eq!(PacketFlags::control(), PacketFlags(PACKET_FLAG_CONTROL));
    assert_eq!(PacketFlags::encrypted(), PacketFlags(PACKET_FLAG_ENCRYPTED));
    assert_eq!(PacketFlags::checksummed().bits(), 1 << 7);
    assert_eq!(SocketFlags::listen(), SocketFlags(SOCKET_FLAG_LISTEN));
    assert_eq!(SocketFlags::privileged().bits(), 1 << 5);
    assert_eq!(ProtocolCapabilities::raw().bits(), 1 << 8);
    assert_eq!(
        ProtocolCapabilities::loopback_only(),
        ProtocolCapabilities(PROTOCOL_CAP_LOOPBACK_ONLY)
    );
    assert_eq!(PacketId::invalid().validate(), Err(NetworkError::InvalidPacket));
    assert_eq!(SocketId::invalid().validate(), Err(NetworkError::InvalidSocket));
    assert_eq!(TraceContext::empty(), TraceContext::default());
}

#[test]
fn descriptors_and_devices_clone_exactly() {
    let p = PacketDescriptor::new("packet", 1);
    assert_eq!(p.clone(), p);
    let s = SocketDescriptor::new("socket", 2);
    assert_eq!(s.clone(), s);
    let t = SocketTableDescriptor::new("table", 3);
    assert_eq!(t.clone(), t);
    let l = LoopbackDescriptor::new("loopback", 4);
    assert_eq!(l.clone().version, 4);
    let r = ProtocolDescriptor::new("protocol", 5);
    assert_eq!(r.clone().name, "protocol");
    assert_eq!(component_info().clone(), component_info());
    let rights = NetworkRights(NETWORK_RIGHT_SEND | NETWORK_RIGHT_RECEIVE | NETWORK_RIGHT_LOOPBACK);
    let mut device: LoopbackDevice<'_, 2> = LoopbackDevice::builtin();
    device.send(rights, loopback_packet(50, b"z")).expect("send");
    let mut copy = device.clone();
    assert_eq!(copy.receive(rights).map(|p| p.id.get()), Ok(50));
    assert_eq!(device.queue.len(), 1);
}

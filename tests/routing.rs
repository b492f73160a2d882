use fast_transport::dispatch::{bytes_to_string, inbound_data, route_inbound, ConnectionError, Inbound};
use fast_transport::packet::{Packet, ProtocolError};
use fast_transport::registry::{ConnectionMeta, Registry, RegistryError};
use fast_transport::state::{
    handshake_client, handshake_client_hello, handshake_server, handshake_server_ack,
    ConnectionState, HandshakeError,
};

#[test]
fn ids_are_unique_and_never_sentinels() {
    let mut reg: Registry<()> = Registry::new();
    let mut seen = Vec::new();
    for _ in 0..500 {
        let id = reg.next_id().unwrap();
        assert_ne!(id, 0);
        assert_ne!(id, u32::MAX);
        assert!(!seen.contains(&id));
        seen.push(id);
    }
    assert_eq!(seen[0], 1);
    assert_eq!(seen[499], 500);
}

#[test]
fn ids_are_not_reused_after_deregistration() {
    let mut reg: Registry<&str> = Registry::new();
    let mut s1 = ConnectionState::Created;
    let (id1, _) = handshake_server(&mut reg, "a", &mut s1).unwrap();
    assert_eq!(reg.deregister(id1), Some("a"));
    assert_eq!(reg.len(), 0);
    let mut s2 = ConnectionState::Created;
    let (id2, _) = handshake_server(&mut reg, "b", &mut s2).unwrap();
    assert_eq!((id1, id2), (1, 2));
    assert_eq!(reg.len(), 1);
}

#[test]
fn register_refusals() {
    let mut reg: Registry<u8> = Registry::new();
    assert_eq!(reg.register(0, 1), Err(RegistryError::ReservedId));
    assert_eq!(reg.register(u32::MAX, 1), Err(RegistryError::ReservedId));
    assert_eq!(reg.register(9, 1), Ok(()));
    assert_eq!(reg.register(9, 2), Err(RegistryError::AlreadyRegistered));
    assert_eq!(reg.lookup(9), Some(&1));
    assert_eq!(reg.lookup(8), None);
    assert_eq!(reg.deregister(8), None);
}

#[test]
fn connection_meta_accessors() {
    let m = ConnectionMeta::new(4, "route");
    assert_eq!(m.get_id(), 4);
    assert_eq!(*m.get_tx(), "route");
}

#[test]
fn data_for_registered_id_is_delivered_there() {
    let mut reg: Registry<&str> = Registry::new();
    reg.register(7, "seven").unwrap();
    reg.register(8, "eight").unwrap();
    let bytes = Packet::new_data(7, b"x".to_vec()).into_bytes();
    match route_inbound(&reg, &bytes) {
        Inbound::Deliver(id, p) => {
            assert_eq!(id, 7);
            assert_eq!(reg.lookup(id), Some(&"seven"));
            assert_eq!(inbound_data(p).unwrap(), b"x".to_vec());
        }
        other => panic!("{:?}", other),
    }
}

#[test]
fn data_for_unknown_id_is_dropped() {
    let mut reg: Registry<&str> = Registry::new();
    reg.register(8, "eight").unwrap();
    let bytes = Packet::new_data(7, b"x".to_vec()).into_bytes();
    assert!(matches!(route_inbound(&reg, &bytes), Inbound::UnknownConnection(7)));
    let ack = Packet::new_ack(7).into_bytes();
    assert!(matches!(route_inbound(&reg, &ack), Inbound::UnknownConnection(7)));
}

#[test]
fn handshake_packets_route_by_kind() {
    let reg: Registry<()> = Registry::new();
    let hello = Packet::new_client_hello().into_bytes();
    assert!(matches!(route_inbound(&reg, &hello), Inbound::NewConnection));
    let reply = Packet::new_server_hello(42).into_bytes();
    match route_inbound(&reg, &reply) {
        Inbound::HandshakeReply(p) => assert_eq!(p.get_connection_id(), 42),
        other => panic!("{:?}", other),
    }
    assert!(matches!(route_inbound(&reg, &[1, 2, 3]), Inbound::Malformed(ProtocolError::Truncated)));
    let mut bad = Packet::new_ack(1).into_bytes();
    bad[1] = 9;
    assert!(matches!(route_inbound(&reg, &bad), Inbound::Malformed(ProtocolError::UnknownType)));
}

#[test]
fn non_data_packet_on_connection_is_an_error() {
    assert_eq!(
        inbound_data(Packet::new_ack(3)).unwrap_err(),
        ConnectionError::UnexpectedPacketKind
    );
    assert_eq!(inbound_data(Packet::new_data(3, vec![])).unwrap(), Vec::<u8>::new());
}

#[test]
fn server_handshake_needs_conn_ack() {
    let mut reg: Registry<()> = Registry::new();
    let mut state = ConnectionState::Created;
    let (id, _) = handshake_server(&mut reg, (), &mut state).unwrap();
    assert_eq!(state, ConnectionState::Handshaking);
    assert_eq!(
        handshake_server_ack(&mut state, &Packet::new_data(id, vec![1])),
        Err(HandshakeError::Protocol)
    );
    assert_eq!(state, ConnectionState::Handshaking);
    assert_eq!(handshake_server_ack(&mut state, &Packet::new_ack(id)), Ok(()));
    assert_eq!(state, ConnectionState::Connected);
}

#[test]
fn client_handshake_refuses_bad_ids() {
    let mut reg: Registry<()> = Registry::new();
    reg.register(5, ()).unwrap();
    for (id, err) in [
        (0u32, RegistryError::ReservedId),
        (u32::MAX, RegistryError::ReservedId),
        (5, RegistryError::AlreadyRegistered),
    ] {
        let mut state = ConnectionState::Created;
        let _ = handshake_client_hello(&mut state);
        let hello = match route_inbound(&reg, &Packet::new_server_hello(id).into_bytes()) {
            Inbound::HandshakeReply(p) => p,
            other => panic!("{:?}", other),
        };
        assert_eq!(
            handshake_client(&mut reg, &hello, (), &mut state).map(|(i, _)| i),
            Err(HandshakeError::Registry(err))
        );
        assert_eq!(state, ConnectionState::Handshaking);
    }
    assert_eq!(reg.len(), 1);
}

#[test]
fn bytes_to_string_reads_each_byte_as_a_char() {
    assert_eq!(bytes_to_string(vec![104, 105]), "hi");
    assert_eq!(bytes_to_string(vec![0xE9]), "\u{e9}");
    assert_eq!(bytes_to_string(vec![]), "");
}

/// Server endpoint and client endpoint exchange the three handshake packets
/// as bytes, then the client's data reaches the server's connection.
#[test]
fn example_handshake_then_data() {
    let mut server: Registry<&str> = Registry::new();
    let mut client: Registry<&str> = Registry::new();

    let mut client_state = ConnectionState::Created;
    let hello = handshake_client_hello(&mut client_state).into_bytes();

    assert!(matches!(route_inbound(&server, &hello), Inbound::NewConnection));
    let mut server_state = ConnectionState::Created;
    let (server_id, reply) = handshake_server(&mut server, "server-conn", &mut server_state).unwrap();
    assert_eq!(server_id, 1);

    let payload = match route_inbound(&client, &reply.into_bytes()) {
        Inbound::HandshakeReply(p) => p,
        other => panic!("{:?}", other),
    };
    let (client_id, ack) = handshake_client(&mut client, &payload, "client-conn", &mut client_state).unwrap();
    assert_eq!(client_id, 1);
    assert_eq!(client_state, ConnectionState::Connected);

    let ack = match route_inbound(&server, &ack.into_bytes()) {
        Inbound::Deliver(id, p) => {
            assert_eq!(server.lookup(id), Some(&"server-conn"));
            p
        }
        other => panic!("{:?}", other),
    };
    assert_eq!(handshake_server_ack(&mut server_state, &ack), Ok(()));
    assert_eq!(server_state, ConnectionState::Connected);

    let data = Packet::new_data(client_id, b"hi".to_vec()).into_bytes();
    match route_inbound(&server, &data) {
        Inbound::Deliver(id, p) => {
            assert_eq!(id, server_id);
            assert_eq!(inbound_data(p).unwrap(), b"hi".to_vec());
        }
        other => panic!("{:?}", other),
    }
}

//! The connection lifecycle and the decisions of the two handshake roles.
//! Sending and awaiting are left to the caller: each step here takes what
//! arrived and says what to send next.
use vstd::prelude::*;
use crate::packet::{Packet, PacketView, ServerHelloPayload, TYPE_CONN_ACK, TYPE_SERVER_HELLO, mk_header};
use crate::registry::{Registry, RegistryError, is_assignable_id};

verus! {

/// `Created -> Handshaking -> Connected`, never backwards.
#[derive(Debug, Clone, Copy, PartialEq, Eq, Structural)]
pub enum ConnectionState {
    Created,
    Handshaking,
    Connected,
}

impl ConnectionState {
    /// Position in the lifecycle.
    pub open spec fn rank(self) -> nat {
        match self {
            ConnectionState::Created => 0,
            ConnectionState::Handshaking => 1,
            ConnectionState::Connected => 2,
        }
    }
}

/// Why a handshake failed; no connection comes out of a failed one.
#[derive(Debug, Clone, Copy, PartialEq, Eq, Structural)]
pub enum HandshakeError {
    /// A packet of the wrong kind arrived while a handshake waited.
    Protocol,
    /// A send failed while a handshake ran.
    Io,
    /// The registry refused the connection's ID.
    Registry(RegistryError),
}

/// The `ServerHello` that assigns `id`.
pub open spec fn server_hello_view(id: u32) -> PacketView {
    PacketView::ServerHello(mk_header(0, TYPE_SERVER_HELLO, u32::MAX, 2), id)
}

/// The `ConnAck` that confirms `id`.
pub open spec fn conn_ack_view(id: u32) -> PacketView {
    PacketView::ConnAck(mk_header(0, TYPE_CONN_ACK, id, 3))
}

/// Server role, on a `ClientHello`: allocates an ID, registers `route` under
/// it and moves to `Handshaking`. Returns the ID and the `ServerHello` to
/// send back.
pub fn handshake_server<R>(
    registry: &mut Registry<R>,
    route: R,
    state: &mut ConnectionState,
) -> (r: Result<(u32, Packet), HandshakeError>)
    requires
        old(registry).wf(),
        *old(state) == ConnectionState::Created,
    ensures
        final(registry).wf(),
        old(registry).next_free() < u32::MAX ==> final(registry).issued() == old(
            registry,
        ).issued().push(old(registry).next_free()),
        old(registry).next_free() == u32::MAX ==> r == Err::<(u32, Packet), HandshakeError>(
            HandshakeError::Registry(RegistryError::IdsExhausted),
        ),
        old(registry).next_free() < u32::MAX && old(registry).routes().contains_key(
            old(registry).next_free(),
        ) ==> r == Err::<(u32, Packet), HandshakeError>(
            HandshakeError::Registry(RegistryError::AlreadyRegistered),
        ),
        old(registry).next_free() < u32::MAX && !old(registry).routes().contains_key(
            old(registry).next_free(),
        ) ==> r is Ok,
        match r {
            Ok((id, reply)) => {
                &&& id == old(registry).next_free()
                &&& is_assignable_id(id)
                &&& final(registry).routes() == old(registry).routes().insert(id, route)
                &&& reply@ == server_hello_view(id)
                &&& *final(state) == ConnectionState::Handshaking
            },
            Err(_) => {
                &&& final(registry).routes() == old(registry).routes()
                &&& *final(state) == ConnectionState::Created
            },
        },
{
    let id = match registry.next_id() {
        Ok(id) => id,
        Err(e) => return Err(HandshakeError::Registry(e)),
    };
    match registry.register(id, route) {
        Ok(()) => {},
        Err(e) => return Err(HandshakeError::Registry(e)),
    }
    *state = ConnectionState::Handshaking;
    Ok((id, Packet::new_server_hello(id)))
}

/// Server role, on the first packet that reaches the new connection: a
/// `ConnAck` completes the handshake, anything else fails it.
pub fn handshake_server_ack(state: &mut ConnectionState, reply: &Packet) -> (r: Result<
    (),
    HandshakeError,
>)
    requires
        *old(state) == ConnectionState::Handshaking,
    ensures
        reply@ is ConnAck ==> r is Ok && *final(state) == ConnectionState::Connected,
        !(reply@ is ConnAck) ==> r == Err::<(), HandshakeError>(HandshakeError::Protocol)
            && *final(state) == ConnectionState::Handshaking,
{
    match reply {
        Packet::ConnAck(_, _) => {
            *state = ConnectionState::Connected;
            Ok(())
        },
        _ => Err(HandshakeError::Protocol),
    }
}

/// Client role, first step: moves to `Handshaking` and returns the
/// `ClientHello` to send.
pub fn handshake_client_hello(state: &mut ConnectionState) -> (r: Packet)
    requires
        *old(state) == ConnectionState::Created,
    ensures
        r@ == PacketView::ClientHello(mk_header(0, crate::packet::TYPE_CLIENT_HELLO, 0, 0)),
        *final(state) == ConnectionState::Handshaking,
{
    *state = ConnectionState::Handshaking;
    Packet::new_client_hello()
}

/// Client role, on the `ServerHello` taken from the mailbox: registers
/// `route` under the assigned ID and moves to `Connected`. Returns the ID and
/// the `ConnAck` to send.
pub fn handshake_client<R>(
    registry: &mut Registry<R>,
    hello: &ServerHelloPayload,
    route: R,
    state: &mut ConnectionState,
) -> (r: Result<(u32, Packet), HandshakeError>)
    requires
        old(registry).wf(),
        *old(state) == ConnectionState::Handshaking,
    ensures
        final(registry).wf(),
        final(registry).issued() == old(registry).issued(),
        final(registry).next_free() == old(registry).next_free(),
        !is_assignable_id(hello.connection_id) ==> r == Err::<(u32, Packet), HandshakeError>(
            HandshakeError::Registry(RegistryError::ReservedId),
        ),
        is_assignable_id(hello.connection_id) && old(registry).routes().contains_key(
            hello.connection_id,
        ) ==> r == Err::<(u32, Packet), HandshakeError>(
            HandshakeError::Registry(RegistryError::AlreadyRegistered),
        ),
        is_assignable_id(hello.connection_id) && !old(registry).routes().contains_key(
            hello.connection_id,
        ) ==> r is Ok,
        match r {
            Ok((id, ack)) => {
                &&& id == hello.connection_id
                &&& final(registry).routes() == old(registry).routes().insert(id, route)
                &&& ack@ == conn_ack_view(id)
                &&& *final(state) == ConnectionState::Connected
            },
            Err(_) => {
                &&& final(registry).routes() == old(registry).routes()
                &&& *final(state) == ConnectionState::Handshaking
            },
        },
{
    let id = hello.get_connection_id();
    match registry.register(id, route) {
        Ok(()) => {},
        Err(e) => return Err(HandshakeError::Registry(e)),
    }
    *state = ConnectionState::Connected;
    Ok((id, Packet::new_ack(id)))
}

} // verus!

//! What the endpoint's dispatcher does with each inbound datagram, and what a
//! connection does with each packet delivered to it.
use vstd::prelude::*;
use crate::packet::{Packet, PacketView, ProtocolError, ServerHelloPayload, decode, encode};
use crate::registry::Registry;
use crate::state::server_hello_view;

verus! {

/// Where an inbound datagram goes.
#[derive(Debug)]
pub enum Inbound {
    /// The bytes are no packet; the datagram is dropped.
    Malformed(ProtocolError),
    /// A `ClientHello`: start a server handshake with the sender.
    NewConnection,
    /// A `ServerHello`: hand it to the client handshake that waits on the mailbox.
    HandshakeReply(ServerHelloPayload),
    /// Forward the packet to the connection registered under the ID.
    Deliver(u32, Packet),
    /// No connection is registered under the ID; the packet is dropped.
    UnknownConnection(u32),
}

/// Decodes a datagram and decides its route: handshake packets by kind,
/// the others by the connection ID in their header, through `registry`.
pub fn route_inbound<R>(registry: &Registry<R>, datagram: &[u8]) -> (r: Inbound)
    requires
        registry.wf(),
    ensures
        match decode(datagram@) {
            Err(e) => r == Inbound::Malformed(e),
            Ok(PacketView::ClientHello(_)) => r is NewConnection,
            Ok(PacketView::ServerHello(_, id)) => r matches Inbound::HandshakeReply(p)
                && p.connection_id == id,
            Ok(p) => {
                let id = p.header().connection_id;
                if registry.routes().contains_key(id) {
                    r matches Inbound::Deliver(to, q) && to == id && q@ == p
                } else {
                    r == Inbound::UnknownConnection(id)
                }
            },
        },
{
    let packet = match Packet::from_bytes(datagram) {
        Ok(p) => p,
        Err(e) => return Inbound::Malformed(e),
    };
    match packet {
        Packet::ClientHello(_, _) => Inbound::NewConnection,
        Packet::ServerHello(_, payload) => Inbound::HandshakeReply(payload),
        Packet::ConnAck(header, payload) => {
            let id = header.connection_id;
            if registry.lookup(id).is_some() {
                Inbound::Deliver(id, Packet::ConnAck(header, payload))
            } else {
                Inbound::UnknownConnection(id)
            }
        },
        Packet::Data(header, payload) => {
            let id = header.connection_id;
            if registry.lookup(id).is_some() {
                Inbound::Deliver(id, Packet::Data(header, payload))
            } else {
                Inbound::UnknownConnection(id)
            }
        },
    }
}

/// Why a connection could not hand out application bytes.
#[derive(Debug, Clone, Copy, PartialEq, Eq, Structural)]
pub enum ConnectionError {
    /// The other side of a queue is gone.
    ChannelClosed,
    /// A packet other than `Data` reached an established connection.
    UnexpectedPacketKind,
}

/// The application bytes of a packet delivered to an established connection.
pub fn inbound_data(packet: Packet) -> (r: Result<Vec<u8>, ConnectionError>)
    ensures
        match packet@ {
            PacketView::Data(_, d) => r matches Ok(v) && v@ == d,
            _ => r == Err::<Vec<u8>, ConnectionError>(ConnectionError::UnexpectedPacketKind),
        },
{
    match packet {
        Packet::Data(_, payload) => Ok(payload.into_data()),
        _ => Err(ConnectionError::UnexpectedPacketKind),
    }
}

/// The `ServerHello` that a server sends for `id` reaches the client's
/// decoder as a `ServerHello` that carries `id`: both sides name the
/// connection alike.
pub proof fn lemma_server_hello_carries_id(id: u32)
    ensures
        decode(encode(server_hello_view(id))) == Ok::<PacketView, ProtocolError>(
            server_hello_view(id),
        ),
        server_hello_view(id).connection_id() == Some(id),
{
    crate::packet::lemma_decode_encode(server_hello_view(id));
}

/// Appends `c` to `s`.
/// Relies on `String::push`, which appends the character at the end.
#[verifier::external_body]
fn push_char(s: &mut String, c: char)
    ensures
        final(s)@ == old(s)@.push(c),
{
    s.push(c)
}

/// The text with one character per byte, each byte read as the code
/// point of the same value.
pub fn bytes_to_string(bytes: Vec<u8>) -> (r: String)
    ensures
        r@ == bytes@.map_values(|b: u8| b as char),
{
    let mut s = String::new();
    let mut i: usize = 0;
    while i < bytes.len()
        invariant
            i <= bytes@.len(),
            s@ == bytes@.subrange(0, i as int).map_values(|b: u8| b as char),
        decreases bytes@.len() - i,
    {
        push_char(&mut s, bytes[i] as char);
        i = i + 1;
        assert(s@ =~= bytes@.subrange(0, i as int).map_values(|b: u8| b as char));
    }
    assert(bytes@.subrange(0, i as int) =~= bytes@);
    s
}

} // verus!

//! Wire codec: a fixed 13-byte header followed by a type-dependent payload.
use vstd::prelude::*;

verus! {

/// Length in bytes of the packet header on the wire.
pub const HEADER_LEN: usize = 13;

/// Type byte of a `Data` packet.
pub const TYPE_DATA: u8 = 0;

/// Type byte of a `ClientHello` packet.
pub const TYPE_CLIENT_HELLO: u8 = 1;

/// Type byte of a `ServerHello` packet.
pub const TYPE_SERVER_HELLO: u8 = 2;

/// Type byte of a `ConnAck` packet.
pub const TYPE_CONN_ACK: u8 = 3;

/// The four bytes of `x`, most significant first.
pub open spec fn be32(x: u32) -> Seq<u8> {
    seq![(x >> 24u32) as u8, (x >> 16u32) as u8, (x >> 8u32) as u8, x as u8]
}

/// The number whose big-endian bytes are `b[0..4]`.
pub open spec fn u32_of_be(b: Seq<u8>) -> u32
    recommends
        b.len() >= 4,
{
    ((b[0] as u32) << 24u32) | ((b[1] as u32) << 16u32) | ((b[2] as u32) << 8u32) | (b[3] as u32)
}

/// Reading back the big-endian bytes of a number gives the number.
pub proof fn lemma_be32_round_trip(x: u32)
    ensures
        u32_of_be(be32(x)) == x,
        be32(x).len() == 4,
{
    let b = be32(x);
    assert(b[0] == (x >> 24u32) as u8);
    assert(b[1] == (x >> 16u32) as u8);
    assert(b[2] == (x >> 8u32) as u8);
    assert(b[3] == x as u8);
    assert(((((x >> 24u32) as u8) as u32) << 24u32) | ((((x >> 16u32) as u8) as u32) << 16u32)
        | ((((x >> 8u32) as u8) as u32) << 8u32) | ((x as u8) as u32) == x) by (bit_vector);
}

#[derive(Debug, Clone, Copy, PartialEq, Eq, Structural)]
pub struct PacketHeader {
    pub version: u8,
    pub packet_type: u8,
    pub connection_id: u32,
    pub packet_number: u32,
}

/// The header with these four fields.
pub open spec fn mk_header(version: u8, packet_type: u8, connection_id: u32, packet_number: u32) -> PacketHeader {
    PacketHeader { version, packet_type, connection_id, packet_number }
}

/// The 13 header bytes of `h`: version, type, two zero bytes, the connection
/// ID and the packet number (big-endian), one zero byte.
pub open spec fn header_bytes(h: PacketHeader) -> Seq<u8> {
    seq![h.version, h.packet_type, 0u8, 0u8] + be32(h.connection_id) + be32(h.packet_number) + seq![
        0u8,
    ]
}

/// The header read from the first 13 bytes of `b`.
pub open spec fn header_of(b: Seq<u8>) -> PacketHeader
    recommends
        b.len() >= HEADER_LEN,
{
    PacketHeader {
        version: b[0],
        packet_type: b[1],
        connection_id: u32_of_be(b.subrange(4, 8)),
        packet_number: u32_of_be(b.subrange(8, 12)),
    }
}

impl PacketHeader {
    pub fn new(version: u8, packet_type: u8, connection_id: u32, packet_number: u32) -> (r: Self)
        ensures
            r == mk_header(version, packet_type, connection_id, packet_number),
    {
        PacketHeader { version, packet_type, connection_id, packet_number }
    }

    pub fn into_bytes(&self) -> (r: [u8; 13])
        ensures
            r@ == header_bytes(*self),
    {
        let c = self.connection_id;
        let n = self.packet_number;
        let r = [
            self.version,
            self.packet_type,
            0u8,
            0u8,
            (c >> 24u32) as u8,
            (c >> 16u32) as u8,
            (c >> 8u32) as u8,
            c as u8,
            (n >> 24u32) as u8,
            (n >> 16u32) as u8,
            (n >> 8u32) as u8,
            n as u8,
            0u8,
        ];
        assert(r@ =~= header_bytes(*self));
        r
    }
}


/// Why a byte buffer is not a packet.
#[derive(Debug, Clone, Copy, PartialEq, Eq, Structural)]
pub enum ProtocolError {
    /// Fewer bytes than the header, or than the payload that the type asks for.
    Truncated,
    /// A type byte outside the four known kinds.
    UnknownType,
}

#[derive(Debug)]
pub struct ClientHelloPayload {}

#[derive(Debug)]
pub struct ServerHelloPayload {
    pub connection_id: u32,
}

impl ServerHelloPayload {
    pub fn get_connection_id(&self) -> (r: u32)
        ensures
            r == self.connection_id,
    {
        self.connection_id
    }
}

#[derive(Debug)]
pub struct ConnAckPayload {}

#[derive(Debug)]
pub struct DataPayload {
    pub data: Vec<u8>,
}

impl View for DataPayload {
    type V = Seq<u8>;

    open spec fn view(&self) -> Seq<u8> {
        self.data@
    }
}

impl DataPayload {
    pub fn new(data: Vec<u8>) -> (r: Self)
        ensures
            r@ == data@,
    {
        DataPayload { data }
    }

    pub fn get_data(&self) -> (r: &[u8])
        ensures
            r@ == self@,
    {
        self.data.as_slice()
    }

    /// Hands out the payload bytes.
    pub fn into_data(self) -> (r: Vec<u8>)
        ensures
            r@ == self@,
    {
        self.data
    }
}

#[derive(Debug)]
pub enum Packet {
    ClientHello(PacketHeader, ClientHelloPayload),
    ServerHello(PacketHeader, ServerHelloPayload),
    ConnAck(PacketHeader, ConnAckPayload),
    Data(PacketHeader, DataPayload),
}

/// What a packet holds, as plain values.
pub enum PacketView {
    ClientHello(PacketHeader),
    /// The header and the connection ID carried in the payload.
    ServerHello(PacketHeader, u32),
    ConnAck(PacketHeader),
    /// The header and the application bytes.
    Data(PacketHeader, Seq<u8>),
}

impl PacketView {
    pub open spec fn header(self) -> PacketHeader {
        match self {
            PacketView::ClientHello(h) => h,
            PacketView::ServerHello(h, _) => h,
            PacketView::ConnAck(h) => h,
            PacketView::Data(h, _) => h,
        }
    }

    /// The type byte that this variant has on the wire.
    pub open spec fn type_byte(self) -> u8 {
        match self {
            PacketView::Data(..) => TYPE_DATA,
            PacketView::ClientHello(..) => TYPE_CLIENT_HELLO,
            PacketView::ServerHello(..) => TYPE_SERVER_HELLO,
            PacketView::ConnAck(..) => TYPE_CONN_ACK,
        }
    }

    /// The header's type byte names this variant.
    pub open spec fn wf(self) -> bool {
        self.header().packet_type == self.type_byte()
    }

    /// The connection a packet speaks of: none for `ClientHello`, the
    /// assigned one for `ServerHello`, the header's for the others.
    pub open spec fn connection_id(self) -> Option<u32> {
        match self {
            PacketView::ClientHello(_) => None,
            PacketView::ServerHello(_, id) => Some(id),
            PacketView::ConnAck(h) => Some(h.connection_id),
            PacketView::Data(h, _) => Some(h.connection_id),
        }
    }
}

impl View for Packet {
    type V = PacketView;

    open spec fn view(&self) -> PacketView {
        match self {
            Packet::ClientHello(h, _) => PacketView::ClientHello(*h),
            Packet::ServerHello(h, p) => PacketView::ServerHello(*h, p.connection_id),
            Packet::ConnAck(h, _) => PacketView::ConnAck(*h),
            Packet::Data(h, d) => PacketView::Data(*h, d@),
        }
    }
}

/// The bytes of a packet on the wire: the header, then the payload.
pub open spec fn encode(p: PacketView) -> Seq<u8> {
    match p {
        PacketView::ClientHello(h) => header_bytes(h),
        PacketView::ServerHello(h, id) => header_bytes(h) + be32(id),
        PacketView::ConnAck(h) => header_bytes(h),
        PacketView::Data(h, d) => header_bytes(h) + d,
    }
}

/// The packet that a datagram holds; the type byte alone selects the variant.
pub open spec fn decode(b: Seq<u8>) -> Result<PacketView, ProtocolError> {
    if b.len() < HEADER_LEN {
        Err(ProtocolError::Truncated)
    } else {
        let h = header_of(b);
        if h.packet_type == TYPE_DATA {
            Ok(PacketView::Data(h, b.subrange(HEADER_LEN as int, b.len() as int)))
        } else if h.packet_type == TYPE_CLIENT_HELLO {
            Ok(PacketView::ClientHello(h))
        } else if h.packet_type == TYPE_SERVER_HELLO {
            if b.len() < HEADER_LEN + 4 {
                Err(ProtocolError::Truncated)
            } else {
                Ok(PacketView::ServerHello(h, u32_of_be(b.subrange(13, 17))))
            }
        } else if h.packet_type == TYPE_CONN_ACK {
            Ok(PacketView::ConnAck(h))
        } else {
            Err(ProtocolError::UnknownType)
        }
    }
}

/// Appends the four big-endian bytes of `x` to `out`.
fn push_be32(out: &mut Vec<u8>, x: u32)
    ensures
        final(out)@ == old(out)@ + be32(x),
{
    out.push((x >> 24u32) as u8);
    out.push((x >> 16u32) as u8);
    out.push((x >> 8u32) as u8);
    out.push(x as u8);
    assert(final(out)@ =~= old(out)@ + be32(x));
}

/// Reads the big-endian number at `b[at..at + 4]`.
fn read_be32(b: &[u8], at: usize) -> (r: u32)
    requires
        at + 4 <= b@.len(),
    ensures
        r == u32_of_be(b@.subrange(at as int, at + 4)),
{
    proof {
        let s = b@.subrange(at as int, at + 4);
        assert(s[0] == b@[at as int] && s[1] == b@[at + 1] && s[2] == b@[at + 2] && s[3] == b@[at
            + 3]);
    }
    ((b[at] as u32) << 24u32) | ((b[at + 1] as u32) << 16u32) | ((b[at + 2] as u32) << 8u32) | (
    b[at + 3] as u32)
}

/// Appends every byte of `src` to `out`.
fn append_bytes(out: &mut Vec<u8>, src: &[u8])
    ensures
        final(out)@ == old(out)@ + src@,
{
    let mut i: usize = 0;
    while i < src.len()
        invariant
            i <= src@.len(),
            out@ == old(out)@ + src@.subrange(0, i as int),
        decreases src@.len() - i,
    {
        out.push(src[i]);
        i = i + 1;
        assert(out@ =~= old(out)@ + src@.subrange(0, i as int));
    }
    assert(src@.subrange(0, i as int) =~= src@);
}

impl PacketHeader {
    pub fn from_bytes(bytes: &[u8]) -> (r: Self)
        requires
            bytes@.len() >= HEADER_LEN,
        ensures
            r == header_of(bytes@),
    {
        let connection_id = read_be32(bytes, 4);
        let packet_number = read_be32(bytes, 8);
        PacketHeader { version: bytes[0], packet_type: bytes[1], connection_id, packet_number }
    }
}

impl Packet {
    pub fn new_client_hello() -> (r: Self)
        ensures
            r@ == PacketView::ClientHello(mk_header(0, TYPE_CLIENT_HELLO, 0, 0)),
    {
        Packet::ClientHello(PacketHeader::new(0, TYPE_CLIENT_HELLO, 0, 0), ClientHelloPayload {})
    }

    /// The reply that assigns `connection_id`; its header is addressed to
    /// the connection that does not exist yet (`u32::MAX`).
    pub fn new_server_hello(connection_id: u32) -> (r: Self)
        ensures
            r@ == PacketView::ServerHello(
                mk_header(0, TYPE_SERVER_HELLO, u32::MAX, 2),
                connection_id,
            ),
    {
        Packet::ServerHello(
            PacketHeader::new(0, TYPE_SERVER_HELLO, u32::MAX, 2),
            ServerHelloPayload { connection_id },
        )
    }

    pub fn new_ack(connection_id: u32) -> (r: Self)
        ensures
            r@ == PacketView::ConnAck(mk_header(0, TYPE_CONN_ACK, connection_id, 3)),
    {
        Packet::ConnAck(PacketHeader::new(0, TYPE_CONN_ACK, connection_id, 3), ConnAckPayload {})
    }

    /// Application bytes addressed to `connection_id`.
    pub fn new_data(connection_id: u32, data: Vec<u8>) -> (r: Self)
        ensures
            r@ == PacketView::Data(mk_header(0, TYPE_DATA, connection_id, 0), data@),
    {
        Packet::Data(PacketHeader::new(0, TYPE_DATA, connection_id, 0), DataPayload::new(data))
    }

    pub fn get_connection_id(&self) -> (r: Option<u32>)
        ensures
            r == self@.connection_id(),
    {
        match self {
            Packet::ClientHello(_, _) => None,
            Packet::ServerHello(_, payload) => Some(payload.connection_id),
            Packet::ConnAck(header, _) => Some(header.connection_id),
            Packet::Data(header, _) => Some(header.connection_id),
        }
    }

    pub fn into_bytes(&self) -> (r: Vec<u8>)
        ensures
            r@ == encode(self@),
    {
        let mut bytes: Vec<u8> = Vec::new();
        match self {
            Packet::ClientHello(header, _) => {
                append_bytes(&mut bytes, header.into_bytes().as_slice());
            },
            Packet::ServerHello(header, payload) => {
                append_bytes(&mut bytes, header.into_bytes().as_slice());
                push_be32(&mut bytes, payload.connection_id);
            },
            Packet::ConnAck(header, _) => {
                append_bytes(&mut bytes, header.into_bytes().as_slice());
            },
            Packet::Data(header, payload) => {
                append_bytes(&mut bytes, header.into_bytes().as_slice());
                append_bytes(&mut bytes, payload.data.as_slice());
            },
        }
        assert(bytes@ =~= encode(self@));
        bytes
    }

    /// Parses untrusted bytes; never panics.
    pub fn from_bytes(bytes: &[u8]) -> (r: Result<Self, ProtocolError>)
        ensures
            match r {
                Ok(p) => decode(bytes@) == Ok::<PacketView, ProtocolError>(p@),
                Err(e) => decode(bytes@) == Err::<PacketView, ProtocolError>(e),
            },
    {
        if bytes.len() < HEADER_LEN {
            return Err(ProtocolError::Truncated);
        }
        let header = PacketHeader::from_bytes(bytes);
        if header.packet_type == TYPE_DATA {
            let mut data: Vec<u8> = Vec::new();
            append_bytes(&mut data, vstd::slice::slice_subrange(bytes, HEADER_LEN, bytes.len()));
            Ok(Packet::Data(header, DataPayload::new(data)))
        } else if header.packet_type == TYPE_CLIENT_HELLO {
            Ok(Packet::ClientHello(header, ClientHelloPayload {}))
        } else if header.packet_type == TYPE_SERVER_HELLO {
            if bytes.len() < HEADER_LEN + 4 {
                Err(ProtocolError::Truncated)
            } else {
                let connection_id = read_be32(bytes, HEADER_LEN);
                Ok(Packet::ServerHello(header, ServerHelloPayload { connection_id }))
            }
        } else if header.packet_type == TYPE_CONN_ACK {
            Ok(Packet::ConnAck(header, ConnAckPayload {}))
        } else {
            Err(ProtocolError::UnknownType)
        }
    }
}

/// Decoding the encoding of a packet whose header names its own variant
/// gives that packet back.
pub proof fn lemma_decode_encode(p: PacketView)
    requires
        p.wf(),
    ensures
        decode(encode(p)) == Ok::<PacketView, ProtocolError>(p),
{
    let h = p.header();
    let hb = header_bytes(h);
    let b = encode(p);
    lemma_be32_round_trip(h.connection_id);
    lemma_be32_round_trip(h.packet_number);
    assert(b.subrange(0, 13) =~= hb);
    assert(b.subrange(4, 8) =~= be32(h.connection_id));
    assert(b.subrange(8, 12) =~= be32(h.packet_number));
    assert(header_of(b) == h);
    match p {
        PacketView::ServerHello(_, id) => {
            lemma_be32_round_trip(id);
            assert(b.subrange(13, 17) =~= be32(id));
        },
        PacketView::Data(_, d) => {
            assert(b.subrange(13, b.len() as int) =~= d);
        },
        _ => {},
    }
}

/// A buffer shorter than the header is `Truncated`; a longer one whose type
/// byte is none of the four kinds is `UnknownType`.
pub proof fn lemma_decode_rejects(b: Seq<u8>)
    ensures
        b.len() < HEADER_LEN ==> decode(b) == Err::<PacketView, ProtocolError>(
            ProtocolError::Truncated,
        ),
        b.len() >= HEADER_LEN && b[1] > TYPE_CONN_ACK ==> decode(b) == Err::<
            PacketView,
            ProtocolError,
        >(ProtocolError::UnknownType),
{
}

} // verus!

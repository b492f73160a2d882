//! A connection-oriented transport layered over datagrams: the packet wire
//! format, the connection registry, the handshake state machine and the
//! routing decisions of the endpoint dispatcher.
pub mod packet;
pub mod registry;
pub mod state;
pub mod dispatch;

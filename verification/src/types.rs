//! Plain-value types describing a freshly authenticated client and the
//! handoff message that carries it from the accept subsystem into the tick
//! loop.

use vstd::prelude::*;
use crate::limiter::Permit;

verus! {

/// External type: `uuid::Uuid`, the 128-bit client identity assigned during
/// authentication. Carried through the core untouched.
#[verifier::external_type_specification]
#[verifier::external_body]
pub struct ExUuid(uuid::Uuid);

/// The remote address of a client, as plain octets or segments.
#[derive(Clone, Copy, PartialEq, Eq, Structural, Debug)]
pub enum IpAddress {
    V4(u8, u8, u8, u8),
    V6(u16, u16, u16, u16, u16, u16, u16, u16),
}

/// A socket address: an IP address together with a port.
#[derive(Clone, Copy, PartialEq, Eq, Structural, Debug)]
pub struct SocketAddress {
    pub ip: IpAddress,
    pub port: u16,
}

/// How connecting clients are authenticated.
#[derive(Clone, Copy, PartialEq, Eq, Structural, Debug)]
pub enum ConnectionMode {
    /// No authentication; identities are taken as presented.
    Offline,
    /// Full authentication against the session service.
    Online,
    /// Identity is forwarded by a trusted proxy in front of the server.
    Proxy,
}

/// Signed appearance data presented by a client, kept as the opaque payload
/// and signature bytes the authentication step produced.
pub struct SignedPlayerTextures {
    pub payload: Vec<u8>,
    pub signature: Vec<u8>,
}

/// Information about a new client joining the server.
pub struct NewClientInfo {
    /// The username of the new client.
    pub username: String,
    /// The UUID of the new client.
    pub uuid: uuid::Uuid,
    /// The remote address of the new client.
    pub ip: IpAddress,
    /// The new client's player textures, if it has any.
    pub textures: Option<SignedPlayerTextures>,
}

/// Handle identifying the outbound packet stream bound to one connection.
/// The byte buffering behind it is owned by the network layer; the core only
/// passes the handle to the simulation entity created for the connection.
pub struct PlayPacketSender {
    pub connection: u64,
}

/// Handle identifying the inbound packet stream bound to one connection,
/// the counterpart of [`PlayPacketSender`].
pub struct PlayPacketReceiver {
    pub connection: u64,
}

/// The unit of work handed from the accept subsystem to the tick loop: one
/// authenticated, ready-to-simulate client. Produced once per accepted
/// connection and consumed exactly once by the loop's intake phase; the
/// admission permit inside transfers to the simulation entity built from it.
pub struct NewClientMessage {
    pub info: NewClientInfo,
    pub send: PlayPacketSender,
    pub recv: PlayPacketReceiver,
    pub permit: Permit,
}

} // verus!

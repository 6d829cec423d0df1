//! Wire vocabulary shared by client and server, and the handshake rule.

use vstd::prelude::*;

verus! {

/// Version of the wire protocol; a client announcing another one is turned away.
pub const PROTOCOL_VERSION: u16 = 3;

/// Protocol id shared by the client and server transport handshakes.
pub const NETCODE_PROTOCOL_ID: u64 = 7;

/// The identifier a server hands to each joining player.
#[verifier::external_type_specification]
#[verifier::external_body]
pub struct ExUuid(uuid::Uuid);

/// Logical message channels and their default ids.
#[derive(Debug, Clone, Copy, PartialEq, Eq, Structural)]
pub enum Channel {
    /// Reliable, ordered control path (handshake, pause, acks).
    Reliable,
    /// Unreliable, sequenced state snapshots.
    State,
    /// Unreliable, sequenced client inputs.
    Input,
}

impl Channel {
    pub open spec fn spec_id(self) -> u8 {
        match self {
            Channel::Reliable => 0,
            Channel::State => 1,
            Channel::Input => 2,
        }
    }

    /// The channel's default numeric id.
    pub fn id(&self) -> (r: u8)
        ensures
            r == self.spec_id(),
    {
        match self {
            Channel::Reliable => 0,
            Channel::State => 1,
            Channel::Input => 2,
        }
    }

    /// The channel whose default id is `id`, if any.
    pub fn from_id(id: u8) -> (r: Option<Channel>)
        ensures
            r is Some <==> id <= 2,
            r matches Some(c) ==> c.spec_id() == id,
    {
        if id == 0 {
            Some(Channel::Reliable)
        } else if id == 1 {
            Some(Channel::State)
        } else if id == 2 {
            Some(Channel::Input)
        } else {
            None
        }
    }
}

/// First message of a client after its transport connects.
#[derive(Debug, Clone)]
pub struct ClientHello {
    pub protocol: u16,
    pub display_name: Option<String>,
}

/// The server's welcome: the player's id and the physics tick rate in Hz.
#[derive(Debug, Clone, Copy)]
pub struct JoinAck {
    pub player_id: uuid::Uuid,
    pub tick_hz: u32,
}

/// Acknowledges client input up to `tick`.
#[derive(Debug, Clone, Copy, PartialEq, Eq, Structural)]
pub struct InputAck {
    pub tick: u64,
}

#[derive(Debug, Clone, Copy, PartialEq, Eq, Structural)]
pub struct MineRequest {
    pub node_id: u32,
}

#[derive(Debug, Clone, Copy, PartialEq, Eq, Structural)]
pub struct MineAck {
    pub success: bool,
}

#[derive(Debug, Clone, Copy, PartialEq, Eq, Structural)]
pub struct DockRequest;

#[derive(Debug, Clone, Copy, PartialEq, Eq, Structural)]
pub struct DockAck {
    pub credits_after: u64,
}

/// Asks the server to pause or resume the simulation.
#[derive(Debug, Clone, Copy, PartialEq, Eq, Structural)]
pub struct PauseRequest {
    pub paused: bool,
}

/// The server's pause flag, broadcast after it changes.
#[derive(Debug, Clone, Copy, PartialEq, Eq, Structural)]
pub struct PauseState {
    pub paused: bool,
}

/// Why the server closes a connection.
#[derive(Debug, Clone, Copy, PartialEq, Eq, Structural)]
pub enum DisconnectReason {
    IncompatibleProtocol { server: u16, client: u16 },
    Kicked,
    ServerShutdown,
}

/// Placeholder for a future area-of-interest partition of snapshots.
pub struct Nothing {}

/// The server's answer to a hello: a join acknowledgement when the client
/// speaks this protocol version, else the reason for disconnecting it.
pub fn answer_hello(hello: &ClientHello, player_id: uuid::Uuid, tick_hz: u32) -> (r: Result<
    JoinAck,
    DisconnectReason,
>)
    ensures
        r is Ok <==> hello.protocol == PROTOCOL_VERSION,
        r matches Ok(ack) ==> ack.player_id == player_id && ack.tick_hz == tick_hz,
        r matches Err(reason) ==> reason == (DisconnectReason::IncompatibleProtocol {
            server: PROTOCOL_VERSION,
            client: hello.protocol,
        }),
{
    if hello.protocol == PROTOCOL_VERSION {
        Ok(JoinAck { player_id, tick_hz })
    } else {
        Err(DisconnectReason::IncompatibleProtocol { server: PROTOCOL_VERSION, client: hello.protocol })
    }
}

} // verus!

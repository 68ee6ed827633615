//! The messages that server and clients exchange, and who is told what
//! when a player comes or goes.
//!
//! Inputs and snapshot updates are frequent and may be lost, so they travel
//! on the unreliable channel. The notices that a player has joined, or that
//! a character has come to life or is gone, must arrive, and in order, so
//! they travel on the reliable one. A message on the wrong channel is not
//! acted on.

use vstd::prelude::*;
use crate::input::PlayerInput;
use crate::scalar::{Scalar, Vector3};
use crate::snapshot::SnapshotDiff;

verus! {

/// A character comes to life.
#[derive(Clone, Copy, Debug, PartialEq, Eq)]
pub struct CharacterSpawnEvent {
    pub client_id: u64,
    pub position: Vector3,
    pub yaw: Scalar,
}

/// A character is gone.
#[derive(Clone, Copy, Debug, PartialEq, Eq)]
pub struct CharacterDespawnEvent {
    pub client_id: u64,
}

/// What a server sends.
#[derive(Clone, Debug, PartialEq, Eq)]
pub enum ServerToClientMessage {
    PlayerJoined { id: u64, name: String },
    SnapshotDiff(SnapshotDiff),
    SpawnCharacter(CharacterSpawnEvent),
    DespawnCharacter(CharacterDespawnEvent),
}

/// What a client sends.
#[derive(Clone, Copy, Debug, PartialEq, Eq)]
pub enum ClientToServerMessage {
    PlayerInput(PlayerInput),
}

/// The two channels of a connection.
#[derive(Clone, Copy, Debug, PartialEq, Eq, Structural)]
pub enum Channel {
    /// For frequent traffic that tolerates loss.
    Unreliable,
    /// For notices that must arrive, in the order sent.
    ReliableOrdered,
}

impl ServerToClientMessage {
    /// Whether a client acts on this message when it arrives on
    /// `channel`: updates on the unreliable channel; join, spawn and
    /// despawn notices on the reliable one.
    pub open spec fn belongs_on(self, channel: Channel) -> bool {
        match self {
            ServerToClientMessage::PlayerJoined { .. } => channel == Channel::ReliableOrdered,
            ServerToClientMessage::SnapshotDiff(_) => channel == Channel::Unreliable,
            ServerToClientMessage::SpawnCharacter(_) => channel == Channel::ReliableOrdered,
            ServerToClientMessage::DespawnCharacter(_) => channel == Channel::ReliableOrdered,
        }
    }

    /// Whether a client acts on this message when it arrives on `channel`.
    pub fn expected_on(&self, channel: Channel) -> (expected: bool)
        ensures
            expected == self.belongs_on(channel),
    {
        match self {
            ServerToClientMessage::PlayerJoined { .. } => channel == Channel::ReliableOrdered,
            ServerToClientMessage::SnapshotDiff(_) => channel == Channel::Unreliable,
            ServerToClientMessage::SpawnCharacter(_) => channel == Channel::ReliableOrdered,
            ServerToClientMessage::DespawnCharacter(_) => channel == Channel::ReliableOrdered,
        }
    }
}

/// A character that a server simulates, and where it stands.
#[derive(Clone, Copy, Debug, PartialEq, Eq)]
pub struct CharacterPlacement {
    pub client_id: u64,
    pub position: Vector3,
}

/// A spawn notice and the client it goes to.
#[derive(Clone, Copy, Debug, PartialEq, Eq)]
pub struct SpawnNotice {
    pub recipient: u64,
    pub event: CharacterSpawnEvent,
}

/// A despawn notice and the client it goes to.
#[derive(Clone, Copy, Debug, PartialEq, Eq)]
pub struct DespawnNotice {
    pub recipient: u64,
    pub event: CharacterDespawnEvent,
}

/// Where the character of a player that has just connected comes to life:
/// two units above the origin.
pub open spec fn spawn_point() -> Vector3 {
    Vector3 { x: Scalar { bits: 0 }, y: Scalar { bits: 0x4000_0000 }, z: Scalar { bits: 0 } }
}

/// The event that brings the character of `client_id` to life at the spawn
/// point, not turned.
pub open spec fn arrival_of(client_id: u64) -> CharacterSpawnEvent {
    CharacterSpawnEvent { client_id, position: spawn_point(), yaw: Scalar { bits: 0 } }
}

/// The notice that tells `recipient` of a character that exists already.
pub open spec fn introduction(recipient: u64, character: CharacterPlacement) -> SpawnNotice {
    SpawnNotice {
        recipient,
        event: CharacterSpawnEvent {
            client_id: character.client_id,
            position: character.position,
            yaw: Scalar { bits: 0 },
        },
    }
}

/// The notices sent when `new_client` connects: see [`client_connected`].
pub open spec fn connection_notices(
    new_client: u64,
    characters: Seq<CharacterPlacement>,
    clients: Seq<u64>,
) -> Seq<SpawnNotice> {
    Seq::new(characters.len(), |i: int| introduction(new_client, characters[i])) + Seq::new(
        clients.len(),
        |i: int| SpawnNotice { recipient: clients[i], event: arrival_of(new_client) },
    )
}

/// The notices sent when `gone_client` disconnects: see
/// [`client_disconnected`].
pub open spec fn disconnection_notices(gone_client: u64, clients: Seq<u64>) -> Seq<DespawnNotice> {
    Seq::new(
        clients.len(),
        |i: int|
            DespawnNotice {
                recipient: clients[i],
                event: CharacterDespawnEvent { client_id: gone_client },
            },
    )
}

/// What a server sends when a player connects.
///
/// The newcomer is told of every character that exists, in the order
/// given; then every connected client, in the order given, is told of the
/// newcomer's character. The second value is the event that brings that
/// character to life on the server.
pub fn client_connected(
    new_client: u64,
    characters: &Vec<CharacterPlacement>,
    clients: &Vec<u64>,
) -> (plan: (Vec<SpawnNotice>, CharacterSpawnEvent))
    ensures
        plan.0@ == connection_notices(new_client, characters@, clients@),
        plan.1 == arrival_of(new_client),
{
    let arrival = CharacterSpawnEvent {
        client_id: new_client,
        position: Vector3 {
            x: Scalar { bits: 0 },
            y: Scalar { bits: 0x4000_0000 },
            z: Scalar { bits: 0 },
        },
        yaw: Scalar { bits: 0 },
    };
    let mut notices: Vec<SpawnNotice> = Vec::new();
    let mut i: usize = 0;
    while i < characters.len()
        invariant
            i <= characters.len(),
            notices@.len() == i,
            forall|k: int|
                0 <= k < i ==> notices@[k] == introduction(new_client, #[trigger] characters@[k]),
        decreases characters.len() - i,
    {
        notices.push(
            SpawnNotice {
                recipient: new_client,
                event: CharacterSpawnEvent {
                    client_id: characters[i].client_id,
                    position: characters[i].position,
                    yaw: Scalar { bits: 0 },
                },
            },
        );
        i += 1;
    }
    let mut j: usize = 0;
    while j < clients.len()
        invariant
            j <= clients.len(),
            arrival == arrival_of(new_client),
            notices@.len() == characters@.len() + j,
            forall|k: int|
                0 <= k < characters@.len() ==> notices@[k] == introduction(
                    new_client,
                    #[trigger] characters@[k],
                ),
            forall|k: int|
                0 <= k < j ==> notices@[characters@.len() + k] == (SpawnNotice {
                    recipient: #[trigger] clients@[k],
                    event: arrival,
                }),
        decreases clients.len() - j,
    {
        notices.push(SpawnNotice { recipient: clients[j], event: arrival });
        j += 1;
    }
    assert(notices@ =~= connection_notices(new_client, characters@, clients@));
    (notices, arrival)
}

/// What a server sends when a player disconnects: every connected client,
/// in the order given, is told that the player's character is gone. The
/// second value is the event that removes the character on the server.
pub fn client_disconnected(gone_client: u64, clients: &Vec<u64>) -> (plan: (
    Vec<DespawnNotice>,
    CharacterDespawnEvent,
))
    ensures
        plan.0@ == disconnection_notices(gone_client, clients@),
        plan.1 == (CharacterDespawnEvent { client_id: gone_client }),
{
    let departure = CharacterDespawnEvent { client_id: gone_client };
    let mut notices: Vec<DespawnNotice> = Vec::new();
    let mut i: usize = 0;
    while i < clients.len()
        invariant
            i <= clients.len(),
            departure == (CharacterDespawnEvent { client_id: gone_client }),
            notices@.len() == i,
            forall|k: int|
                0 <= k < i ==> notices@[k] == (DespawnNotice {
                    recipient: #[trigger] clients@[k],
                    event: departure,
                }),
        decreases clients.len() - i,
    {
        notices.push(DespawnNotice { recipient: clients[i], event: departure });
        i += 1;
    }
    assert(notices@ =~= disconnection_notices(gone_client, clients@));
    (notices, departure)
}

/// Whether the character that a spawn notice brings to life is the
/// recipient's own.
pub fn is_own_character(event: &CharacterSpawnEvent, my_client_id: u64) -> (own: bool)
    ensures
        own == (event.client_id == my_client_id),
{
    event.client_id == my_client_id
}

/// When a player connects, each connected client is sent exactly one
/// notice of the newcomer's character, and the newcomer one notice for
/// each character that exists.
pub proof fn law_connection_reaches_everyone(
    new_client: u64,
    characters: Seq<CharacterPlacement>,
    clients: Seq<u64>,
)
    ensures
        connection_notices(new_client, characters, clients).len() == characters.len()
            + clients.len(),
        forall|i: int|
            0 <= i < characters.len() ==> {
                let notice = #[trigger] connection_notices(new_client, characters, clients)[i];
                notice.recipient == new_client && notice.event.client_id
                    == characters[i].client_id && notice.event.position == characters[i].position
            },
        forall|i: int|
            0 <= i < clients.len() ==> {
                let notice = #[trigger] connection_notices(
                    new_client,
                    characters,
                    clients,
                )[characters.len() + i];
                notice.recipient == clients[i] && notice.event == arrival_of(new_client)
            },
{
}

} // verus!

//! The messages exchanged with the room registry, and the chat event a
//! session receives back.
//!
//! The registry itself is an external collaborator: it owns room membership
//! and fan-out. A session only composes these request values and consumes
//! `ChatMessage` events; the transport layer carries them.

use vstd::prelude::*;

verus! {

/// Request to enter a room: the registry replies with a fresh identifier
/// scoped to that room and will deliver that room's chat events back to the
/// caller from then on.
pub struct JoinRoom {
    pub room_name: String,
    pub client_name: String,
}

/// Mathematical content of a [`JoinRoom`] request.
#[verifier::ext_equal]
pub struct JoinRoomV {
    pub room_name: Seq<char>,
    pub client_name: Seq<char>,
}

impl View for JoinRoom {
    type V = JoinRoomV;

    open spec fn view(&self) -> JoinRoomV {
        JoinRoomV { room_name: self.room_name@, client_name: self.client_name@ }
    }
}

/// Notice that the occupant identified by `client_id` leaves `room_name`.
/// The registry treats it as a no-op when the occupant is already gone.
pub struct LeaveRoom {
    pub room_name: String,
    pub client_id: usize,
}

/// Mathematical content of a [`LeaveRoom`] notice.
#[verifier::ext_equal]
pub struct LeaveRoomV {
    pub room_name: Seq<char>,
    pub client_id: nat,
}

impl View for LeaveRoom {
    type V = LeaveRoomV;

    open spec fn view(&self) -> LeaveRoomV {
        LeaveRoomV { room_name: self.room_name@, client_id: self.client_id as nat }
    }
}

/// Request for the names of all rooms the registry currently knows.
pub struct ListRooms;

/// Request for the occupant identity strings of one room.
pub struct ListClients {
    pub room_name: String,
}

/// Mathematical content of a [`ListClients`] request.
#[verifier::ext_equal]
pub struct ListClientsV {
    pub room_name: Seq<char>,
}

impl View for ListClients {
    type V = ListClientsV;

    open spec fn view(&self) -> ListClientsV {
        ListClientsV { room_name: self.room_name@ }
    }
}

/// Fire-and-forget broadcast of `content` to every occupant of `room_name`,
/// tagged with the sender's registry identifier.
pub struct SendMessage {
    pub room_name: String,
    pub client_id: usize,
    pub content: String,
}

/// Mathematical content of a [`SendMessage`] broadcast.
#[verifier::ext_equal]
pub struct SendMessageV {
    pub room_name: Seq<char>,
    pub client_id: nat,
    pub content: Seq<char>,
}

impl View for SendMessage {
    type V = SendMessageV;

    open spec fn view(&self) -> SendMessageV {
        SendMessageV {
            room_name: self.room_name@,
            client_id: self.client_id as nat,
            content: self.content@,
        }
    }
}

/// A chat event delivered to a session because its current room received a
/// broadcast. `content` arrives fully formatted, attribution included.
pub struct ChatMessage {
    pub content: String,
}

/// A chat event is rendered to the client verbatim: the registry has already
/// prefixed the sender attribution, so no further transformation happens.
pub fn render_chat_message(msg: &ChatMessage) -> (line: &String)
    ensures
        line@ == msg.content@,
{
    &msg.content
}

} // verus!

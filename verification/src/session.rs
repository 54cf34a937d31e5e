//! The per-connection session: display name, current room, registry
//! identifier, and the protocol that drives them.
//!
//! A session never talks to the registry directly. Each entry point either
//! composes the request value the transport layer must deliver (joining,
//! leaving, listing, broadcasting) or applies the registry's reply to local
//! state. The whole synchronization contract between connections lives in
//! these transitions, so each one carries an exact contract, stated over
//! [`step`] and the other spec functions below.

use vstd::prelude::*;

use crate::commands::{classify, parse_frame, Command, CommandV};
use crate::message::{
    JoinRoom, JoinRoomV, LeaveRoom, LeaveRoomV, ListClients, ListClientsV, ListRooms, SendMessage,
    SendMessageV,
};
use crate::text::{dec_digits, to_decimal};

verus! {

/// One connected client's session state: the registry identifier for the
/// room it currently occupies, that room's name, and the optional
/// user-chosen display name.
pub struct WsChatSession {
    client_id: usize,
    room_name: String,
    client_name: Option<String>,
}

/// Mathematical content of a [`WsChatSession`].
#[verifier::ext_equal]
pub struct SessionV {
    pub client_id: nat,
    pub room_name: Seq<char>,
    pub client_name: Option<Seq<char>>,
}

impl View for WsChatSession {
    type V = SessionV;

    closed spec fn view(&self) -> SessionV {
        SessionV {
            client_id: self.client_id as nat,
            room_name: self.room_name@,
            client_name: match self.client_name {
                Some(ref n) => Some(n@),
                None => None,
            },
        }
    }
}

/// The name a session signs its messages with: the chosen display name, or
/// the placeholder `"anon"` while none is set.
pub open spec fn display_name_of(name: Option<Seq<char>>) -> Seq<char> {
    match name {
        Some(n) => n,
        None => "anon"@,
    }
}

impl SessionV {
    /// The name this session signs its messages with.
    pub open spec fn display_name(self) -> Seq<char> {
        display_name_of(self.client_name)
    }
}

/// The outcome of a join handshake: on success the session adopts the new
/// room name and the returned identifier together; on failure both stay at
/// their prior values.
pub open spec fn join_outcome(s: SessionV, room: Seq<char>, id: Option<usize>) -> SessionV {
    match id {
        Some(i) => SessionV { client_id: i as nat, room_name: room, client_name: s.client_name },
        None => s,
    }
}

/// The leave notice a session sends at termination, determined by its
/// current room and identifier alone.
pub open spec fn leave_notice(s: SessionV) -> LeaveRoomV {
    LeaveRoomV { room_name: s.room_name, client_id: s.client_id }
}

/// The single line `/whoami` renders, purely from local state.
pub open spec fn whoami_line(s: SessionV) -> Seq<char> {
    "name: "@ + s.display_name() + ", client_id: "@ + dec_digits(s.client_id)
        + " in room_name: "@ + s.room_name
}

/// What a session hands the transport layer after one inbound frame: either
/// a request the registry must receive, or a line for the session's own
/// client.
pub enum Action {
    /// Perform the join handshake for the carried request; the reply goes to
    /// [`WsChatSession::join_room_completed`].
    Join(JoinRoom),
    /// Ask the registry for all room names; the reply goes through
    /// [`render_list_response`].
    ListRooms(ListRooms),
    /// Ask the registry for the occupants of the carried room; the reply
    /// goes through [`render_list_response`].
    ListClients(ListClients),
    /// Fire-and-forget broadcast to the registry.
    Send(SendMessage),
    /// A single output line for this session's own client.
    Reply(String),
}

/// Mathematical content of an [`Action`].
#[verifier::ext_equal]
pub enum ActionV {
    Join(JoinRoomV),
    ListRooms,
    ListClients(ListClientsV),
    Send(SendMessageV),
    Reply(Seq<char>),
}

impl View for Action {
    type V = ActionV;

    open spec fn view(&self) -> ActionV {
        match self {
            Action::Join(req) => ActionV::Join(req@),
            Action::ListRooms(_) => ActionV::ListRooms,
            Action::ListClients(req) => ActionV::ListClients(req@),
            Action::Send(msg) => ActionV::Send(msg@),
            Action::Reply(line) => ActionV::Reply(line@),
        }
    }
}

/// The session's transition function: what one parsed command does to the
/// session state, and what the session emits in return. Only a broadcast
/// body produces a `Send`; only `/name` changes local state here (a room
/// change waits for the registry's reply, applied by [`join_outcome`]).
pub open spec fn step(s: SessionV, cmd: CommandV) -> (SessionV, ActionV) {
    match cmd {
        CommandV::Broadcast(body) => (
            s,
            ActionV::Send(
                SendMessageV {
                    room_name: s.room_name,
                    client_id: s.client_id,
                    content: s.display_name() + ": "@ + body,
                },
            ),
        ),
        CommandV::ListRooms => (s, ActionV::ListRooms),
        CommandV::Join(room) => (
            s,
            ActionV::Join(JoinRoomV { room_name: room, client_name: s.display_name() }),
        ),
        CommandV::JoinMissingArg => (s, ActionV::Reply("!!! room name is required"@)),
        CommandV::Name(name) => (
            SessionV { client_name: Some(name), ..s },
            ActionV::Reply("name changed to: "@ + name),
        ),
        CommandV::NameMissingArg => (s, ActionV::Reply("!!! name is required"@)),
        CommandV::ListClients => (s, ActionV::ListClients(ListClientsV { room_name: s.room_name })),
        CommandV::WhoAmI => (s, ActionV::Reply(whoami_line(s))),
        CommandV::Unknown(raw) => (s, ActionV::Reply("!!! unknown command: "@ + raw)),
    }
}

impl Default for WsChatSession {
    /// A fresh session: no identifier yet, no room yet, no display name.
    fn default() -> (s: Self)
        ensures
            s@ == (SessionV {
                client_id: 0,
                room_name: Seq::<char>::empty(),
                client_name: None,
            }),
    {
        let s = WsChatSession { client_id: 0, room_name: String::new(), client_name: None };
        proof {
            assert(s@ =~= SessionV {
                client_id: 0,
                room_name: Seq::<char>::empty(),
                client_name: None,
            });
        }
        s
    }
}

impl WsChatSession {
    /// The client's name for this session: the chosen display name, or the
    /// placeholder `"anon"` while none is set.
    pub fn client_name(&self) -> (r: String)
        ensures
            r@ == self@.display_name(),
    {
        match &self.client_name {
            Some(n) => n.clone(),
            None => String::from_str("anon"),
        }
    }

    /// Composes the join request for `room_name`, carrying the session's
    /// current display name. Local state does not change here: the room and
    /// identifier switch only when the registry's reply is applied by
    /// [`Self::join_room_completed`].
    pub fn join_room(&self, room_name: &str) -> (req: JoinRoom)
        ensures
            req@ == (JoinRoomV { room_name: room_name@, client_name: self@.display_name() }),
    {
        JoinRoom { room_name: room_name.to_owned(), client_name: self.client_name() }
    }

    /// Applies the registry's reply to a join request for `room_name`. On
    /// success the session adopts the new room name and the returned
    /// identifier together — there is no state where only one of the two has
    /// changed. On failure (`None`) both keep their prior values.
    pub fn join_room_completed(&mut self, room_name: &str, id: Option<usize>)
        ensures
            final(self)@ == join_outcome(old(self)@, room_name@, id),
    {
        if let Some(i) = id {
            self.client_id = i;
            self.room_name = room_name.to_owned();
        }
    }

    /// The join request a newly started session issues: the well-known
    /// default room, under the still-placeholder display name.
    pub fn started(&self) -> (req: JoinRoom)
        ensures
            req@ == (JoinRoomV { room_name: "Main"@, client_name: self@.display_name() }),
    {
        self.join_room("Main")
    }

    /// The leave notice a terminating session must deliver synchronously:
    /// its current room and identifier, nothing else.
    pub fn stopped(&self) -> (req: LeaveRoom)
        ensures
            req@ == leave_notice(self@),
    {
        LeaveRoom { room_name: self.room_name.clone(), client_id: self.client_id }
    }

    /// Composes the request for the names of all rooms.
    pub fn list_rooms(&self) -> (req: ListRooms) {
        ListRooms
    }

    /// Composes the request for the occupants of the session's current room.
    pub fn list_clients(&self) -> (req: ListClients)
        ensures
            req@ == (ListClientsV { room_name: self@.room_name }),
    {
        ListClients { room_name: self.room_name.clone() }
    }

    /// Composes the broadcast for a plain message body: the content is the
    /// attributed line `"{display name}: {body}"`, scoped to the session's
    /// current room and tagged with its current identifier.
    pub fn send_msg(&self, msg: &str) -> (out: SendMessage)
        ensures
            out@ == (SendMessageV {
                room_name: self@.room_name,
                client_id: self@.client_id,
                content: self@.display_name() + ": "@ + msg@,
            }),
    {
        let mut content = self.client_name();
        content.append(": ");
        content.append(msg);
        SendMessage {
            room_name: self.room_name.clone(),
            client_id: self.client_id,
            content,
        }
    }

    /// Renders the `/whoami` line from local state alone.
    pub fn who_am_i(&self) -> (line: String)
        ensures
            line@ == whoami_line(self@),
    {
        let mut line = String::from_str("name: ");
        let name = self.client_name();
        line.append(name.as_str());
        line.append(", client_id: ");
        let id = to_decimal(self.client_id);
        line.append(id.as_str());
        line.append(" in room_name: ");
        line.append(self.room_name.as_str());
        proof {
            assert(line@ =~= whoami_line(self@));
        }
        line
    }

    /// Applies one parsed command: updates local state as [`step`] says and
    /// returns the action the transport layer must perform.
    pub fn apply_command(&mut self, cmd: Command) -> (act: Action)
        ensures
            final(self)@ == step(old(self)@, cmd@).0,
            act@ == step(old(self)@, cmd@).1,
    {
        match cmd {
            Command::Broadcast(body) => Action::Send(self.send_msg(body.as_str())),
            Command::ListRooms => Action::ListRooms(self.list_rooms()),
            Command::Join(room) => Action::Join(self.join_room(room.as_str())),
            Command::JoinMissingArg => Action::Reply(String::from_str("!!! room name is required")),
            Command::Name(name) => {
                let mut line = String::from_str("name changed to: ");
                line.append(name.as_str());
                self.client_name = Some(name);
                Action::Reply(line)
            },
            Command::NameMissingArg => Action::Reply(String::from_str("!!! name is required")),
            Command::ListClients => Action::ListClients(self.list_clients()),
            Command::WhoAmI => Action::Reply(self.who_am_i()),
            Command::Unknown(raw) => {
                let mut line = String::from_str("!!! unknown command: ");
                line.append(raw.as_str());
                Action::Reply(line)
            },
        }
    }

    /// Handles one inbound text frame: parses it and applies the resulting
    /// command, so that state and action follow [`step`] of
    /// [`classify`]`(text)`.
    pub fn handle_text(&mut self, text: &str) -> (act: Action)
        ensures
            final(self)@ == step(old(self)@, classify(text@)).0,
            act@ == step(old(self)@, classify(text@)).1,
    {
        let cmd = parse_frame(text);
        self.apply_command(cmd)
    }
}

/// After a successful startup handshake the session occupies the default
/// room `"Main"`, and its identifier is exactly the one the registry
/// returned for that join.
pub proof fn lemma_startup_default_room(s: SessionV, id: usize)
    ensures
        join_outcome(s, "Main"@, Some(id)).room_name == "Main"@,
        join_outcome(s, "Main"@, Some(id)).client_id == id as nat,
{
}

/// A frame that starts with `/` is consumed entirely as a command: no
/// broadcast is ever issued for it, whether or not the token is recognized.
pub proof fn lemma_command_never_broadcasts(s: SessionV, raw: Seq<char>)
    requires
        raw.len() > 0,
        raw[0] == '/',
    ensures
        !(step(s, classify(raw)).1 is Send),
{
    crate::text::lemma_trimmed_keeps_head(raw);
}

/// A successful join switches room name and identifier together, to the
/// requested room and the returned identifier — no state ever shows one
/// without the other. A failed join changes neither.
pub proof fn lemma_join_atomic(s: SessionV, room: Seq<char>, id: Option<usize>)
    ensures
        id matches Some(i) ==> join_outcome(s, room, id) == (SessionV {
            client_id: i as nat,
            room_name: room,
            client_name: s.client_name,
        }),
        id is None ==> join_outcome(s, room, id) == s,
{
}

/// Display names scope broadcasts: after `/name NewName` a broadcast is
/// attributed `"NewName: {body}"`, and before any `/name` it is attributed
/// `"anon: {body}"`.
pub proof fn lemma_display_name_scoping(s: SessionV, name: Seq<char>, body: Seq<char>)
    ensures
        ({
            let named = step(s, CommandV::Name(name)).0;
            step(named, CommandV::Broadcast(body)).1 == ActionV::Send(
                SendMessageV {
                    room_name: named.room_name,
                    client_id: named.client_id,
                    content: name + ": "@ + body,
                },
            )
        }),
        s.client_name is None ==> step(s, CommandV::Broadcast(body)).1 == ActionV::Send(
            SendMessageV {
                room_name: s.room_name,
                client_id: s.client_id,
                content: "anon"@ + ": "@ + body,
            },
        ),
{
}

/// The leave notice is a function of the (room, identifier) pair alone:
/// reissuing it from any state that still holds the same pair yields the
/// identical notice, so the registry — whose removal is a no-op for an
/// occupant already gone — sees nothing new in the second one.
pub proof fn lemma_leave_idempotent(s1: SessionV, s2: SessionV)
    requires
        s1.room_name == s2.room_name,
        s1.client_id == s2.client_id,
    ensures
        leave_notice(s1) == leave_notice(s2),
{
}

/// Renders a registry reply to `/list` or `/list-clients`: each returned
/// entry becomes its own output line, and a failed call renders nothing at
/// all.
pub fn render_list_response(result: Option<Vec<String>>) -> (lines: Vec<String>)
    ensures
        match result {
            Some(entries) => lines == entries,
            None => lines@.len() == 0,
        },
{
    match result {
        Some(entries) => entries,
        None => Vec::new(),
    }
}

} // verus!

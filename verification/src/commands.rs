//! The inbound command parser.
//!
//! Each inbound text frame, trimmed of surrounding whitespace, is either a
//! broadcast message body or — when it starts with `/` — a command. A frame
//! that starts with `/` is consumed entirely as a command whether or not its
//! token is recognized; it is never also treated as a broadcast.

use vstd::prelude::*;

use crate::text::{remainder_of, split_command, str_eq, token_of, trim_str, trimmed};

verus! {

/// What one inbound frame asks the session to do.
pub enum Command {
    /// The trimmed frame did not start with `/`: broadcast it as a message
    /// body (possibly empty).
    Broadcast(String),
    /// `/list`: ask the registry for all room names.
    ListRooms,
    /// `/join <room>`: switch to the named room.
    Join(String),
    /// `/join` without an argument: a local usage error.
    JoinMissingArg,
    /// `/name <name>`: adopt a new display name.
    Name(String),
    /// `/name` without an argument: a local usage error.
    NameMissingArg,
    /// `/list-clients`: ask the registry for the occupants of the current
    /// room.
    ListClients,
    /// `/whoami`: render the session's own state.
    WhoAmI,
    /// Any other `/` frame, echoed back whole in an error line.
    Unknown(String),
}

/// Mathematical content of a [`Command`].
#[verifier::ext_equal]
pub enum CommandV {
    Broadcast(Seq<char>),
    ListRooms,
    Join(Seq<char>),
    JoinMissingArg,
    Name(Seq<char>),
    NameMissingArg,
    ListClients,
    WhoAmI,
    Unknown(Seq<char>),
}

impl View for Command {
    type V = CommandV;

    open spec fn view(&self) -> CommandV {
        match self {
            Command::Broadcast(body) => CommandV::Broadcast(body@),
            Command::ListRooms => CommandV::ListRooms,
            Command::Join(room) => CommandV::Join(room@),
            Command::JoinMissingArg => CommandV::JoinMissingArg,
            Command::Name(name) => CommandV::Name(name@),
            Command::NameMissingArg => CommandV::NameMissingArg,
            Command::ListClients => CommandV::ListClients,
            Command::WhoAmI => CommandV::WhoAmI,
            Command::Unknown(raw) => CommandV::Unknown(raw@),
        }
    }
}

/// How an inbound frame is classified: trim the frame; anything not starting
/// with `/` is a broadcast body; otherwise split on the first whitespace
/// character and match the token.
pub open spec fn classify(raw: Seq<char>) -> CommandV {
    let t = trimmed(raw);
    if t.len() == 0 || t[0] != '/' {
        CommandV::Broadcast(t)
    } else {
        let tok = token_of(t);
        if tok == "/list"@ {
            CommandV::ListRooms
        } else if tok == "/join"@ {
            match remainder_of(t) {
                Some(room) => CommandV::Join(room),
                None => CommandV::JoinMissingArg,
            }
        } else if tok == "/name"@ {
            match remainder_of(t) {
                Some(name) => CommandV::Name(name),
                None => CommandV::NameMissingArg,
            }
        } else if tok == "/list-clients"@ {
            CommandV::ListClients
        } else if tok == "/whoami"@ {
            CommandV::WhoAmI
        } else {
            CommandV::Unknown(t)
        }
    }
}

/// Parses one inbound text frame.
pub fn parse_frame(text: &str) -> (cmd: Command)
    ensures
        cmd@ == classify(text@),
{
    let t = trim_str(text);
    let n = t.unicode_len();
    if n == 0 || t.get_char(0) != '/' {
        return Command::Broadcast(String::from_str(t));
    }
    let (tok, rem) = split_command(t);
    if str_eq(tok, "/list") {
        Command::ListRooms
    } else if str_eq(tok, "/join") {
        match rem {
            Some(room) => Command::Join(String::from_str(room)),
            None => Command::JoinMissingArg,
        }
    } else if str_eq(tok, "/name") {
        match rem {
            Some(name) => Command::Name(String::from_str(name)),
            None => Command::NameMissingArg,
        }
    } else if str_eq(tok, "/list-clients") {
        Command::ListClients
    } else if str_eq(tok, "/whoami") {
        Command::WhoAmI
    } else {
        Command::Unknown(String::from_str(t))
    }
}

} // verus!

use chat_broker::message::ChatMessage;
use chat_broker::session::{render_list_response, Action, WsChatSession};

fn fresh_in_room(room: &str, id: usize) -> WsChatSession {
    let mut s = WsChatSession::default();
    s.join_room_completed(room, Some(id));
    s
}

#[test]
fn default_session_uses_placeholder_name() {
    let s = WsChatSession::default();
    assert_eq!(s.client_name(), "anon");
}

#[test]
fn startup_requests_default_room() {
    let s = WsChatSession::default();
    let req = s.started();
    assert_eq!(req.room_name, "Main");
    assert_eq!(req.client_name, "anon");
}

#[test]
fn startup_join_completion_adopts_main() {
    let mut s = WsChatSession::default();
    let req = s.started();
    s.join_room_completed(&req.room_name, Some(7));
    assert_eq!(s.who_am_i(), "name: anon, client_id: 7 in room_name: Main");
}

#[test]
fn join_success_switches_room_and_id_together() {
    let mut s = fresh_in_room("Main", 7);
    let act = s.handle_text("/join Lounge");
    match act {
        Action::Join(req) => {
            assert_eq!(req.room_name, "Lounge");
            assert_eq!(req.client_name, "anon");
        }
        _ => panic!("expected a join request"),
    }
    // No state change until the registry answers.
    assert_eq!(s.who_am_i(), "name: anon, client_id: 7 in room_name: Main");
    s.join_room_completed("Lounge", Some(3));
    assert_eq!(s.who_am_i(), "name: anon, client_id: 3 in room_name: Lounge");
}

#[test]
fn join_failure_keeps_prior_state() {
    let mut s = fresh_in_room("Main", 7);
    s.join_room_completed("Lounge", None);
    assert_eq!(s.who_am_i(), "name: anon, client_id: 7 in room_name: Main");
    let out = s.send_msg("still here");
    assert_eq!(out.room_name, "Main");
    assert_eq!(out.client_id, 7);
}

#[test]
fn join_without_argument_is_local_usage_error() {
    let mut s = fresh_in_room("Main", 7);
    let act = s.handle_text("/join");
    match act {
        Action::Reply(line) => assert_eq!(line, "!!! room name is required"),
        _ => panic!("expected a local error line"),
    }
}

#[test]
fn name_without_argument_is_local_usage_error() {
    let mut s = fresh_in_room("Main", 7);
    let act = s.handle_text("/name");
    match act {
        Action::Reply(line) => assert_eq!(line, "!!! name is required"),
        _ => panic!("expected a local error line"),
    }
}

#[test]
fn name_change_confirms_and_scopes_later_broadcasts() {
    let mut s = fresh_in_room("Main", 7);
    let act = s.handle_text("/name Alice");
    match act {
        Action::Reply(line) => assert_eq!(line, "name changed to: Alice"),
        _ => panic!("expected a confirmation line"),
    }
    let act = s.handle_text("hello");
    match act {
        Action::Send(msg) => {
            assert_eq!(msg.room_name, "Main");
            assert_eq!(msg.client_id, 7);
            assert_eq!(msg.content, "Alice: hello");
        }
        _ => panic!("expected a broadcast"),
    }
}

#[test]
fn broadcast_before_any_name_uses_anon() {
    let mut s = fresh_in_room("Main", 1);
    let act = s.handle_text("hello");
    match act {
        Action::Send(msg) => assert_eq!(msg.content, "anon: hello"),
        _ => panic!("expected a broadcast"),
    }
}

#[test]
fn commands_are_never_broadcast() {
    for frame in [
        "/list",
        "/join Lounge",
        "/join",
        "/name Alice",
        "/name",
        "/list-clients",
        "/whoami",
        "/frobnicate x",
        "/",
        "/ leading space token",
        "  /list  ",
    ] {
        let mut s = fresh_in_room("Main", 7);
        let act = s.handle_text(frame);
        assert!(
            !matches!(act, Action::Send(_)),
            "frame {:?} must not broadcast",
            frame
        );
    }
}

#[test]
fn unknown_command_echoes_the_input_once() {
    let mut s = fresh_in_room("Main", 7);
    let act = s.handle_text("/frobnicate x");
    match act {
        Action::Reply(line) => {
            assert!(line.contains("/frobnicate x"));
            assert_eq!(line, "!!! unknown command: /frobnicate x");
        }
        _ => panic!("expected exactly one local error line"),
    }
}

#[test]
fn whoami_is_rendered_from_local_state_alone() {
    let s = WsChatSession::default();
    assert_eq!(s.who_am_i(), "name: anon, client_id: 0 in room_name: ");
    let mut s = fresh_in_room("Main", 120);
    s.handle_text("/name Bob");
    assert_eq!(s.who_am_i(), "name: Bob, client_id: 120 in room_name: Main");
}

#[test]
fn list_requests_carry_the_current_room() {
    let mut s = fresh_in_room("Lounge", 9);
    match s.handle_text("/list") {
        Action::ListRooms(_) => {}
        _ => panic!("expected a room-list request"),
    }
    match s.handle_text("/list-clients") {
        Action::ListClients(req) => assert_eq!(req.room_name, "Lounge"),
        _ => panic!("expected an occupant-list request"),
    }
}

#[test]
fn list_reply_renders_each_entry_as_its_own_line() {
    let rooms = vec!["Main".to_string(), "Lounge".to_string()];
    let lines = render_list_response(Some(rooms.clone()));
    assert_eq!(lines, rooms);
}

#[test]
fn failed_list_reply_renders_nothing() {
    let lines = render_list_response(None);
    assert!(lines.is_empty());
}

#[test]
fn chat_event_is_rendered_verbatim() {
    let msg = ChatMessage {
        content: "Alice: hello".to_string(),
    };
    assert_eq!(
        chat_broker::message::render_chat_message(&msg),
        "Alice: hello"
    );
}

#[test]
fn leave_notice_names_the_current_room_and_id() {
    let s = fresh_in_room("Main", 7);
    let req = s.stopped();
    assert_eq!(req.room_name, "Main");
    assert_eq!(req.client_id, 7);
}

#[test]
fn repeated_leave_produces_the_identical_notice() {
    let mut s = fresh_in_room("Main", 7);
    let first = s.stopped();
    // A display-name change in between does not alter the (room, id) pair.
    s.handle_text("/name Alice");
    let second = s.stopped();
    assert_eq!(first.room_name, second.room_name);
    assert_eq!(first.client_id, second.client_id);
}

#[test]
fn frames_are_trimmed_before_classification() {
    let mut s = fresh_in_room("Main", 7);
    match s.handle_text("  hello  ") {
        Action::Send(msg) => assert_eq!(msg.content, "anon: hello"),
        _ => panic!("expected a broadcast"),
    }
    match s.handle_text("\u{3000}/whoami\u{3000}") {
        Action::Reply(line) => assert_eq!(line, "name: anon, client_id: 7 in room_name: Main"),
        _ => panic!("expected the whoami line"),
    }
}

#[test]
fn join_argument_is_kept_verbatim_after_the_first_space() {
    let mut s = fresh_in_room("Main", 7);
    match s.handle_text("/join  Lounge") {
        Action::Join(req) => assert_eq!(req.room_name, " Lounge"),
        _ => panic!("expected a join request"),
    }
}

#[test]
fn empty_frame_broadcasts_an_empty_body() {
    let mut s = fresh_in_room("Main", 7);
    match s.handle_text("   ") {
        Action::Send(msg) => assert_eq!(msg.content, "anon: "),
        _ => panic!("expected a broadcast"),
    }
}

#[test]
fn end_to_end_scenario() {
    let mut s = WsChatSession::default();

    // Connect: the session auto-joins "Main" and the registry answers 7.
    let req = s.started();
    assert_eq!(req.room_name, "Main");
    s.join_room_completed(&req.room_name, Some(7));

    // "/name Alice" confirms locally.
    match s.handle_text("/name Alice") {
        Action::Reply(line) => assert_eq!(line, "name changed to: Alice"),
        _ => panic!("expected a confirmation line"),
    }

    // "hello" becomes exactly one SendMessage("Main", 7, "Alice: hello").
    match s.handle_text("hello") {
        Action::Send(msg) => {
            assert_eq!(msg.room_name, "Main");
            assert_eq!(msg.client_id, 7);
            assert_eq!(msg.content, "Alice: hello");
        }
        _ => panic!("expected a broadcast"),
    }

    // "/join Lounge" and a registry answer of 3 switch both values.
    match s.handle_text("/join Lounge") {
        Action::Join(req) => {
            assert_eq!(req.room_name, "Lounge");
            assert_eq!(req.client_name, "Alice");
            s.join_room_completed(&req.room_name, Some(3));
        }
        _ => panic!("expected a join request"),
    }

    // The next broadcast is tagged 3 in "Lounge", not 7 in "Main".
    match s.handle_text("back") {
        Action::Send(msg) => {
            assert_eq!(msg.room_name, "Lounge");
            assert_eq!(msg.client_id, 3);
            assert_eq!(msg.content, "Alice: back");
        }
        _ => panic!("expected a broadcast"),
    }
}

use noverterm::terminal::manager::SessionManager;
use noverterm::terminal::renderer::Cell;
use noverterm::terminal::session::{
    Session, SessionAction, SessionEvent, SessionStatus, TerminalError, DEFAULT_COLS, DEFAULT_ROWS,
};
use noverterm::terminal::{
    connect_session, create_session, disconnect_session, get_sessions, resize_pty, send_input,
};

fn manager_with_session() -> (SessionManager, String) {
    let mut state = SessionManager::new();
    let id = create_session(
        "build box".to_string(),
        "10.0.0.7".to_string(),
        22,
        "root".to_string(),
        &mut state,
    )
    .unwrap();
    (state, id)
}

fn connected() -> (SessionManager, String) {
    let (mut state, id) = manager_with_session();
    connect_session(id.clone(), &mut state).unwrap();
    assert_eq!(
        state.handle_event(&id, SessionEvent::TransportReady),
        Ok(SessionAction::StartPump)
    );
    (state, id)
}

fn status_of(state: &SessionManager, id: &str) -> SessionStatus {
    get_sessions(state).into_iter().find(|s| s.id == id).unwrap().status
}

#[test]
fn new_session_is_disconnected_at_default_size() {
    let session = Session::new(
        "id-1".to_string(),
        "name".to_string(),
        "host".to_string(),
        2222,
        "user".to_string(),
    );
    assert_eq!(session.id, "id-1");
    assert_eq!(session.name, "name");
    assert_eq!(session.host, "host");
    assert_eq!(session.port, 2222);
    assert_eq!(session.username, "user");
    assert_eq!(session.status, SessionStatus::Disconnected);
    assert_eq!((session.rows, session.cols), (24, 80));
    assert_eq!((DEFAULT_ROWS, DEFAULT_COLS), (24, 80));
}

#[test]
fn create_session_registers_a_disconnected_session() {
    let (state, id) = manager_with_session();
    let sessions = get_sessions(&state);
    assert_eq!(sessions.len(), 1);
    assert_eq!(sessions[0].id, id);
    assert_eq!(sessions[0].name, "build box");
    assert_eq!(sessions[0].host, "10.0.0.7");
    assert_eq!(sessions[0].port, 22);
    assert_eq!(sessions[0].username, "root");
    assert_eq!(sessions[0].status, SessionStatus::Disconnected);
    assert_eq!((sessions[0].rows, sessions[0].cols), (24, 80));
    assert!(state.entries[0].terminal.is_none());
    assert!(state.entries[0].pending_input.is_empty());
}

#[test]
fn session_identity_is_a_hyphenated_uuid() {
    let (mut state, first) = manager_with_session();
    let second =
        create_session("b".to_string(), "h".to_string(), 22, "u".to_string(), &mut state).unwrap();
    for id in [&first, &second] {
        assert_eq!(id.chars().count(), 36);
        for (i, ch) in id.chars().enumerate() {
            if i == 8 || i == 13 || i == 18 || i == 23 {
                assert_eq!(ch, '-');
            } else {
                assert!(ch.is_ascii_hexdigit());
            }
        }
    }
    assert_ne!(first, second);
    let sessions = get_sessions(&state);
    assert_eq!(sessions.len(), 2);
    assert_eq!(sessions[0].id, first);
    assert_eq!(sessions[1].id, second);
}

#[test]
fn get_sessions_is_a_copy() {
    let (mut state, id) = manager_with_session();
    let before = get_sessions(&state);
    connect_session(id.clone(), &mut state).unwrap();
    assert_eq!(before[0].status, SessionStatus::Disconnected);
    assert_eq!(status_of(&state, &id), SessionStatus::Connecting);
}

#[test]
fn connect_moves_to_connecting() {
    let (mut state, id) = manager_with_session();
    assert_eq!(connect_session(id.clone(), &mut state), Ok(()));
    assert_eq!(status_of(&state, &id), SessionStatus::Connecting);
    assert!(state.entries[0].terminal.is_none());
}

#[test]
fn second_connect_is_rejected_not_queued() {
    let (mut state, id) = manager_with_session();
    assert_eq!(connect_session(id.clone(), &mut state), Ok(()));
    assert_eq!(connect_session(id.clone(), &mut state), Err(TerminalError::InvalidState));
    assert_eq!(status_of(&state, &id), SessionStatus::Connecting);
    state.handle_event(&id, SessionEvent::TransportReady).unwrap();
    assert_eq!(connect_session(id.clone(), &mut state), Err(TerminalError::InvalidState));
    assert_eq!(status_of(&state, &id), SessionStatus::Connected);
}

#[test]
fn disconnect_on_disconnected_is_invalid_state() {
    let (mut state, id) = manager_with_session();
    assert_eq!(disconnect_session(id.clone(), &mut state), Err(TerminalError::InvalidState));
    assert_eq!(status_of(&state, &id), SessionStatus::Disconnected);
}

#[test]
fn disconnect_on_connecting_is_invalid_state() {
    let (mut state, id) = manager_with_session();
    connect_session(id.clone(), &mut state).unwrap();
    assert_eq!(disconnect_session(id.clone(), &mut state), Err(TerminalError::InvalidState));
    assert_eq!(status_of(&state, &id), SessionStatus::Connecting);
}

#[test]
fn unknown_session_is_not_found() {
    let (mut state, _) = manager_with_session();
    let ghost = "no-such-session".to_string();
    assert_eq!(connect_session(ghost.clone(), &mut state), Err(TerminalError::SessionNotFound));
    assert_eq!(disconnect_session(ghost.clone(), &mut state), Err(TerminalError::SessionNotFound));
    assert_eq!(send_input(ghost.clone(), vec![1], &mut state), Err(TerminalError::SessionNotFound));
    assert_eq!(resize_pty(ghost.clone(), 1, 1, &mut state), Err(TerminalError::SessionNotFound));
    assert_eq!(state.take_input(&ghost), Err(TerminalError::SessionNotFound));
    assert_eq!(state.delete_session(&ghost), Err(TerminalError::SessionNotFound));
    assert_eq!(state.snapshot(&ghost), Err(TerminalError::SessionNotFound));
    assert!(matches!(state.receive_output(&ghost, vec![b'a']), Err(TerminalError::SessionNotFound)));
    assert_eq!(state.position(&ghost), None);
    assert_eq!(get_sessions(&state).len(), 1);
}

#[test]
fn transport_ready_connects_with_a_fresh_terminal() {
    let (state, id) = connected();
    assert_eq!(status_of(&state, &id), SessionStatus::Connected);
    let term = state.entries[0].terminal.as_ref().unwrap();
    assert_eq!((term.rows, term.cols), (24, 80));
    assert_eq!((term.cursor_row, term.cursor_col), (0, 0));
    assert_eq!(term.grid.len(), 24);
    assert!(term.grid.iter().all(|row| row.len() == 80));
    assert!(term.grid.iter().flatten().all(|cell| *cell == Cell::default()));
}

#[test]
fn transport_failure_while_connecting_is_an_error() {
    let (mut state, id) = manager_with_session();
    connect_session(id.clone(), &mut state).unwrap();
    assert_eq!(
        state.handle_event(&id, SessionEvent::TransportFailed("host unreachable".to_string())),
        Ok(SessionAction::DiscardTransport)
    );
    assert_eq!(status_of(&state, &id), SessionStatus::Error("host unreachable".to_string()));
    assert!(state.entries[0].terminal.is_none());
}

#[test]
fn connect_from_error_is_accepted() {
    let (mut state, id) = manager_with_session();
    connect_session(id.clone(), &mut state).unwrap();
    state.handle_event(&id, SessionEvent::TransportFailed("timeout".to_string())).unwrap();
    assert_eq!(connect_session(id.clone(), &mut state), Ok(()));
    assert_eq!(status_of(&state, &id), SessionStatus::Connecting);
}

#[test]
fn disconnect_discards_terminal_and_input() {
    let (mut state, id) = connected();
    send_input(id.clone(), b"exit\n".to_vec(), &mut state).unwrap();
    state.receive_output(&id, b"bye".to_vec()).unwrap();
    assert_eq!(disconnect_session(id.clone(), &mut state), Ok(()));
    assert_eq!(status_of(&state, &id), SessionStatus::Disconnected);
    assert!(state.entries[0].terminal.is_none());
    assert!(state.entries[0].pending_input.is_empty());
    assert_eq!(get_sessions(&state).len(), 1);
}

#[test]
fn reconnect_starts_from_a_blank_terminal() {
    let (mut state, id) = connected();
    state.receive_output(&id, b"\x1b[1;31mold text\x1b[5".to_vec()).unwrap();
    disconnect_session(id.clone(), &mut state).unwrap();
    connect_session(id.clone(), &mut state).unwrap();
    state.handle_event(&id, SessionEvent::TransportReady).unwrap();
    let snap = state.snapshot(&id).unwrap();
    assert!(snap.cells.iter().flatten().all(|cell| *cell == Cell::default()));
    state.receive_output(&id, b"A".to_vec()).unwrap();
    let snap = state.snapshot(&id).unwrap();
    assert_eq!(snap.cells[0][0], Cell { ch: 'A', ..Cell::default() });
}

#[test]
fn transport_failure_while_connected_is_an_error() {
    let (mut state, id) = connected();
    assert_eq!(
        state.handle_event(&id, SessionEvent::TransportFailed("broken pipe".to_string())),
        Ok(SessionAction::CloseTransport)
    );
    assert_eq!(status_of(&state, &id), SessionStatus::Error("broken pipe".to_string()));
    assert!(state.entries[0].terminal.is_none());
}

#[test]
fn transport_closed_disconnects() {
    let (mut state, id) = connected();
    assert_eq!(
        state.handle_event(&id, SessionEvent::TransportClosed),
        Ok(SessionAction::CloseTransport)
    );
    assert_eq!(status_of(&state, &id), SessionStatus::Disconnected);
}

#[test]
fn cancel_of_a_pending_connect_disconnects() {
    let (mut state, id) = manager_with_session();
    connect_session(id.clone(), &mut state).unwrap();
    assert_eq!(
        state.handle_event(&id, SessionEvent::Cancel),
        Ok(SessionAction::DiscardTransport)
    );
    assert_eq!(status_of(&state, &id), SessionStatus::Disconnected);
    assert_eq!(state.handle_event(&id, SessionEvent::Cancel), Err(TerminalError::InvalidState));
}

#[test]
fn every_pair_of_status_and_event_follows_the_table() {
    let statuses = || {
        vec![
            SessionStatus::Disconnected,
            SessionStatus::Connecting,
            SessionStatus::Connected,
            SessionStatus::Error("e".to_string()),
        ]
    };
    let events = || {
        vec![
            SessionEvent::Connect,
            SessionEvent::TransportReady,
            SessionEvent::TransportFailed("r".to_string()),
            SessionEvent::Disconnect,
            SessionEvent::TransportClosed,
            SessionEvent::Cancel,
        ]
    };
    let mut accepted = 0;
    for (si, status) in statuses().into_iter().enumerate() {
        for (ei, event) in events().into_iter().enumerate() {
            let result = status.on_event(event);
            let expected = match (si, ei) {
                (0, 0) | (3, 0) => Some((SessionStatus::Connecting, SessionAction::OpenTransport)),
                (1, 1) => Some((SessionStatus::Connected, SessionAction::StartPump)),
                (1, 2) => Some((
                    SessionStatus::Error("r".to_string()),
                    SessionAction::DiscardTransport,
                )),
                (1, 5) => Some((SessionStatus::Disconnected, SessionAction::DiscardTransport)),
                (2, 3) | (2, 4) => {
                    Some((SessionStatus::Disconnected, SessionAction::CloseTransport))
                }
                (2, 2) => {
                    Some((SessionStatus::Error("r".to_string()), SessionAction::CloseTransport))
                }
                _ => None,
            };
            match expected {
                Some(pair) => {
                    accepted += 1;
                    assert_eq!(result, Ok(pair));
                }
                None => assert_eq!(result, Err(TerminalError::InvalidState)),
            }
        }
    }
    assert_eq!(accepted, 8);
}

#[test]
fn is_connected_only_in_connected() {
    assert!(SessionStatus::Connected.is_connected());
    assert!(!SessionStatus::Connecting.is_connected());
    assert!(!SessionStatus::Disconnected.is_connected());
    assert!(!SessionStatus::Error("x".to_string()).is_connected());
}

#[test]
fn input_is_rejected_unless_connected() {
    let (mut state, id) = manager_with_session();
    assert_eq!(send_input(id.clone(), b"ls\n".to_vec(), &mut state), Err(TerminalError::InvalidState));
    connect_session(id.clone(), &mut state).unwrap();
    assert_eq!(send_input(id.clone(), b"ls\n".to_vec(), &mut state), Err(TerminalError::InvalidState));
    assert!(state.entries[0].pending_input.is_empty());
    assert_eq!(state.take_input(&id), Err(TerminalError::InvalidState));
}

#[test]
fn input_reaches_the_write_path_in_submission_order() {
    let (mut state, id) = connected();
    let other =
        create_session("o".to_string(), "h".to_string(), 22, "u".to_string(), &mut state).unwrap();
    assert_eq!(send_input(id.clone(), b"first ".to_vec(), &mut state), Ok(()));
    assert_eq!(resize_pty(id.clone(), 40, 120, &mut state), Ok(()));
    assert_eq!(send_input(id.clone(), b"second ".to_vec(), &mut state), Ok(()));
    assert_eq!(resize_pty(other.clone(), 5, 5, &mut state), Ok(()));
    assert_eq!(send_input(id.clone(), b"third".to_vec(), &mut state), Ok(()));
    assert_eq!(state.take_input(&id), Ok(b"first second third".to_vec()));
    assert_eq!(state.take_input(&id), Ok(Vec::new()));
    assert_eq!(send_input(id.clone(), b"x".to_vec(), &mut state), Ok(()));
    assert_eq!(state.take_input(&id), Ok(b"x".to_vec()));
}

#[test]
fn resize_updates_the_declared_size_in_every_status() {
    let (mut state, id) = manager_with_session();
    assert_eq!(resize_pty(id.clone(), 30, 100, &mut state), Ok(()));
    let session = &get_sessions(&state)[0];
    assert_eq!((session.rows, session.cols), (30, 100));
    assert!(state.entries[0].terminal.is_none());
    connect_session(id.clone(), &mut state).unwrap();
    state.handle_event(&id, SessionEvent::TransportReady).unwrap();
    let term = state.entries[0].terminal.as_ref().unwrap();
    assert_eq!((term.rows, term.cols), (30, 100));
}

#[test]
fn resize_reaches_the_terminal_of_a_connected_session() {
    let (mut state, id) = connected();
    state.receive_output(&id, b"hello".to_vec()).unwrap();
    assert_eq!(resize_pty(id.clone(), 10, 40, &mut state), Ok(()));
    let session = &get_sessions(&state)[0];
    assert_eq!((session.rows, session.cols), (10, 40));
    let snap = state.snapshot(&id).unwrap();
    assert_eq!((snap.rows, snap.cols), (10, 40));
    assert_eq!(snap.cells.len(), 10);
    assert!(snap.cells.iter().all(|row| row.len() == 40));
    assert!(snap.cells.iter().flatten().all(|cell| *cell == Cell::default()));
    assert_eq!((snap.cursor_row, snap.cursor_col), (0, 0));
}

#[test]
fn output_is_written_to_the_terminal_and_handed_back() {
    let (mut state, id) = connected();
    let output = state.receive_output(&id, b"\x1b[5;10HX".to_vec()).unwrap();
    assert_eq!(output.session_id, id);
    assert_eq!(output.data, b"\x1b[5;10HX".to_vec());
    assert_eq!((output.rows, output.cols), (24, 80));
    let snap = state.snapshot(&id).unwrap();
    assert_eq!(snap.cells[4][9].ch, 'X');
    assert_eq!((snap.cursor_row, snap.cursor_col), (4, 10));
}

#[test]
fn output_is_rejected_unless_connected() {
    let (mut state, id) = manager_with_session();
    assert!(matches!(
        state.receive_output(&id, b"x".to_vec()),
        Err(TerminalError::InvalidState)
    ));
    assert_eq!(state.snapshot(&id), Err(TerminalError::InvalidState));
}

#[test]
fn first_session_with_an_identity_is_the_one_found() {
    let mut state = SessionManager::new();
    let same = "same".to_string();
    state.add_session(same.clone(), "one".to_string(), "h".to_string(), 1, "u".to_string());
    state.add_session(same.clone(), "two".to_string(), "h".to_string(), 2, "u".to_string());
    assert_eq!(state.position(&same), Some(0));
    connect_session(same.clone(), &mut state).unwrap();
    let sessions = get_sessions(&state);
    assert_eq!(sessions[0].status, SessionStatus::Connecting);
    assert_eq!(sessions[1].status, SessionStatus::Disconnected);
}

#[test]
fn delete_removes_only_that_session() {
    let (mut state, first) = connected();
    let second =
        create_session("b".to_string(), "h".to_string(), 22, "u".to_string(), &mut state).unwrap();
    assert_eq!(state.delete_session(&first), Ok(()));
    let sessions = get_sessions(&state);
    assert_eq!(sessions.len(), 1);
    assert_eq!(sessions[0].id, second);
    assert_eq!(state.delete_session(&first), Err(TerminalError::SessionNotFound));
}

#[test]
fn sessions_have_separate_terminals() {
    let (mut state, first) = connected();
    let second =
        create_session("b".to_string(), "h".to_string(), 22, "u".to_string(), &mut state).unwrap();
    connect_session(second.clone(), &mut state).unwrap();
    state.handle_event(&second, SessionEvent::TransportReady).unwrap();
    state.receive_output(&first, b"one".to_vec()).unwrap();
    state.receive_output(&second, b"\x1b[31mtwo".to_vec()).unwrap();
    assert_eq!(state.snapshot(&first).unwrap().cells[0][0], Cell { ch: 'o', ..Cell::default() });
    assert_eq!(state.snapshot(&second).unwrap().cells[0][0].ch, 't');
    assert_eq!(state.snapshot(&second).unwrap().cells[0][0].fg, 0x00CD_3131);
}

#[test]
fn error_messages() {
    assert_eq!(
        TerminalError::ConnectionFailed("auth rejected".to_string()).message(),
        "Connection failed: auth rejected"
    );
    assert_eq!(TerminalError::TransportClosed.message(), "Transport closed");
    assert_eq!(TerminalError::InvalidState.message(), "Invalid state");
    assert_eq!(TerminalError::MalformedSequence.message(), "Malformed sequence");
    assert_eq!(TerminalError::SessionNotFound.message(), "Session not found");
}

#[test]
fn clones_are_equal() {
    let session = Session::new(
        "i".to_string(),
        "n".to_string(),
        "h".to_string(),
        1,
        "u".to_string(),
    );
    let copy = session.clone();
    assert_eq!(copy.id, session.id);
    assert_eq!(copy.status, session.status);
    let status = SessionStatus::Error("why".to_string());
    assert_eq!(status.clone(), status);
}

#[test]
fn manager_built_through_its_operations_is_well_formed() {
    let (mut state, id) = connected();
    assert!(state.is_well_formed());
    send_input(id.clone(), b"abc".to_vec(), &mut state).unwrap();
    state.receive_output(&id, b"\x1b[31mhi\x1b[".to_vec()).unwrap();
    resize_pty(id.clone(), 3, 3, &mut state).unwrap();
    assert!(state.is_well_formed());
    disconnect_session(id.clone(), &mut state).unwrap();
    assert!(state.is_well_formed());
    assert!(SessionManager::new().is_well_formed());
}

#[test]
fn tampered_manager_is_not_well_formed() {
    let (mut state, _) = connected();
    state.entries[0].session.rows = 5;
    assert!(!state.is_well_formed());
    let (mut state, _) = connected();
    state.entries[0].terminal = None;
    assert!(!state.is_well_formed());
    let (mut state, _) = manager_with_session();
    state.entries[0].pending_input.push(1);
    assert!(!state.is_well_formed());
    let (mut state, _) = connected();
    state.entries[0].terminal.as_mut().unwrap().grid.pop();
    assert!(!state.is_well_formed());
}

use rust_chat::commands::{Execution, Rejection, StorageError};
use rust_chat::guard::GuardError;
use rust_chat::membership::RoomMembership;
use rust_chat::protocol::{ChatCommand, FrameError};
use rust_chat::registry::ConnectionRegistry;
use rust_chat::session::{ConnectionSession, Inbound, Phase, ReaderStep};
use rust_chat::state::ChatServerState;
use tokio::sync::mpsc::{unbounded_channel, UnboundedReceiver};

const U1: u128 = 0x1111;
const U2: u128 = 0x2222;
const U3: u128 = 0x3333;

fn join_frame(room: &str, name: &str) -> String {
    format!("{{\"type\":\"join_room\",\"room_id\":\"{}\",\"username\":\"{}\"}}", room, name)
}

fn send_frame(room: &str, content: &str) -> String {
    format!("{{\"type\":\"send_message\",\"room_id\":\"{}\",\"content\":\"{}\"}}", room, content)
}

fn connect(state: &mut ChatServerState, user: u128) -> (ConnectionSession, UnboundedReceiver<String>) {
    let (tx, rx) = unbounded_channel::<String>();
    let session = ConnectionSession::accept(Ok(user), tx, state).expect("accepted");
    (session, rx)
}

fn dispatch(session: &mut ConnectionSession, frame: String) -> ChatCommand {
    match session.on_inbound(Inbound::Text(frame)) {
        ReaderStep::Dispatch(cmd) => cmd,
        other => panic!("expected a command, got {:?}", other),
    }
}

fn join(state: &mut ChatServerState, session: &mut ConnectionSession, room: &str, name: &str) {
    let cmd = dispatch(session, join_frame(room, name));
    let user = session.user_id();
    assert!(matches!(ChatCommand::execute(cmd, user, state), Execution::Joined));
}

/// Runs a send through save, name lookup and fan-out, with storage answering
/// as given.
fn send(
    state: &mut ChatServerState,
    session: &mut ConnectionSession,
    room: &str,
    content: &str,
    name: &str,
) -> Vec<u128> {
    let cmd = dispatch(session, send_frame(room, content));
    let user = session.user_id();
    let pending = match ChatCommand::execute(cmd, user, state) {
        Execution::Save(p) => p,
        other => panic!("expected a save, got {:?}", other),
    };
    let persisted = pending.saved(Ok(7)).expect("saved");
    assert_eq!(persisted.id(), 7);
    let delivery = persisted.broadcast(Ok(name.to_string()), state).expect("delivered");
    delivery.recipients
}

#[test]
fn registry_register_lookup_unregister() {
    let mut reg = ConnectionRegistry::new();
    assert!(reg.lookup(U1).is_none());
    let (tx, mut rx) = unbounded_channel::<String>();
    reg.register(U1, tx);
    assert!(reg.contains(U1));
    let outbox = reg.lookup(U1).expect("registered");
    outbox.send("ping".to_string()).unwrap();
    assert_eq!(rx.try_recv().unwrap(), "ping");
    reg.unregister(U1);
    assert!(reg.lookup(U1).is_none());
    reg.unregister(U1);
    assert!(!reg.contains(U1));
}

#[test]
fn registry_replaces_earlier_channel() {
    let mut reg = ConnectionRegistry::new();
    let (tx1, mut rx1) = unbounded_channel::<String>();
    let (tx2, mut rx2) = unbounded_channel::<String>();
    reg.register(U1, tx1);
    reg.register(U1, tx2);
    reg.lookup(U1).unwrap().send("x".to_string()).unwrap();
    assert_eq!(rx2.try_recv().unwrap(), "x");
    assert!(rx1.try_recv().is_err());
}

#[test]
fn join_twice_keeps_one_membership() {
    let mut m = RoomMembership::new();
    m.join("general".to_string(), U1);
    assert_eq!(m.members_of("general").len(), 1);
    m.join("general".to_string(), U1);
    assert_eq!(m.members_of("general"), vec![U1]);
}

#[test]
fn leave_touches_one_room_only() {
    let mut m = RoomMembership::new();
    m.join("a".to_string(), U1);
    m.join("b".to_string(), U1);
    m.leave("a", U1);
    assert!(m.members_of("a").is_empty());
    assert!(m.has_room("a"));
    assert_eq!(m.members_of("b"), vec![U1]);
    m.leave("missing", U1);
    assert!(!m.has_room("missing"));
}

#[test]
fn leave_all_clears_every_room() {
    let mut m = RoomMembership::new();
    m.join("a".to_string(), U1);
    m.join("b".to_string(), U1);
    m.join("b".to_string(), U2);
    m.join("c".to_string(), U2);
    m.leave_all(U1);
    assert!(m.members_of("a").is_empty());
    assert_eq!(m.members_of("b"), vec![U2]);
    assert_eq!(m.members_of("c"), vec![U2]);
    assert!(m.has_room("a"));
}

#[test]
fn members_of_is_a_snapshot() {
    let mut m = RoomMembership::new();
    m.join("r".to_string(), U1);
    m.join("r".to_string(), U2);
    let snap = m.members_of("r");
    m.leave("r", U1);
    let mut sorted = snap.clone();
    sorted.sort();
    assert_eq!(sorted, vec![U1, U2]);
    assert_eq!(m.members_of("r"), vec![U2]);
    assert!(m.members_of("nowhere").is_empty());
}

#[test]
fn scenario_two_members_one_message() {
    let mut state = ChatServerState::new();
    let (mut s1, mut rx1) = connect(&mut state, U1);
    let (mut s2, mut rx2) = connect(&mut state, U2);
    join(&mut state, &mut s1, "general", "U1");
    join(&mut state, &mut s2, "general", "U2");
    let reached = send(&mut state, &mut s1, "general", "hi", "U1");
    assert_eq!(reached, vec![U2]);
    assert_eq!(
        rx2.try_recv().unwrap(),
        "{\"type\":\"new_message\",\"room_id\":\"general\",\"username\":\"U1\",\"content\":\"hi\"}"
    );
    assert!(rx2.try_recv().is_err());
    assert!(rx1.try_recv().is_err());
}

#[test]
fn scenario_departed_member_gets_nothing() {
    let mut state = ChatServerState::new();
    let (mut s1, mut rx1) = connect(&mut state, U1);
    let (mut s2, _rx2) = connect(&mut state, U2);
    join(&mut state, &mut s1, "general", "U1");
    assert!(matches!(s1.on_inbound(Inbound::Close), ReaderStep::Stop));
    assert_eq!(s1.phase(), Phase::Closing);
    assert!(s1.close(&mut state));
    assert!(state.connections.lookup(U1).is_none());
    let reached = send(&mut state, &mut s2, "general", "anyone?", "U2");
    assert!(reached.is_empty());
    assert!(rx1.try_recv().is_err());
}

#[test]
fn scenario_empty_room_send_succeeds() {
    let mut state = ChatServerState::new();
    let (mut s1, mut rx1) = connect(&mut state, U1);
    let reached = send(&mut state, &mut s1, "lonely", "echo", "U1");
    assert!(reached.is_empty());
    assert!(rx1.try_recv().is_err());
    let frame = String::from("f");
    assert!(state.publish("nobody-here", &frame, U1).is_empty());
}

#[test]
fn scenario_expired_credential_creates_nothing() {
    let mut state = ChatServerState::new();
    let (tx, _rx) = unbounded_channel::<String>();
    let refused = ConnectionSession::accept(Err(GuardError::Expired), tx, &mut state);
    assert_eq!(refused.unwrap_err(), GuardError::Expired);
    assert!(state.connections.lookup(U1).is_none());
    assert!(!state.room_members.has_room("general"));
}

#[test]
fn closed_session_leaves_no_trace() {
    let mut state = ChatServerState::new();
    let (mut s1, _rx1) = connect(&mut state, U1);
    let (mut s2, _rx2) = connect(&mut state, U2);
    join(&mut state, &mut s1, "a", "U1");
    join(&mut state, &mut s1, "b", "U1");
    join(&mut state, &mut s2, "b", "U2");
    s1.on_writer_end();
    assert_eq!(s1.phase(), Phase::Closing);
    assert!(s1.close(&mut state));
    assert_eq!(s1.phase(), Phase::Closed);
    assert!(state.connections.lookup(U1).is_none());
    assert!(state.room_members.members_of("a").is_empty());
    assert_eq!(state.room_members.members_of("b"), vec![U2]);
    assert!(state.connections.lookup(U2).is_some());
}

#[test]
fn cleanup_runs_once() {
    let mut state = ChatServerState::new();
    let (mut s1, _rx1) = connect(&mut state, U1);
    assert!(s1.close(&mut state));
    // the same user connects again; closing the old session again changes nothing
    let (_s1b, _rx1b) = connect(&mut state, U1);
    assert!(!s1.close(&mut state));
    assert!(state.connections.lookup(U1).is_some());
}

#[test]
fn departed_recipient_does_not_stop_others() {
    let mut state = ChatServerState::new();
    let (mut s1, _rx1) = connect(&mut state, U1);
    let (mut s2, rx2) = connect(&mut state, U2);
    let (mut s3, mut rx3) = connect(&mut state, U3);
    join(&mut state, &mut s1, "r", "U1");
    join(&mut state, &mut s2, "r", "U2");
    join(&mut state, &mut s3, "r", "U3");
    // snapshot first, then U2 goes away before delivery
    let targets = state.room_members.members_of("r");
    drop(rx2);
    assert!(s2.close(&mut state));
    let frame = String::from("late");
    let reached = state.deliver(&targets, &frame, U1);
    assert_eq!(reached, vec![U3]);
    assert_eq!(rx3.try_recv().unwrap(), "late");
}

#[test]
fn closed_channel_is_skipped_silently() {
    let mut state = ChatServerState::new();
    let (mut s1, _rx1) = connect(&mut state, U1);
    let (mut s2, rx2) = connect(&mut state, U2);
    let (mut s3, mut rx3) = connect(&mut state, U3);
    join(&mut state, &mut s1, "r", "U1");
    join(&mut state, &mut s2, "r", "U2");
    join(&mut state, &mut s3, "r", "U3");
    drop(rx2);
    let mut reached = send(&mut state, &mut s1, "r", "still here", "U1");
    reached.sort();
    assert_eq!(reached, vec![U2, U3]);
    assert!(rx3.try_recv().unwrap().contains("still here"));
}

#[test]
fn malformed_frame_keeps_connection_open() {
    let mut state = ChatServerState::new();
    let (mut s1, _rx1) = connect(&mut state, U1);
    let step = s1.on_inbound(Inbound::Text("{not json".to_string()));
    assert!(matches!(step, ReaderStep::Skip(FrameError::Malformed)));
    assert_eq!(s1.phase(), Phase::Open);
    let step = s1.on_inbound(Inbound::Text("{\"type\":\"dance\"}".to_string()));
    assert!(matches!(step, ReaderStep::Skip(FrameError::UnknownType)));
    assert!(matches!(s1.on_inbound(Inbound::Other), ReaderStep::Ignore));
    join(&mut state, &mut s1, "general", "U1");
    assert_eq!(state.room_members.members_of("general"), vec![U1]);
}

#[test]
fn failed_socket_stops_reading() {
    let mut state = ChatServerState::new();
    let (mut s1, _rx1) = connect(&mut state, U1);
    assert!(matches!(s1.on_inbound(Inbound::Failed), ReaderStep::Stop));
    assert_eq!(s1.phase(), Phase::Closing);
    assert!(matches!(s1.on_inbound(Inbound::Text(join_frame("a", "b"))), ReaderStep::Stop));
}

#[test]
fn failed_save_broadcasts_nothing() {
    let mut state = ChatServerState::new();
    let (mut s1, _rx1) = connect(&mut state, U1);
    let (mut s2, mut rx2) = connect(&mut state, U2);
    join(&mut state, &mut s1, "general", "U1");
    join(&mut state, &mut s2, "general", "U2");
    let cmd = dispatch(&mut s1, send_frame("general", "lost"));
    let pending = match ChatCommand::execute(cmd, U1, &mut state) {
        Execution::Save(p) => p,
        other => panic!("expected a save, got {:?}", other),
    };
    assert_eq!(pending.room_id, "general");
    assert_eq!(pending.content, "lost");
    assert_eq!(pending.user_id, U1);
    let outcome = pending.saved(Err(StorageError { reason: "down".to_string() }));
    assert_eq!(outcome.unwrap_err(), Rejection::StorageFailed);
    assert!(rx2.try_recv().is_err());
}

#[test]
fn unknown_sender_broadcasts_nothing() {
    let mut state = ChatServerState::new();
    let (mut s1, _rx1) = connect(&mut state, U1);
    let (mut s2, mut rx2) = connect(&mut state, U2);
    join(&mut state, &mut s1, "general", "U1");
    join(&mut state, &mut s2, "general", "U2");
    let cmd = dispatch(&mut s1, send_frame("general", "who am i"));
    let pending = match ChatCommand::execute(cmd, U1, &mut state) {
        Execution::Save(p) => p,
        other => panic!("expected a save, got {:?}", other),
    };
    let persisted = pending.saved(Ok(1)).unwrap();
    let outcome = persisted.broadcast(Err(StorageError { reason: "no row".to_string() }), &state);
    assert_eq!(outcome.unwrap_err(), Rejection::UnknownSender);
    assert!(rx2.try_recv().is_err());
}

#[test]
fn empty_room_id_is_dropped() {
    let mut state = ChatServerState::new();
    let (mut s1, _rx1) = connect(&mut state, U1);
    let cmd = dispatch(&mut s1, join_frame("", "U1"));
    assert!(matches!(
        ChatCommand::execute(cmd, U1, &mut state),
        Execution::Dropped(Rejection::InvalidRoom)
    ));
    let cmd = dispatch(&mut s1, send_frame("", "x"));
    assert!(matches!(
        ChatCommand::execute(cmd, U1, &mut state),
        Execution::Dropped(Rejection::InvalidRoom)
    ));
    assert!(!state.room_members.has_room(""));
}

#[test]
fn join_without_connection_still_joins() {
    let mut state = ChatServerState::new();
    let cmd = ChatCommand::JoinRoom { room_id: "general".to_string(), username: "ghost".to_string() };
    assert!(matches!(ChatCommand::execute(cmd, U3, &mut state), Execution::Joined));
    assert_eq!(state.room_members.members_of("general"), vec![U3]);
}

#[test]
fn orphaned_connection_keeps_joining_after_first_closes() {
    let mut state = ChatServerState::new();
    let (mut first, _rx_a) = connect(&mut state, U1);
    let (mut second, _rx_b) = connect(&mut state, U1);
    assert!(first.close(&mut state));
    assert!(state.connections.lookup(U1).is_none());
    join(&mut state, &mut second, "general", "U1");
    assert_eq!(state.room_members.members_of("general"), vec![U1]);
    assert!(second.close(&mut state));
    assert!(state.room_members.members_of("general").is_empty());
}

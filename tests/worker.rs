use blitzstream::codec::decode;
use blitzstream::envelope::{WebSocketCommand, WebSocketMessage};
use blitzstream::worker::{
    IncomingFrame, LinkState, LoopStep, WebSocketWorker, WorkerAction, WorkerEvent,
};

fn connected_worker() -> WebSocketWorker {
    let mut w = WebSocketWorker::new();
    w.step(
        WorkerEvent::Opened { url: "ws://stub".to_string(), outcome: Ok(()) },
        1,
    );
    w
}

fn emitted(actions: &[WorkerAction]) -> Vec<&WebSocketMessage> {
    actions
        .iter()
        .filter_map(|a| match a {
            WorkerAction::Emit(m) => Some(m),
            _ => None,
        })
        .collect()
}

fn payload_text(m: &WebSocketMessage) -> String {
    String::from_utf8(m.payload.clone()).unwrap()
}

fn text_frame(t: &str) -> WorkerEvent {
    WorkerEvent::Incoming(IncomingFrame::Text { text: t.to_string(), envelope: None })
}

#[test]
fn worker_starts_disconnected() {
    let w = WebSocketWorker::new();
    assert_eq!(w.state, LinkState::Disconnected);
    assert!(!w.is_connected());
}

#[test]
fn connect_command_opens() {
    let mut w = WebSocketWorker::new();
    let acts = w.step(WorkerEvent::Command(WebSocketCommand::Connect("ws://a".to_string())), 0);
    assert_eq!(acts.len(), 1);
    assert!(matches!(&acts[0], WorkerAction::Open(u) if u == "ws://a"));
    assert_eq!(w.state, LinkState::Disconnected);
}

#[test]
fn successful_handshake_reports_connected() {
    let mut w = WebSocketWorker::new();
    let acts = w.connect("ws://a".to_string(), Ok(()), 42);
    assert_eq!(w.state, LinkState::Connected);
    assert_eq!(acts.len(), 1);
    let m = emitted(&acts)[0];
    assert_eq!(m.mtype, "connection_status");
    assert_eq!(payload_text(m), "{\"status\":\"connected\",\"url\":\"ws://a\"}");
    assert_eq!(m.ts, 42);
}

#[test]
fn failed_handshake_reports_error_once() {
    let mut w = WebSocketWorker::new();
    let acts = w.step(
        WorkerEvent::Opened {
            url: "ws://127.0.0.1:1".to_string(),
            outcome: Err("IO error: Connection refused (os error 111)".to_string()),
        },
        8,
    );
    assert_eq!(w.state, LinkState::Disconnected);
    assert_eq!(acts.len(), 1);
    let m = emitted(&acts)[0];
    assert_eq!(m.mtype, "connection_status");
    assert_eq!(
        payload_text(m),
        "{\"error\":\"IO error: Connection refused (os error 111)\",\"status\":\"failed\",\"url\":\"ws://127.0.0.1:1\"}"
    );
    // nothing further follows while no connection exists
    assert!(matches!(w.next_step(None), LoopStep::Idle));
}

#[test]
fn failed_handshake_keeps_existing_connection() {
    let mut w = connected_worker();
    w.connect("ws://b".to_string(), Err("refused".to_string()), 2);
    assert_eq!(w.state, LinkState::Connected);
}

#[test]
fn garbled_text_frame_becomes_one_raw_text_envelope() {
    let w = connected_worker();
    let acts = w.handle_incoming_message(
        IncomingFrame::Text { text: "{\"ti\u{101}not json".to_string(), envelope: None },
        5,
    );
    assert_eq!(acts.len(), 1);
    let m = emitted(&acts)[0];
    assert_eq!(m.mtype, "raw_text");
    assert_eq!(m.payload, "{\"ti\u{101}not json".as_bytes().to_vec());
    assert_eq!(m.ts, 5);
}

#[test]
fn envelope_text_frame_is_forwarded_as_is() {
    let w = connected_worker();
    let inner = WebSocketMessage { mtype: "custom".to_string(), payload: vec![1, 2, 3], ts: 99 };
    let acts = w.handle_incoming_message(
        IncomingFrame::Text { text: "ignored".to_string(), envelope: Some(inner) },
        5,
    );
    assert_eq!(acts.len(), 1);
    let m = emitted(&acts)[0];
    assert_eq!(m.mtype, "custom");
    assert_eq!(m.payload, vec![1, 2, 3]);
    assert_eq!(m.ts, 99);
}

#[test]
fn binary_frame_becomes_binary_envelope() {
    let w = connected_worker();
    let acts = w.handle_incoming_message(IncomingFrame::Binary(vec![0xff, 0x00, 0x10]), 6);
    assert_eq!(acts.len(), 1);
    let m = emitted(&acts)[0];
    assert_eq!(m.mtype, "binary");
    assert_eq!(payload_text(m), "{\"data\":\"/wAQ\",\"size\":3}");
}

#[test]
fn ping_is_answered_and_control_frames_are_silent() {
    let w = connected_worker();
    let acts = w.handle_incoming_message(IncomingFrame::Ping(vec![7]), 0);
    assert_eq!(acts.len(), 1);
    assert!(matches!(&acts[0], WorkerAction::SendPong(d) if d == &vec![7u8]));
    assert!(w.handle_incoming_message(IncomingFrame::Pong(vec![1]), 0).is_empty());
    assert!(w.handle_incoming_message(IncomingFrame::Close, 0).is_empty());
    assert!(w.handle_incoming_message(IncomingFrame::Raw, 0).is_empty());
}

#[test]
fn sends_need_a_connection() {
    let mut w = WebSocketWorker::new();
    let m = WebSocketMessage { mtype: "x".to_string(), payload: vec![], ts: 0 };
    assert!(w.step(WorkerEvent::Command(WebSocketCommand::Send(m)), 0).is_empty());
    assert!(w.step(WorkerEvent::Command(WebSocketCommand::SendRaw(vec![1])), 0).is_empty());
    assert!(w.step(WorkerEvent::Command(WebSocketCommand::Disconnect), 0).is_empty());
    assert_eq!(w.state, LinkState::Disconnected);
}

#[test]
fn sends_go_out_when_connected() {
    let w = connected_worker();
    let m = WebSocketMessage { mtype: "x".to_string(), payload: vec![4], ts: 1 };
    let acts = w.send_message(m);
    assert!(matches!(&acts[..], [WorkerAction::SendMessage(m)] if m.mtype == "x"));
    let acts = w.send_raw(b"{\"a\":111}".to_vec());
    assert!(matches!(&acts[..], [WorkerAction::SendBinary(b)] if b == b"{\"a\":111}"));
}

#[test]
fn disconnect_closes_and_reports() {
    let mut w = connected_worker();
    let acts = w.step(WorkerEvent::Command(WebSocketCommand::Disconnect), 12);
    assert_eq!(w.state, LinkState::Disconnected);
    assert_eq!(acts.len(), 2);
    assert!(matches!(&acts[0], WorkerAction::Close));
    let m = emitted(&acts)[0];
    assert_eq!(payload_text(m), "{\"status\":\"disconnected\"}");
    assert_eq!(m.ts, 12);
}

#[test]
fn lost_stream_is_a_disconnect() {
    let mut w = connected_worker();
    let acts = w.step(WorkerEvent::Lost, 3);
    assert_eq!(w.state, LinkState::Disconnected);
    assert!(matches!(&acts[0], WorkerAction::Close));
    assert_eq!(emitted(&acts)[0].mtype, "connection_status");
    assert!(w.step(WorkerEvent::Lost, 4).is_empty());
}

#[test]
fn queued_commands_go_before_frames() {
    let w = connected_worker();
    assert!(matches!(
        w.next_step(Some(WebSocketCommand::Disconnect)),
        LoopStep::Apply(WebSocketCommand::Disconnect)
    ));
    assert!(matches!(w.next_step(None), LoopStep::Receive));
    let idle = WebSocketWorker::new();
    assert!(matches!(idle.next_step(None), LoopStep::Idle));
    assert!(matches!(
        idle.next_step(Some(WebSocketCommand::SendRaw(vec![1]))),
        LoopStep::Apply(WebSocketCommand::SendRaw(_))
    ));
}

#[test]
fn commands_then_frame_in_order() {
    let mut w = connected_worker();
    let mut all = Vec::new();
    all.extend(w.step(WorkerEvent::Command(WebSocketCommand::SendRaw(vec![1])), 0));
    all.extend(w.step(WorkerEvent::Command(WebSocketCommand::SendRaw(vec![2])), 0));
    all.extend(w.step(text_frame("hello"), 0));
    assert_eq!(all.len(), 3);
    assert!(matches!(&all[0], WorkerAction::SendBinary(b) if b == &vec![1u8]));
    assert!(matches!(&all[1], WorkerAction::SendBinary(b) if b == &vec![2u8]));
    assert!(matches!(&all[2], WorkerAction::Emit(m) if m.mtype == "raw_text"));
}

#[test]
fn frames_yield_envelopes_in_order() {
    let mut w = connected_worker();
    let mut all = Vec::new();
    all.extend(w.step(text_frame("one"), 0));
    all.extend(w.step(WorkerEvent::Incoming(IncomingFrame::Binary(vec![2])), 0));
    all.extend(w.step(text_frame("three"), 0));
    let ms = emitted(&all);
    assert_eq!(ms.len(), 3);
    assert_eq!(ms[0].payload, b"one".to_vec());
    assert_eq!(ms[1].mtype, "binary");
    assert_eq!(ms[2].payload, b"three".to_vec());
}

#[test]
fn end_to_end_connect_then_compressed_frame() {
    let mut w = WebSocketWorker::new();
    let mut all = Vec::new();
    let open = w.step(WorkerEvent::Command(WebSocketCommand::Connect("ws://stub".to_string())), 0);
    assert!(matches!(&open[..], [WorkerAction::Open(u)] if u == "ws://stub"));
    all.extend(w.step(WorkerEvent::Opened { url: "ws://stub".to_string(), outcome: Ok(()) }, 1));
    all.extend(w.step(text_frame("TOBEORNOT\u{100}\u{102}\u{104}\u{109}\u{103}\u{105}\u{107}"), 2));
    let ms = emitted(&all);
    assert_eq!(ms.len(), 2);
    assert_eq!(ms[0].mtype, "connection_status");
    assert_eq!(payload_text(ms[0]), "{\"status\":\"connected\",\"url\":\"ws://stub\"}");
    assert_eq!(ms[1].mtype, "raw_text");
    assert_eq!(decode(&payload_text(ms[1])), "TOBEORNOTTOBEORTOBEORNOT");
}

#[test]
fn shutdown_disconnects_then_exits() {
    let mut w = connected_worker();
    let acts = w.step(WorkerEvent::Command(WebSocketCommand::Shutdown), 20);
    assert_eq!(w.state, LinkState::Disconnected);
    assert_eq!(acts.len(), 3);
    assert!(matches!(&acts[0], WorkerAction::Close));
    assert!(matches!(&acts[1], WorkerAction::Emit(m) if m.mtype == "connection_status"));
    assert!(matches!(&acts[2], WorkerAction::Exit));
    let mut idle = WebSocketWorker::new();
    let acts = idle.step(WorkerEvent::Command(WebSocketCommand::Shutdown), 0);
    assert!(matches!(&acts[..], [WorkerAction::Exit]));
}

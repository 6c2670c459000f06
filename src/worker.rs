//! Decision logic of the connection worker.
//!
//! The worker is in one of two states, with or without a live connection.
//! Each event (a command from the manager, the outcome of a handshake, a frame
//! read from the socket, or the loss of the stream) moves it to a next state
//! and yields actions, in order, for the surrounding event loop to perform:
//! socket work and envelopes to emit towards the manager.

use crate::envelope::{
    binary_message, binary_text, connected_status, connected_text, disconnected_status,
    disconnected_text, failed_status, failed_text, raw_text_message, text_envelope, MessageKind,
    MessageView, WebSocketCommand, WebSocketMessage,
};
use vstd::prelude::*;

verus! {

/// Whether the worker holds a live connection.
#[derive(Debug, Clone, Copy, PartialEq, Eq, Structural)]
pub enum LinkState {
    Disconnected,
    Connected,
}

/// A frame read from the socket.
#[derive(Debug)]
pub enum IncomingFrame {
    /// A text frame, with the envelope it holds when its text parses as one.
    Text { text: String, envelope: Option<WebSocketMessage> },
    Binary(Vec<u8>),
    Ping(Vec<u8>),
    Pong(Vec<u8>),
    Close,
    /// A raw frame, which a reader of whole messages does not normally yield.
    Raw,
}

/// Something the worker reacts to.
#[derive(Debug)]
pub enum WorkerEvent {
    Command(WebSocketCommand),
    /// A handshake started by an `Open` action finished, with the error's
    /// description when it failed.
    Opened { url: String, outcome: Result<(), String> },
    Incoming(IncomingFrame),
    /// The peer closed the stream, or reading from it failed.
    Lost,
}

/// Work for the event loop.
#[derive(Debug)]
pub enum WorkerAction {
    /// Start a handshake with this address.
    Open(String),
    /// Send a close frame (best effort) and drop the connection.
    Close,
    /// Send this envelope as a JSON text frame.
    SendMessage(WebSocketMessage),
    SendBinary(Vec<u8>),
    SendPong(Vec<u8>),
    /// Hand this envelope to the manager.
    Emit(WebSocketMessage),
    /// Leave the event loop.
    Exit,
}

/// The mathematical value of an action.
pub enum ActionView {
    Open(Seq<char>),
    Close,
    SendMessage(MessageView),
    SendBinary(Seq<u8>),
    SendPong(Seq<u8>),
    Emit(MessageView),
    Exit,
}

impl View for WorkerAction {
    type V = ActionView;

    open spec fn view(&self) -> ActionView {
        match self {
            WorkerAction::Open(url) => ActionView::Open(url@),
            WorkerAction::Close => ActionView::Close,
            WorkerAction::SendMessage(m) => ActionView::SendMessage(m@),
            WorkerAction::SendBinary(b) => ActionView::SendBinary(b@),
            WorkerAction::SendPong(b) => ActionView::SendPong(b@),
            WorkerAction::Emit(m) => ActionView::Emit(m@),
            WorkerAction::Exit => ActionView::Exit,
        }
    }
}

pub open spec fn actions_view(v: Seq<WorkerAction>) -> Seq<ActionView> {
    v.map_values(|a: WorkerAction| a@)
}

/// What one turn of the event loop does.
#[derive(Debug)]
pub enum LoopStep {
    /// Apply a command that was waiting.
    Apply(WebSocketCommand),
    /// Wait a bounded time for one inbound frame.
    Receive,
    /// Sleep briefly, then look for commands again.
    Idle,
}

/// Binary frames are bounded by what a `Vec` can hold.
pub open spec fn frame_fits(f: IncomingFrame) -> bool {
    match f {
        IncomingFrame::Binary(d) => d@.len() <= usize::MAX / 2,
        _ => true,
    }
}

pub open spec fn event_fits(e: WorkerEvent) -> bool {
    match e {
        WorkerEvent::Incoming(f) => frame_fits(f),
        _ => true,
    }
}

/// Ending the connection, if there is one.
pub open spec fn disconnect_step(s: LinkState, now: u64) -> (LinkState, Seq<ActionView>) {
    if s == LinkState::Connected {
        (
            LinkState::Disconnected,
            seq![
                ActionView::Close,
                ActionView::Emit(
                    text_envelope(MessageKind::ConnectionStatus, disconnected_text(), now),
                ),
            ],
        )
    } else {
        (s, Seq::empty())
    }
}

/// Applying a command.
pub open spec fn command_step(s: LinkState, c: WebSocketCommand, now: u64) -> (
    LinkState,
    Seq<ActionView>,
) {
    match c {
        WebSocketCommand::Connect(url) => (s, seq![ActionView::Open(url@)]),
        WebSocketCommand::Disconnect => disconnect_step(s, now),
        WebSocketCommand::Send(m) => (
            s,
            if s == LinkState::Connected {
                seq![ActionView::SendMessage(m@)]
            } else {
                Seq::empty()
            },
        ),
        WebSocketCommand::SendRaw(b) => (
            s,
            if s == LinkState::Connected {
                seq![ActionView::SendBinary(b@)]
            } else {
                Seq::empty()
            },
        ),
        WebSocketCommand::Shutdown => {
            let (s1, a) = disconnect_step(s, now);
            (s1, a.push(ActionView::Exit))
        },
    }
}

/// Taking note of a finished handshake. A failed one leaves the state as it was.
pub open spec fn opened_step(
    s: LinkState,
    url: Seq<char>,
    outcome: Result<(), String>,
    now: u64,
) -> (LinkState, Seq<ActionView>) {
    match outcome {
        Ok(_) => (
            LinkState::Connected,
            seq![
                ActionView::Emit(
                    text_envelope(MessageKind::ConnectionStatus, connected_text(url), now),
                ),
            ],
        ),
        Err(e) => (
            s,
            seq![
                ActionView::Emit(
                    text_envelope(MessageKind::ConnectionStatus, failed_text(url, e@), now),
                ),
            ],
        ),
    }
}

/// The envelope a data frame becomes.
pub open spec fn frame_envelope(f: IncomingFrame, now: u64) -> MessageView {
    match f {
        IncomingFrame::Text { text, envelope } => match envelope {
            Some(m) => m@,
            None => text_envelope(MessageKind::RawText, text@, now),
        },
        IncomingFrame::Binary(d) => text_envelope(MessageKind::Binary, binary_text(d@), now),
        _ => arbitrary(),
    }
}

/// Whether a frame carries data, as opposed to control.
pub open spec fn is_data_frame(f: IncomingFrame) -> bool {
    f is Text || f is Binary
}

/// Handling an inbound frame: a data frame becomes exactly one envelope, a
/// ping is answered, anything else is only noted.
pub open spec fn frame_step(s: LinkState, f: IncomingFrame, now: u64) -> Seq<ActionView> {
    if is_data_frame(f) {
        seq![ActionView::Emit(frame_envelope(f, now))]
    } else {
        match f {
            IncomingFrame::Ping(d) => if s == LinkState::Connected {
                seq![ActionView::SendPong(d@)]
            } else {
                Seq::empty()
            },
            _ => Seq::empty(),
        }
    }
}

/// The worker's transition on one event.
pub open spec fn step_spec(s: LinkState, e: WorkerEvent, now: u64) -> (LinkState, Seq<ActionView>) {
    match e {
        WorkerEvent::Command(c) => command_step(s, c, now),
        WorkerEvent::Opened { url, outcome } => opened_step(s, url@, outcome, now),
        WorkerEvent::Incoming(f) => (s, frame_step(s, f, now)),
        WorkerEvent::Lost => disconnect_step(s, now),
    }
}

/// The worker's state and all its actions after a sequence of events.
pub open spec fn run_spec(s: LinkState, events: Seq<WorkerEvent>, now: u64) -> (
    LinkState,
    Seq<ActionView>,
)
    decreases events.len(),
{
    if events.len() == 0 {
        (s, Seq::empty())
    } else {
        let (s1, a) = run_spec(s, events.drop_last(), now);
        let (s2, b) = step_spec(s1, events.last(), now);
        (s2, a + b)
    }
}

/// The envelopes among some actions, in order.
pub open spec fn emitted(acts: Seq<ActionView>) -> Seq<MessageView>
    decreases acts.len(),
{
    if acts.len() == 0 {
        Seq::empty()
    } else {
        let rest = emitted(acts.drop_last());
        match acts.last() {
            ActionView::Emit(m) => rest.push(m),
            _ => rest,
        }
    }
}

proof fn lemma_emitted_append(a: Seq<ActionView>, b: Seq<ActionView>)
    ensures
        emitted(a + b) == emitted(a) + emitted(b),
    decreases b.len(),
{
    if b.len() == 0 {
        assert(a + b =~= a);
        assert(emitted(b) =~= Seq::<MessageView>::empty());
        assert(emitted(a) + emitted(b) =~= emitted(a));
    } else {
        lemma_emitted_append(a, b.drop_last());
        assert((a + b).drop_last() =~= a + b.drop_last());
        assert((a + b).last() == b.last());
        match b.last() {
            ActionView::Emit(m) => {
                assert(emitted(a) + emitted(b) =~= (emitted(a) + emitted(b.drop_last())).push(m));
            },
            _ => {},
        }
    }
}

/// Events for frames read in this order.
pub open spec fn frame_events(frames: Seq<IncomingFrame>) -> Seq<WorkerEvent> {
    frames.map_values(|f: IncomingFrame| WorkerEvent::Incoming(f))
}

/// Events for commands applied in this order.
pub open spec fn command_events(commands: Seq<WebSocketCommand>) -> Seq<WorkerEvent> {
    commands.map_values(|c: WebSocketCommand| WorkerEvent::Command(c))
}

/// Data frames read in order F1, F2, ... yield exactly one envelope each, in
/// the same order, and leave the connection state as it was.
pub proof fn lemma_envelopes_follow_frames(s: LinkState, frames: Seq<IncomingFrame>, now: u64)
    requires
        forall|i: int| 0 <= i < frames.len() ==> is_data_frame(#[trigger] frames[i]),
    ensures
        run_spec(s, frame_events(frames), now).0 == s,
        emitted(run_spec(s, frame_events(frames), now).1) == frames.map_values(
            |f: IncomingFrame| frame_envelope(f, now),
        ),
    decreases frames.len(),
{
    let events = frame_events(frames);
    if frames.len() == 0 {
        assert(emitted(Seq::<ActionView>::empty()) =~= Seq::<MessageView>::empty());
        assert(frames.map_values(|f: IncomingFrame| frame_envelope(f, now)) =~= Seq::<
            MessageView,
        >::empty());
    } else {
        let init = frames.drop_last();
        assert(events.drop_last() =~= frame_events(init));
        lemma_envelopes_follow_frames(s, init, now);
        let f = frames.last();
        assert(is_data_frame(frames[frames.len() - 1]));
        let (s1, a) = run_spec(s, frame_events(init), now);
        let b = frame_step(s1, f, now);
        assert(b == seq![ActionView::Emit(frame_envelope(f, now))]);
        lemma_emitted_append(a, b);
        assert(b.drop_last() =~= Seq::<ActionView>::empty());
        assert(emitted(b.drop_last()) =~= Seq::<MessageView>::empty());
        assert(b.last() == ActionView::Emit(frame_envelope(f, now)));
        assert(emitted(b) =~= seq![frame_envelope(f, now)]);
        assert(frames.map_values(|f: IncomingFrame| frame_envelope(f, now)) =~= init.map_values(
            |f: IncomingFrame| frame_envelope(f, now),
        ).push(frame_envelope(f, now)));
    }
}

/// Commands that were queued before a frame arrived are all applied before
/// the frame is handled: the frame's actions come after every one of theirs,
/// and it is handled in the state they left.
pub proof fn lemma_commands_before_frame(
    s: LinkState,
    commands: Seq<WebSocketCommand>,
    frame: IncomingFrame,
    now: u64,
)
    ensures
        ({
            let (s1, a) = run_spec(s, command_events(commands), now);
            run_spec(s, command_events(commands).push(WorkerEvent::Incoming(frame)), now) == (
                s1,
                a + frame_step(s1, frame, now),
            )
        }),
{
    let events = command_events(commands).push(WorkerEvent::Incoming(frame));
    assert(events.drop_last() =~= command_events(commands));
}

/// The connection worker's state.
#[derive(Debug)]
pub struct WebSocketWorker {
    pub state: LinkState,
}

fn one(a: WorkerAction) -> (r: Vec<WorkerAction>)
    ensures
        actions_view(r@) == seq![a@],
{
    let mut r: Vec<WorkerAction> = Vec::new();
    r.push(a);
    assert(actions_view(r@) =~= seq![a@]);
    r
}

fn none() -> (r: Vec<WorkerAction>)
    ensures
        actions_view(r@) == Seq::<ActionView>::empty(),
{
    let r: Vec<WorkerAction> = Vec::new();
    assert(actions_view(r@) =~= Seq::<ActionView>::empty());
    r
}

impl WebSocketWorker {
    /// A worker without a connection.
    pub fn new() -> (r: Self)
        ensures
            r.state == LinkState::Disconnected,
    {
        WebSocketWorker { state: LinkState::Disconnected }
    }

    pub fn is_connected(&self) -> (r: bool)
        ensures
            r == (self.state == LinkState::Connected),
    {
        self.state == LinkState::Connected
    }

    /// The next turn of the event loop, given the command that was waiting,
    /// if any. A waiting command always goes first, so commands are never
    /// starved by inbound traffic; without one, a connected worker reads a
    /// frame and a disconnected one sleeps.
    pub fn next_step(&self, queued: Option<WebSocketCommand>) -> (r: LoopStep)
        ensures
            match queued {
                Some(c) => r == LoopStep::Apply(c),
                None => if self.state == LinkState::Connected {
                    r is Receive
                } else {
                    r is Idle
                },
            },
    {
        match queued {
            Some(c) => LoopStep::Apply(c),
            None => if self.is_connected() {
                LoopStep::Receive
            } else {
                LoopStep::Idle
            },
        }
    }

    /// Takes note of a finished handshake with `url`.
    pub fn connect(&mut self, url: String, outcome: Result<(), String>, now: u64) -> (r: Vec<
        WorkerAction,
    >)
        ensures
            final(self).state == opened_step(old(self).state, url@, outcome, now).0,
            actions_view(r@) == opened_step(old(self).state, url@, outcome, now).1,
    {
        match outcome {
            Ok(_) => {
                self.state = LinkState::Connected;
                one(WorkerAction::Emit(connected_status(url.as_str(), now)))
            },
            Err(e) => one(WorkerAction::Emit(failed_status(url.as_str(), e.as_str(), now))),
        }
    }

    /// Ends the connection, if there is one, and reports that it ended.
    pub fn disconnect(&mut self, now: u64) -> (r: Vec<WorkerAction>)
        ensures
            final(self).state == disconnect_step(old(self).state, now).0,
            actions_view(r@) == disconnect_step(old(self).state, now).1,
    {
        if self.is_connected() {
            self.state = LinkState::Disconnected;
            let mut r: Vec<WorkerAction> = Vec::new();
            r.push(WorkerAction::Close);
            r.push(WorkerAction::Emit(disconnected_status(now)));
            assert(actions_view(r@) =~= disconnect_step(old(self).state, now).1);
            r
        } else {
            none()
        }
    }

    /// Sends an envelope over the live connection; without one, nothing happens.
    pub fn send_message(&self, message: WebSocketMessage) -> (r: Vec<WorkerAction>)
        ensures
            actions_view(r@) == command_step(self.state, WebSocketCommand::Send(message), 0).1,
    {
        if self.is_connected() {
            one(WorkerAction::SendMessage(message))
        } else {
            none()
        }
    }

    /// Sends bytes as a binary frame over the live connection; without one,
    /// nothing happens.
    pub fn send_raw(&self, payload: Vec<u8>) -> (r: Vec<WorkerAction>)
        ensures
            actions_view(r@) == command_step(self.state, WebSocketCommand::SendRaw(payload), 0).1,
    {
        if self.is_connected() {
            one(WorkerAction::SendBinary(payload))
        } else {
            none()
        }
    }

    /// Applies a command from the manager.
    pub fn handle_command(&mut self, command: WebSocketCommand, now: u64) -> (r: Vec<
        WorkerAction,
    >)
        ensures
            final(self).state == command_step(old(self).state, command, now).0,
            actions_view(r@) == command_step(old(self).state, command, now).1,
    {
        match command {
            WebSocketCommand::Connect(url) => one(WorkerAction::Open(url)),
            WebSocketCommand::Disconnect => self.disconnect(now),
            WebSocketCommand::Send(m) => self.send_message(m),
            WebSocketCommand::SendRaw(b) => self.send_raw(b),
            WebSocketCommand::Shutdown => {
                let mut r = self.disconnect(now);
                let ghost before = r@;
                r.push(WorkerAction::Exit);
                assert(actions_view(r@) =~= actions_view(before).push(ActionView::Exit));
                r
            },
        }
    }

    /// Classifies an inbound frame. A text frame that holds an envelope is
    /// forwarded as it is; any other text frame becomes one raw-text envelope
    /// of its text; a binary frame becomes one binary envelope; a ping is
    /// answered with a pong.
    pub fn handle_incoming_message(&self, frame: IncomingFrame, now: u64) -> (r: Vec<WorkerAction>)
        requires
            frame_fits(frame),
        ensures
            actions_view(r@) == frame_step(self.state, frame, now),
    {
        match frame {
            IncomingFrame::Text { text, envelope } => match envelope {
                Some(m) => one(WorkerAction::Emit(m)),
                None => one(WorkerAction::Emit(raw_text_message(text, now))),
            },
            IncomingFrame::Binary(d) => one(WorkerAction::Emit(binary_message(d.as_slice(), now))),
            IncomingFrame::Ping(d) => if self.is_connected() {
                one(WorkerAction::SendPong(d))
            } else {
                none()
            },
            IncomingFrame::Pong(_) => none(),
            IncomingFrame::Close => none(),
            IncomingFrame::Raw => none(),
        }
    }

    /// Reacts to one event; `now` stamps any envelope it makes.
    pub fn step(&mut self, event: WorkerEvent, now: u64) -> (r: Vec<WorkerAction>)
        requires
            event_fits(event),
        ensures
            final(self).state == step_spec(old(self).state, event, now).0,
            actions_view(r@) == step_spec(old(self).state, event, now).1,
    {
        match event {
            WorkerEvent::Command(c) => self.handle_command(c, now),
            WorkerEvent::Opened { url, outcome } => self.connect(url, outcome, now),
            WorkerEvent::Incoming(f) => self.handle_incoming_message(f, now),
            WorkerEvent::Lost => self.disconnect(now),
        }
    }
}

} // verus!

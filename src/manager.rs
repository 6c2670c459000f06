//! The caller-side façade of the connection worker. It owns the sending end
//! of the command channel and the receiving end of the event channel; the
//! worker, on its own thread, owns the other two ends. All its operations
//! return at once, except `recv_message_blocking`.

use crate::envelope::{WebSocketCommand, WebSocketMessage};
use std::sync::mpsc::{Receiver, RecvError, Sender};
use vstd::prelude::*;

verus! {

#[verifier::external_type_specification]
#[verifier::external_body]
#[verifier::reject_recursive_types(T)]
pub struct ExSender<T>(Sender<T>);

#[verifier::external_type_specification]
#[verifier::external_body]
#[verifier::reject_recursive_types(T)]
pub struct ExReceiver<T>(Receiver<T>);

#[verifier::external_type_specification]
#[verifier::external_body]
pub struct ExRecvError(RecvError);

/// Relies on `mpsc::Sender::send`: queues the command behind those sent
/// before it. It fails only when the worker is gone; the command is then
/// dropped, as no one is left to apply it.
#[verifier::external_body]
fn enqueue(tx: &Sender<WebSocketCommand>, command: WebSocketCommand) {
    let _ = tx.send(command);
}

/// Relies on `mpsc::Receiver::try_recv`: the oldest envelope waiting, if any,
/// without blocking. What is waiting depends on the worker's thread.
#[verifier::external_body]
fn take_waiting(rx: &Receiver<WebSocketMessage>) -> (r: Option<WebSocketMessage>) {
    rx.try_recv().ok()
}

/// Relies on `mpsc::Receiver::recv`: blocks until an envelope arrives, or
/// fails once the worker is gone and nothing is left.
#[verifier::external_body]
fn take_blocking(rx: &Receiver<WebSocketMessage>) -> (r: Result<WebSocketMessage, RecvError>) {
    rx.recv()
}

/// Handle through which a caller drives one connection worker.
#[derive(Debug)]
pub struct WebSocketManager {
    tx: Sender<WebSocketCommand>,
    rx: Receiver<WebSocketMessage>,
}

impl WebSocketManager {
    /// A manager over the command channel to a worker and the event channel from it.
    pub fn from_channels(
        commands: Sender<WebSocketCommand>,
        events: Receiver<WebSocketMessage>,
    ) -> (r: Self) {
        WebSocketManager { tx: commands, rx: events }
    }

    /// Asks the worker to connect to `url`; the outcome arrives later as a
    /// connection-status envelope.
    pub fn connect(&self, url: String) {
        enqueue(&self.tx, WebSocketCommand::Connect(url));
    }

    /// Asks the worker to end its connection.
    pub fn disconnect(&self) {
        enqueue(&self.tx, WebSocketCommand::Disconnect);
    }

    /// Asks the worker to send an envelope as a JSON text frame.
    pub fn send_message(&self, message: WebSocketMessage) {
        enqueue(&self.tx, WebSocketCommand::Send(message));
    }

    /// Asks the worker to send bytes as a binary frame.
    pub fn send_raw(&self, payload: Vec<u8>) {
        enqueue(&self.tx, WebSocketCommand::SendRaw(payload));
    }

    /// Asks the worker to end its connection, if any, and stop; used when
    /// the caller tears the client down.
    pub fn shutdown(&self) {
        enqueue(&self.tx, WebSocketCommand::Shutdown);
    }

    /// The oldest envelope the worker has produced and not yet handed out,
    /// if there is one; never blocks.
    pub fn try_recv_message(&self) -> (r: Option<WebSocketMessage>) {
        take_waiting(&self.rx)
    }

    /// The oldest envelope not yet handed out, waiting for one if need be.
    pub fn recv_message_blocking(&self) -> (r: Result<WebSocketMessage, RecvError>) {
        take_blocking(&self.rx)
    }
}

} // verus!

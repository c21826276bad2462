//! The hand-off of encoded domain events to the websocket broadcaster, and
//! which events are sent to remote displays.
use vstd::prelude::*;

use std::sync::mpsc::Sender;

verus! {

/// Makes `std::sync::mpsc::Sender` usable in fields, as an opaque type.
#[verifier::external_type_specification]
#[verifier::external_body]
#[verifier::reject_recursive_types(T)]
pub struct ExSender<T>(Sender<T>);

/// The kinds of domain events that the broker distributes.
#[derive(Clone, Copy, Debug, PartialEq, Eq, Structural)]
pub enum EventKind {
    ElectrodeState,
    BulkCapacitance,
    ActiveCapacitance,
    ImageTransform,
    Image,
}

/// Whether events of this kind go out over the websocket: active-capacitance
/// events arrive too often for remote display and are held back.
pub fn forwarded_to_websocket(kind: EventKind) -> (r: bool)
    ensures
        r == !(kind is ActiveCapacitance),
{
    match kind {
        EventKind::ActiveCapacitance => false,
        _ => true,
    }
}

/// The broadcasting thread is gone.
#[derive(Clone, Copy, Debug, PartialEq, Eq, Structural)]
pub struct BroadcastError;

/// Relies on `std::sync::mpsc::Sender::send`, which fails only once the
/// receiving side has been dropped.
#[verifier::external_body]
fn send_message(sender: &Sender<Vec<u8>>, msg: Vec<u8>) -> (r: Result<(), BroadcastError>) {
    match sender.send(msg) {
        Ok(()) => Ok(()),
        Err(_) => Err(BroadcastError),
    }
}

/// Queues encoded messages for the thread that sends them to every websocket
/// client.
pub struct Broadcaster {
    msg_in: Sender<Vec<u8>>,
}

impl Broadcaster {
    /// A broadcaster that queues on `msg_in`.
    pub fn from_sender(msg_in: Sender<Vec<u8>>) -> (b: Broadcaster) {
        Broadcaster { msg_in }
    }

    /// Queues a copy of `msg` for every client.
    pub fn broadcast(&self, msg: &[u8]) -> (r: Result<(), BroadcastError>) {
        let copy = vstd::slice::slice_to_vec(msg);
        send_message(&self.msg_in, copy)
    }
}

} // verus!

//! The conduit that carries events from fetch tasks to the owning loop.
use vstd::prelude::*;
use std::sync::mpsc::{Receiver, Sender};
use crate::fetch::StateEvent;

verus! {

#[verifier::external_type_specification]
#[verifier::external_body]
#[verifier::reject_recursive_types(T)]
pub struct ExSender<T>(Sender<T>);

#[verifier::external_type_specification]
#[verifier::external_body]
#[verifier::reject_recursive_types(T)]
pub struct ExReceiver<T>(Receiver<T>);

/// Whether `tx` sends into the channel that `rx` receives from.
pub uninterp spec fn paired(tx: Sender<StateEvent>, rx: Receiver<StateEvent>) -> bool;

/// Relies on `std::sync::mpsc::channel`: an unbounded FIFO channel, as the
/// sending and the receiving end of one channel.
#[verifier::external_body]
fn open_channel() -> (r: (Sender<StateEvent>, Receiver<StateEvent>))
    ensures
        paired(r.0, r.1),
{
    std::sync::mpsc::channel()
}

/// Relies on `Sender::send`: queues the event without blocking; it fails
/// only when the receiving end of the channel is gone, so never while `rx`,
/// that receiving end, is borrowed here.
#[verifier::external_body]
fn send_event(tx: &Sender<StateEvent>, rx: &Receiver<StateEvent>, ev: StateEvent) -> (r: bool)
    ensures
        paired(*tx, *rx) ==> r,
{
    tx.send(ev).is_ok()
}

/// Relies on `Receiver::try_recv`: takes the oldest queued event if there
/// is one, without blocking.
#[verifier::external_body]
fn try_recv_event(rx: &Receiver<StateEvent>) -> (r: Option<StateEvent>) {
    rx.try_recv().ok()
}

/// The receiving end is gone; the event was not delivered.
#[derive(Clone, Copy, Debug, PartialEq, Eq, Structural)]
pub struct ChannelClosed;

/// Both ends of the event channel. Fetch tasks send through clones of `tx`;
/// the owning loop polls `rx` once per iteration.
pub struct StateChannel {
    pub tx: Sender<StateEvent>,
    pub rx: Receiver<StateEvent>,
}

impl StateChannel {
    pub fn new() -> (r: StateChannel)
        ensures
            paired(r.tx, r.rx),
    {
        let (tx, rx) = open_channel();
        StateChannel { tx, rx }
    }

    /// Queues an event, without blocking. It fails only when `rx` is not the
    /// receiving end of `tx`'s channel and that end is gone.
    pub fn send(&self, ev: StateEvent) -> (r: Result<(), ChannelClosed>)
        ensures
            paired(self.tx, self.rx) ==> r == Ok::<(), ChannelClosed>(()),
            r.is_err() ==> r == Err::<(), ChannelClosed>(ChannelClosed),
    {
        if send_event(&self.tx, &self.rx, ev) {
            Ok(())
        } else {
            Err(ChannelClosed)
        }
    }

    /// Takes at most one pending event, without blocking.
    pub fn try_recv(&self) -> (r: Option<StateEvent>) {
        try_recv_event(&self.rx)
    }
}

} // verus!

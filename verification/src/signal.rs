//! The shutdown signal: one boolean that starts out false, is set once by
//! the handle, and is watched by the accept loop and by every connection
//! task.

use std::sync::Arc;
use tokio::sync::watch::Receiver;
use tokio::sync::watch::Sender;
use vstd::prelude::*;

verus! {

/// `tokio::sync::watch::Sender`, carried through as an opaque value.
#[verifier::external_type_specification]
#[verifier::external_body]
#[verifier::reject_recursive_types(T)]
pub struct ExSender<T>(Sender<T>);

/// `tokio::sync::watch::Receiver`, carried through as an opaque value.
#[verifier::external_type_specification]
#[verifier::external_body]
#[verifier::reject_recursive_types(T)]
pub struct ExReceiver<T>(Receiver<T>);

/// `tokio::sync::watch::Sender::new`: the sending half of a fresh channel
/// that holds `init`.
#[verifier::external_body]
fn watch_sender(init: bool) -> (sender: Sender<bool>) {
    Sender::new(init)
}

/// `Arc::clone`: a second handle to the same sender.
#[verifier::external_body]
fn watch_share(sender: &Arc<Sender<bool>>) -> (shared: Arc<Sender<bool>>)
    ensures
        shared == *sender,
{
    Arc::clone(sender)
}

/// `tokio::sync::watch::Sender::send_replace`: stores `value`, wakes every
/// receiver and returns the value that was stored before. Other holders of
/// the sender may have stored a value in between, so nothing is claimed of
/// what comes back.
#[verifier::external_body]
fn watch_send_replace(sender: &Arc<Sender<bool>>, value: bool) -> (previous: bool) {
    sender.send_replace(value)
}

/// `tokio::sync::watch::Sender::borrow`, copied out: the value stored at
/// the instant of the call.
#[verifier::external_body]
fn watch_current(sender: &Arc<Sender<bool>>) -> (current: bool) {
    *sender.borrow()
}

/// `tokio::sync::watch::Sender::subscribe`: a new receiver of the channel.
#[verifier::external_body]
fn watch_subscribe(sender: &Arc<Sender<bool>>) -> (receiver: Receiver<bool>) {
    sender.subscribe()
}

/// Whether a call of `ShutdownSignal::trigger` was the one that set the
/// signal, or found it set.
#[derive(Clone, Copy, Debug, PartialEq, Eq, Structural)]
pub enum ShutdownTurn {
    First,
    Repeated,
}

impl ShutdownTurn {
    /// The turn of a caller that found `previous` in the signal when it set
    /// it.
    pub open spec fn spec_after(previous: bool) -> ShutdownTurn {
        if previous {
            ShutdownTurn::Repeated
        } else {
            ShutdownTurn::First
        }
    }

    /// The turn of a caller that found `previous` in the signal when it set
    /// it.
    #[verifier::when_used_as_spec(spec_after)]
    pub fn after(previous: bool) -> (turn: ShutdownTurn)
        ensures
            turn == ShutdownTurn::spec_after(previous),
    {
        if previous {
            ShutdownTurn::Repeated
        } else {
            ShutdownTurn::First
        }
    }

    /// Whether the call was the one that set the signal.
    pub open spec fn spec_is_first(&self) -> bool {
        *self == ShutdownTurn::First
    }

    /// Whether the call was the one that set the signal.
    #[verifier::when_used_as_spec(spec_is_first)]
    pub fn is_first(&self) -> (first: bool)
        ensures
            first == self.spec_is_first(),
    {
        match self {
            ShutdownTurn::First => true,
            ShutdownTurn::Repeated => false,
        }
    }
}

/// The writing side of the shutdown signal.
#[derive(Debug)]
pub struct ShutdownSignal {
    sender: Arc<Sender<bool>>,
}

impl ShutdownSignal {
    /// A signal that has not fired.
    pub fn new() -> (signal: ShutdownSignal) {
        ShutdownSignal { sender: Arc::new(watch_sender(false)) }
    }

    /// Another handle to the same signal.
    pub fn share(&self) -> (signal: ShutdownSignal)
        ensures
            signal == *self,
    {
        ShutdownSignal { sender: watch_share(&self.sender) }
    }

    /// Sets the signal and wakes every watcher. Setting it again leaves it
    /// set; the turn says whether this call was the one that set it.
    pub fn trigger(&self) -> (turn: ShutdownTurn) {
        ShutdownTurn::after(watch_send_replace(&self.sender, true))
    }

    /// Whether the signal had fired at the instant of the call.
    pub fn is_triggered(&self) -> (triggered: bool) {
        watch_current(&self.sender)
    }

    /// A fresh view of the signal, for a task that waits on it.
    pub fn subscribe(&self) -> (receiver: Receiver<bool>) {
        watch_subscribe(&self.sender)
    }
}

} // verus!

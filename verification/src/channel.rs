//! Completion channels: the single-use channel on which the result of one
//! operation travels from the host to the script thread that waits for it.
//!
//! The channel itself is tokio's `oneshot`. The library creates the pair,
//! keeps the sending half in a registry under the operation's id, and hands
//! the receiving half to the waiter. Waiting happens outside the library, so
//! that no registry stays locked meanwhile; the waiter comes back with a
//! [`WaitOutcome`].

use vstd::prelude::*;
use tokio::sync::oneshot::error::RecvError;
use tokio::sync::oneshot::Receiver;
use tokio::sync::oneshot::Sender;

verus! {

/// The sending half of tokio's `oneshot` channel, carried through as it is.
#[verifier::external_type_specification]
#[verifier::external_body]
#[verifier::reject_recursive_types(T)]
pub struct ExSender<T>(Sender<T>);

/// The receiving half of tokio's `oneshot` channel, carried through as it
/// is.
#[verifier::external_type_specification]
#[verifier::external_body]
#[verifier::reject_recursive_types(T)]
pub struct ExReceiver<T>(Receiver<T>);

/// The error of a receiving half whose sender is gone. The library never
/// holds one; the receiving half names it as the outcome of its wait.
#[verifier::external_type_specification]
#[verifier::external_body]
pub struct ExRecvError(RecvError);

/// How a wait on a completion channel ended.
#[derive(Debug, Clone, PartialEq, Eq)]
pub enum WaitOutcome {
    /// The host delivered this value.
    Delivered(String),
    /// The sending half was dropped before anything was sent.
    Closed,
    /// The time allowed for the operation ran out first.
    TimedOut,
}

/// Calls `tokio::sync::oneshot::channel` for a channel that carries one
/// `String`. Nothing is claimed of the two halves.
#[verifier::external_body]
pub(crate) fn open_channel() -> (halves: (Sender<String>, Receiver<String>)) {
    tokio::sync::oneshot::channel::<String>()
}

/// Calls `Sender::send`, which consumes the sending half. The answer is
/// `true` where the channel took the value and `false` where the receiving
/// half was gone already; which of the two happens depends on the waiter, so
/// nothing is claimed of it.
#[verifier::external_body]
pub(crate) fn send_value(sender: Sender<String>, value: String) -> (delivered: bool) {
    sender.send(value).is_ok()
}

} // verus!

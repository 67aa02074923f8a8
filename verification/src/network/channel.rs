//! The channels of tokio over which tasks hand each other messages.

use vstd::prelude::*;

use crate::network::envelope::S2cMessageEnvelope;
use crate::network::error::ClientError;
use crate::proto::io::S2cMessage;
use tokio::sync::{mpsc, oneshot};

verus! {

/// What the sender of a request is told: the response, or why there is none.
pub type Reply = Result<S2cMessage, ClientError>;

/// tokio's sending half of a channel for one value.
#[verifier::external_type_specification]
#[verifier::external_body]
#[verifier::reject_recursive_types(T)]
pub struct ExOneshotSender<T>(oneshot::Sender<T>);

/// tokio's receiving half of a channel for one value.
#[verifier::external_type_specification]
#[verifier::external_body]
#[verifier::reject_recursive_types(T)]
pub struct ExOneshotReceiver<T>(oneshot::Receiver<T>);

/// tokio's report that the sending half of a channel for one value is gone.
#[verifier::external_type_specification]
#[verifier::external_body]
pub struct ExOneshotRecvError(oneshot::error::RecvError);

/// tokio's sending half of a bounded queue.
#[verifier::external_type_specification]
#[verifier::external_body]
#[verifier::reject_recursive_types(T)]
pub struct ExQueueSender<T>(mpsc::Sender<T>);

/// tokio's sending half of an unbounded queue.
#[verifier::external_type_specification]
#[verifier::external_body]
#[verifier::reject_recursive_types(T)]
pub struct ExUnboundedSender<T>(mpsc::UnboundedSender<T>);

/// tokio's receiving half of an unbounded queue.
#[verifier::external_type_specification]
#[verifier::external_body]
#[verifier::reject_recursive_types(T)]
pub struct ExUnboundedReceiver<T>(mpsc::UnboundedReceiver<T>);

/// The two are the halves of one channel: what goes into `sender` comes out of `receiver`.
pub uninterp spec fn reply_halves(
    sender: oneshot::Sender<Reply>,
    receiver: oneshot::Receiver<Reply>,
) -> bool;

/// Calls `tokio::sync::oneshot::channel`: the two values are the halves of one new channel.
#[verifier::external_body]
pub(crate) fn reply_channel() -> (halves: (oneshot::Sender<Reply>, oneshot::Receiver<Reply>))
    ensures
        reply_halves(halves.0, halves.1),
{
    oneshot::channel()
}

/// An attempt to hand `reply` over through `sender` can end with `sent`.
pub uninterp spec fn handed_over(
    sender: oneshot::Sender<Reply>,
    reply: Reply,
    sent: Result<(), Reply>,
) -> bool;

/// Calls `send` of `tokio::sync::oneshot::Sender`. A reply that nobody waits for comes back.
/// Whether somebody still waits is up to other tasks, so it is not said which way the call ends.
#[verifier::external_body]
pub(crate) fn send_reply(sender: oneshot::Sender<Reply>, reply: Reply) -> (sent: Result<(), Reply>)
    ensures
        handed_over(sender, reply, sent),
        sent matches Err(back) ==> back == reply,
{
    sender.send(reply)
}

/// The two are the halves of one queue: what goes into `sender` comes out of `receiver`.
pub uninterp spec fn queue_halves(
    sender: mpsc::UnboundedSender<S2cMessageEnvelope>,
    receiver: mpsc::UnboundedReceiver<S2cMessageEnvelope>,
) -> bool;

/// Calls `tokio::sync::mpsc::unbounded_channel`: the two values are the halves of one new queue.
#[verifier::external_body]
pub(crate) fn unbounded_queue() -> (halves: (
    mpsc::UnboundedSender<S2cMessageEnvelope>,
    mpsc::UnboundedReceiver<S2cMessageEnvelope>,
))
    ensures
        queue_halves(halves.0, halves.1),
{
    mpsc::unbounded_channel()
}

/// How an attempt to put an envelope into a queue ended.
pub enum SendOutcome {
    /// The queue took the envelope.
    Sent,
    /// The queue was full; the envelope comes back.
    Full(S2cMessageEnvelope),
    /// Nobody reads the queue any more; the envelope comes back.
    Closed(S2cMessageEnvelope),
}

/// An attempt to put `envelope` into the queue without a bound behind `sender` can end with
/// `outcome`.
pub uninterp spec fn queued(
    sender: mpsc::UnboundedSender<S2cMessageEnvelope>,
    envelope: S2cMessageEnvelope,
    outcome: SendOutcome,
) -> bool;

/// Calls `send` of `tokio::sync::mpsc::UnboundedSender`. The queue is never full, and an envelope
/// that it does not take comes back. Whether the queue is still read is up to other tasks, so it
/// is not said which way the call ends.
#[verifier::external_body]
pub(crate) fn send_unbounded(
    sender: &mpsc::UnboundedSender<S2cMessageEnvelope>,
    envelope: S2cMessageEnvelope,
) -> (outcome: SendOutcome)
    ensures
        queued(*sender, envelope, outcome),
        outcome !is Full,
        outcome matches SendOutcome::Closed(back) ==> back == envelope,
{
    match sender.send(envelope) {
        Ok(()) => SendOutcome::Sent,
        Err(mpsc::error::SendError(back)) => SendOutcome::Closed(back),
    }
}

/// An attempt to put `envelope` into the bounded queue behind `sender` can end with `outcome`.
pub uninterp spec fn queued_in_bounds(
    sender: mpsc::Sender<S2cMessageEnvelope>,
    envelope: S2cMessageEnvelope,
    outcome: SendOutcome,
) -> bool;

/// Calls `try_send` of `tokio::sync::mpsc::Sender`. An envelope that the queue does not take comes
/// back. Whether the queue has room and is still read is up to other tasks, so it is not said
/// which way the call ends.
#[verifier::external_body]
pub(crate) fn try_send(
    sender: &mpsc::Sender<S2cMessageEnvelope>,
    envelope: S2cMessageEnvelope,
) -> (outcome: SendOutcome)
    ensures
        queued_in_bounds(*sender, envelope, outcome),
        outcome matches SendOutcome::Full(back) ==> back == envelope,
        outcome matches SendOutcome::Closed(back) ==> back == envelope,
{
    match sender.try_send(envelope) {
        Ok(()) => SendOutcome::Sent,
        Err(mpsc::error::TrySendError::Full(back)) => SendOutcome::Full(back),
        Err(mpsc::error::TrySendError::Closed(back)) => SendOutcome::Closed(back),
    }
}

} // verus!

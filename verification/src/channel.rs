//! The channels between the host's threads and the server, as `tokio`
//! provides them.
//!
//! Everything in this file is taken on trust: the types are opaque to the
//! verifier, and what is stated of a call is what `tokio`'s source shows of
//! it. The channels are shared between threads, so nothing is stated of
//! what they hold; what is named is what stays the same for as long as a
//! handle lives: which channel it belongs to, and how much that channel
//! holds.
//!
//! Only calls that return at once are made from here. The calls that block
//! a thread until another thread acts are the host's to make.

use crate::app::AppMessage;
use crate::message::SocketMessage;
use tokio::sync::{broadcast, mpsc, oneshot};
use vstd::prelude::*;

verus! {

/// Producer handle of the control channel (`tokio::sync::mpsc::Sender`).
#[verifier::external_type_specification]
#[verifier::external_body]
#[verifier::reject_recursive_types(T)]
pub struct ExControlSender<T>(tokio::sync::mpsc::Sender<T>);

/// Consuming end of the control channel (`tokio::sync::mpsc::Receiver`).
#[verifier::external_type_specification]
#[verifier::external_body]
#[verifier::reject_recursive_types(T)]
pub struct ExControlReceiver<T>(tokio::sync::mpsc::Receiver<T>);

/// The request handed back when the control channel is closed
/// (`tokio::sync::mpsc::error::SendError`).
#[verifier::external_type_specification]
#[verifier::external_body]
#[verifier::reject_recursive_types(T)]
pub struct ExControlSendError<T>(tokio::sync::mpsc::error::SendError<T>);

/// Sending half of a one-shot reply slot (`tokio::sync::oneshot::Sender`).
#[verifier::external_type_specification]
#[verifier::external_body]
#[verifier::reject_recursive_types(T)]
pub struct ExReplySender<T>(tokio::sync::oneshot::Sender<T>);

/// Receiving half of a one-shot reply slot (`tokio::sync::oneshot::Receiver`).
#[verifier::external_type_specification]
#[verifier::external_body]
#[verifier::reject_recursive_types(T)]
pub struct ExReplyReceiver<T>(tokio::sync::oneshot::Receiver<T>);

/// The sign that a reply slot was abandoned
/// (`tokio::sync::oneshot::error::RecvError`).
#[verifier::external_type_specification]
#[verifier::external_body]
pub struct ExReplyError(tokio::sync::oneshot::error::RecvError);

/// Publishing handle of the broadcast channel
/// (`tokio::sync::broadcast::Sender`).
#[verifier::external_type_specification]
#[verifier::external_body]
#[verifier::reject_recursive_types(T)]
pub struct ExEventSender<T>(tokio::sync::broadcast::Sender<T>);

/// The number of requests that the control channel behind `handle` queues
/// at most: what `tokio::sync::mpsc::Sender::max_capacity` reports, which is
/// the capacity the channel was made with and never changes.
pub uninterp spec fn control_limit(handle: mpsc::Sender<AppMessage>) -> nat;

/// Whether two control handles feed one and the same queue: what
/// `tokio::sync::mpsc::Sender::same_channel` reports.
pub uninterp spec fn same_control_channel(
    first: mpsc::Sender<AppMessage>,
    second: mpsc::Sender<AppMessage>,
) -> bool;

/// The number of events that the broadcast channel behind `handle` retains:
/// the length of its buffer, which `tokio` makes as long as the capacity
/// asked for, raised to the next power of two.
pub uninterp spec fn event_limit(handle: broadcast::Sender<SocketMessage>) -> nat;

/// Whether two publishing handles publish on one and the same channel: what
/// `tokio::sync::broadcast::Sender::same_channel` reports.
pub uninterp spec fn same_event_channel(
    first: broadcast::Sender<SocketMessage>,
    second: broadcast::Sender<SocketMessage>,
) -> bool;

/// Creates the control channel with `tokio::sync::mpsc::channel`.
///
/// The call panics on a capacity of zero or above an eighth of
/// `usize::MAX`; both are excluded. Not proved: that the channel queues at
/// most `capacity` requests. Nothing else is claimed of the two ends.
#[verifier::external_body]
pub(crate) fn control_channel(capacity: usize) -> (ends: (
    mpsc::Sender<AppMessage>,
    mpsc::Receiver<AppMessage>,
))
    requires
        0 < capacity <= usize::MAX / 8,
    ensures
        control_limit(ends.0) == capacity,
{
    mpsc::channel(capacity)
}

/// Creates the broadcast channel with `tokio::sync::broadcast::channel` and
/// keeps its sending half; the receiver that comes with it is dropped, so the
/// channel starts without subscribers.
///
/// The call panics on a capacity of zero or above half of `usize::MAX`; both
/// are excluded. Not proved: that the channel retains at least `capacity`
/// events, and exactly that many where `capacity` is a power of two.
/// Nothing else is claimed of the handle.
#[verifier::external_body]
pub(crate) fn event_channel(capacity: usize) -> (publisher: broadcast::Sender<SocketMessage>)
    requires
        0 < capacity <= usize::MAX / 2,
    ensures
        event_limit(publisher) >= capacity,
        capacity & ((capacity - 1) as usize) == 0 ==> event_limit(publisher) == capacity,
{
    broadcast::channel(capacity).0
}

/// Clones a control handle (`Clone::clone` of `tokio::sync::mpsc::Sender`).
///
/// Not proved: that the clone feeds the queue that `handle` feeds, and so
/// reports the same limit.
#[verifier::external_body]
pub(crate) fn clone_control(handle: &mpsc::Sender<AppMessage>) -> (copy: mpsc::Sender<AppMessage>)
    ensures
        same_control_channel(*handle, copy),
        control_limit(copy) == control_limit(*handle),
{
    handle.clone()
}

/// Clones a publishing handle (`Clone::clone` of
/// `tokio::sync::broadcast::Sender`).
///
/// Not proved: that the clone publishes on the channel that `handle`
/// publishes on, whose buffer is therefore as long.
#[verifier::external_body]
pub(crate) fn clone_publisher(handle: &broadcast::Sender<SocketMessage>) -> (copy:
    broadcast::Sender<SocketMessage>)
    ensures
        same_event_channel(*handle, copy),
        event_limit(copy) == event_limit(*handle),
{
    handle.clone()
}

/// Creates a one-shot reply slot with `tokio::sync::oneshot::channel`.
/// Nothing is claimed of the two halves.
#[verifier::external_body]
pub(crate) fn reply_slot() -> (halves: (
    oneshot::Sender<Option<u16>>,
    oneshot::Receiver<Option<u16>>,
)) {
    oneshot::channel()
}

/// Fulfils a reply slot with `tokio::sync::oneshot::Sender::send`.
///
/// The call fails when the caller has given up waiting, which the caller
/// decides. Not proved: that a value which could not be delivered comes
/// back unchanged.
#[verifier::external_body]
pub(crate) fn fulfil(slot: oneshot::Sender<Option<u16>>, value: Option<u16>) -> (outcome: Result<
    (),
    Option<u16>,
>)
    ensures
        outcome matches Err(returned) ==> returned == value,
{
    slot.send(value)
}

/// Publishes an event with `tokio::sync::broadcast::Sender::send`.
///
/// Not proved: that a successful send reports at least one subscriber, and
/// that an event which could not be sent, because nobody is subscribed, comes
/// back unchanged.
#[verifier::external_body]
pub(crate) fn broadcast_send(
    publisher: &broadcast::Sender<SocketMessage>,
    event: SocketMessage,
) -> (outcome: Result<usize, SocketMessage>)
    ensures
        outcome matches Ok(subscribers) ==> subscribers >= 1,
        outcome matches Err(returned) ==> returned == event,
{
    publisher.send(event).map_err(|error| error.0)
}

} // verus!

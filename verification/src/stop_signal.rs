//! The single-use stop signal that tears a capture session down.
//!
//! One channel is minted per session.  The sender half stays with the
//! engine's state; the receiver half moves into the capture thread, which
//! blocks on it for the whole session and releases the device when the
//! signal arrives or the sender is dropped.  The channel itself comes from
//! an outside crate and is taken on trust, declared and wrapped below;
//! everything the library proves about stop signals is in terms of which
//! half is held where, which Rust's ownership makes exact.

use vstd::prelude::*;

verus! {

/// The sender half of a one-shot channel (`tokio::sync::oneshot::Sender`),
/// opaque to the verifier; holding it is what "a live stop signal exists"
/// means.
#[verifier::external_type_specification]
#[verifier::external_body]
#[verifier::reject_recursive_types(T)]
pub struct ExOneshotSender<T>(tokio::sync::oneshot::Sender<T>);

/// The receiver half of a one-shot channel
/// (`tokio::sync::oneshot::Receiver`), opaque to the verifier; it is handed
/// to the capture thread and never touched again by the library.
#[verifier::external_type_specification]
#[verifier::external_body]
#[verifier::reject_recursive_types(T)]
pub struct ExOneshotReceiver<T>(tokio::sync::oneshot::Receiver<T>);

/// The error a receiver reports when its sender was dropped unused
/// (`tokio::sync::oneshot::error::RecvError`).  The library never receives,
/// but declaring the receiver half requires its error type to be known.
#[verifier::external_type_specification]
#[verifier::external_body]
pub struct ExOneshotRecvError(tokio::sync::oneshot::error::RecvError);

/// Relies on `tokio::sync::oneshot::channel`: returns the two halves of a
/// fresh channel, connected to each other and to no other channel.  Nothing
/// further is assumed of either half.
#[verifier::external_body]
pub(crate) fn stop_channel() -> (r: (
    tokio::sync::oneshot::Sender<()>,
    tokio::sync::oneshot::Receiver<()>,
))
{
    tokio::sync::oneshot::channel()
}

/// Relies on `tokio::sync::oneshot::Sender::send`: consumes the sender and
/// delivers the value unless the receiver has already been dropped.  The
/// result only reports whether the receiver was still there; either way the
/// sender is spent, so the signal is single-use by ownership.
#[verifier::external_body]
pub(crate) fn send_stop(sender: tokio::sync::oneshot::Sender<()>) -> (r: bool)
{
    sender.send(()).is_ok()
}

} // verus!

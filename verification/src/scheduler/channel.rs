//! The ties to the async runtime: the control channel between the handles
//! and the background loop, and the start of a job on the runtime.

use crate::scheduler::event_loop::ControlMessage;
use std::future::Future;
use tokio::runtime::Handle;
use tokio::sync::mpsc::{UnboundedReceiver, UnboundedSender};
use vstd::prelude::*;

verus! {

/// The sending half of tokio's unbounded channel, `tokio::sync::mpsc::UnboundedSender`.
#[verifier::external_type_specification]
#[verifier::external_body]
#[verifier::reject_recursive_types(T)]
pub struct ExUnboundedSender<T>(UnboundedSender<T>);

/// The receiving half of tokio's unbounded channel, `tokio::sync::mpsc::UnboundedReceiver`.
#[verifier::external_type_specification]
#[verifier::external_body]
#[verifier::reject_recursive_types(T)]
pub struct ExUnboundedReceiver<T>(UnboundedReceiver<T>);

/// A handle to a running tokio runtime, `tokio::runtime::Handle`.
#[verifier::external_type_specification]
#[verifier::external_body]
pub struct ExHandle(Handle);

/// Makes a control channel with `tokio::sync::mpsc::unbounded_channel`.
/// Nothing is claimed about the two halves.
#[verifier::external_body]
pub(crate) fn open_channel<J>() -> (halves: (
    UnboundedSender<ControlMessage<J>>,
    UnboundedReceiver<ControlMessage<J>>,
)) {
    tokio::sync::mpsc::unbounded_channel()
}

/// Sends `message` with `UnboundedSender::send`, which does not block.
/// Whether the send succeeds depends on the receiving half: it fails once
/// that half is closed or dropped. The one claim is that a failed send gives
/// back the very message it was handed. (The outside call ends the process
/// if more messages are in flight than `usize` can count.)
#[verifier::external_body]
pub(crate) fn send_message<J>(
    sender: &UnboundedSender<ControlMessage<J>>,
    message: ControlMessage<J>,
) -> (sent: Result<(), ControlMessage<J>>)
    ensures
        sent matches Err(returned) ==> returned == message,
{
    match sender.send(message) {
        Ok(()) => Ok(()),
        Err(refused) => Err(refused.0),
    }
}

/// Asks for the runtime that the calling thread is in, with
/// `tokio::runtime::Handle::try_current`, which does not panic. `None` means
/// that the caller is not inside a runtime.
#[verifier::external_body]
pub(crate) fn current_runtime() -> (runtime: Option<Handle>) {
    match Handle::try_current() {
        Ok(handle) => Some(handle),
        Err(_) => None,
    }
}

/// Starts `job` as a task of its own on `runtime` with `Handle::spawn` and
/// lets go of it: nobody waits for the job or learns how it ends.
#[verifier::external_body]
pub(crate) fn spawn_on<J: Future<Output = ()> + Send + 'static>(runtime: &Handle, job: J) {
    runtime.spawn(job);
}

} // verus!

//! The log channel: the one path from background jobs to the controller.
//!
//! Background tasks produce [`ChannelMsg`] values; the controller drains
//! them once per tick. A message is either a log line to display or the
//! completion sentinel of one job kind.

use vstd::prelude::*;

verus! {

/// The three kinds of long-running external job, one busy flag each.
#[derive(Clone, Copy, PartialEq, Eq, Structural, Debug)]
pub enum JobKind {
    Generation,
    Conversion,
    Stamping,
}

/// One message on the log channel: visible text, or the completion
/// sentinel of one job kind.
#[derive(Debug)]
pub enum ChannelMsg {
    LogLine(String),
    JobFinished(JobKind),
}

#[verifier::external_type_specification]
#[verifier::external_body]
#[verifier::reject_recursive_types(T)]
pub struct ExUnboundedSender<T>(tokio::sync::mpsc::UnboundedSender<T>);

#[verifier::external_type_specification]
#[verifier::external_body]
#[verifier::reject_recursive_types(T)]
pub struct ExUnboundedReceiver<T>(tokio::sync::mpsc::UnboundedReceiver<T>);

/// Relies on tokio::sync::mpsc::unbounded_channel: returns the paired
/// sender and receiver handles of a fresh unbounded channel. The handles
/// are opaque here; nothing is assumed of what later arrives on them.
#[verifier::external_body]
pub(crate) fn new_log_channel() -> (
    tokio::sync::mpsc::UnboundedSender<ChannelMsg>,
    tokio::sync::mpsc::UnboundedReceiver<ChannelMsg>,
) {
    tokio::sync::mpsc::unbounded_channel()
}

/// Relies on tokio's UnboundedReceiver::try_recv: hands back one queued
/// message in arrival order, or nothing when the channel is empty or all
/// senders are gone. Concurrent senders decide what is queued, so nothing
/// is promised of the result.
#[verifier::external_body]
pub(crate) fn try_recv_log(
    rx: &mut tokio::sync::mpsc::UnboundedReceiver<ChannelMsg>,
) -> Option<ChannelMsg> {
    match rx.try_recv() {
        Ok(m) => Option::Some(m),
        Err(_) => Option::None,
    }
}

} // verus!

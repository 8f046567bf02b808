//! The handoff channel: a zero-capacity rendezvous queue between the pacer
//! and the server. A send succeeds only at an instant when the receiver is
//! blocked waiting, so no frame is ever buffered; otherwise the frame comes
//! straight back and is dropped. Disconnection of either end is the shutdown
//! signal seen by the other.
//!
//! The channel itself is `crossbeam_channel`; the trusted items below state
//! only what its source shows of a single call. The discipline this buys —
//! at most one frame in flight, no reordering, stale frames invisible — is
//! stated and proved over the model in `handoff_model`.
use crate::frame::GeneratedFrame;
use vstd::prelude::*;

verus! {

#[verifier::external_type_specification]
#[verifier::external_body]
#[verifier::reject_recursive_types(T)]
pub struct ExSender<T>(crossbeam_channel::Sender<T>);

#[verifier::external_type_specification]
#[verifier::external_body]
#[verifier::reject_recursive_types(T)]
pub struct ExReceiver<T>(crossbeam_channel::Receiver<T>);

/// The producing side observed that the consuming side is permanently gone.
pub struct ChannelClosed;

/// What one non-blocking send attempt came to.
pub enum SendOutcome {
    /// A receiver was waiting and took ownership of the frame.
    Sent,
    /// No receiver was waiting; the frame comes back and is discarded.
    Dropped(GeneratedFrame),
    /// The receiving side is gone; the frame comes back, and the pacer
    /// must shut down.
    Disconnected(GeneratedFrame),
}

/// Relies on `crossbeam_channel::Sender::try_send` on a rendezvous channel:
/// the frame is handed over exactly when a receiver is waiting at this
/// instant; otherwise it is returned unchanged inside the error, with
/// `Disconnected` meaning the receiving end was dropped.
#[verifier::external_body]
pub(crate) fn try_send_frame(tx: &crossbeam_channel::Sender<GeneratedFrame>, frame: GeneratedFrame) -> (r:
    SendOutcome)
    ensures
        match r {
            SendOutcome::Sent => true,
            SendOutcome::Dropped(f) => f == frame,
            SendOutcome::Disconnected(f) => f == frame,
        },
{
    match tx.try_send(frame) {
        Ok(()) => SendOutcome::Sent,
        Err(crossbeam_channel::TrySendError::Full(f)) => SendOutcome::Dropped(f),
        Err(crossbeam_channel::TrySendError::Disconnected(f)) => SendOutcome::Disconnected(f),
    }
}

/// Relies on `crossbeam_channel::Receiver::recv`: blocks until a frame is
/// handed over and returns it, or reports that the sending side has
/// disconnected and no frame will ever come.
#[verifier::external_body]
pub(crate) fn recv_frame(rx: &crossbeam_channel::Receiver<GeneratedFrame>) -> (r: Result<
    GeneratedFrame,
    ChannelClosed,
>)
{
    match rx.recv() {
        Ok(f) => Ok(f),
        Err(crossbeam_channel::RecvError) => Err(ChannelClosed),
    }
}

} // verus!

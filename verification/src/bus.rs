//! What a session makes of the notifications on the pipeline's bus.

use vstd::prelude::*;

verus! {

/// A notification of the pipeline, as far as a session tells them apart.
#[derive(Clone, Copy, Debug, PartialEq, Eq)]
pub enum BusMessage {
    /// The pipeline has finished a change of state that it carried out in
    /// the background: the video has loaded.
    AsyncDone,
    /// The stream has come to its end.
    Eos,
    /// The pipeline has met an error.
    Error,
    /// Any other notification.
    Other,
}

/// Decides whether a notification ends the wait for the video to load.
///
/// The controller starts the pipeline and then reads the bus until this
/// holds of a notification; every notification before that one is dropped.
pub fn wait_for_video_to_load(message: BusMessage) -> (loaded: bool)
    ensures
        loaded == (message is AsyncDone),
{
    match message {
        BusMessage::AsyncDone => true,
        _ => false,
    }
}

/// Decides whether a notification ends the bus monitor.
///
/// The monitor stops at the end of the stream and at an error. Every other
/// notification is looked at and dropped.
pub fn monitor_stops(message: BusMessage) -> (stop: bool)
    ensures
        stop == (message is Eos || message is Error),
{
    match message {
        BusMessage::Eos => true,
        BusMessage::Error => true,
        _ => false,
    }
}

} // verus!

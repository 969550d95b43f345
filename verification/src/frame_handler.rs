//! The capability through which a caller receives decoded frames.

use vstd::prelude::*;

verus! {

/// Receives the frames of a video, one call per decoded frame.
///
/// `frame_data` holds four bytes per pixel in the order red, green, blue,
/// alpha; `frame_size` is the width and the height of the frame in pixels.
/// The call comes from a thread that the pipeline owns, hence the `Send`
/// bound. The bytes are only lent: an implementation that wants to keep them
/// copies them before it returns. Nothing is returned and nothing is
/// reported back, so an implementation deals with its own failures.
pub trait FrameHandler: Send {
    fn handle_new_frame(&self, frame_data: &[u8], frame_size: (u32, u32));
}

} // verus!

use vstd::prelude::*;

verus! {

/// Errors of a capture run on Wayland.
///
/// Every error is fatal for the run: no partial list of screenshots is handed out.
#[derive(Debug, Clone, Copy, PartialEq, Eq, Structural)]
pub enum WaylandError {
    /// The announced buffer cannot hold an image of the announced size.
    ConvertImageFailed,
    /// Dispatching the event queue failed.
    EventQueuePollingError,
    /// No compositor could be reached.
    DisplayConnectionError,
    /// The awaited event did not come within the time budget.
    EventQueueTimeout,
    /// The compositor does not advertise a shared memory factory.
    NoShmBind,
    /// The shared memory file could not be created.
    ShmCreationFailed,
    /// The compositor does not advertise a screencopy manager.
    NoScreenshotManager,
    /// The compositor announced a pixel format (given by its wire code) that cannot be decoded.
    UnsupportedFormat(u32),
    /// The compositor reported that it could not capture the output.
    CaptureFailed,
    /// The shared buffer does not have the size `height * stride` of the announced frame.
    SizeMismatch { expected: u64, actual: u64 },
    /// The bytes of the shared buffer could not be read.
    ReadFailed,
    /// An event came that the current step of the run does not expect.
    BrokenState,
}

} // verus!

use vstd::prelude::*;

use crate::pixel::{format_of_wire, PixelFormat};

verus! {

/// An event of a screencopy frame, with the format still as a wire integer.
#[derive(Debug)]
pub enum FrameEvent {
    /// The compositor announces the buffer that the frame needs.
    Buffer { format: u32, width: u32, height: u32, stride: u32 },
    /// All buffer types have been announced.
    BufferDone,
    /// The frame has been copied into the buffer.
    Ready,
    /// The compositor could not copy the frame.
    Failed,
    /// Flags, damage and dmabuf announcements, which a capture does not use.
    Other,
}

/// Buffer parameters of one frame, as the compositor announced them.
#[derive(Debug, Clone, Copy, PartialEq, Eq, Structural)]
pub struct FrameMeta {
    pub format: PixelFormat,
    pub width: u32,
    pub height: u32,
    /// Bytes per row; may exceed `width` times the bytes per pixel.
    pub stride: u32,
}

impl FrameMeta {
    /// The parameters that a buffer event announces.
    pub open spec fn announced(event: FrameEvent) -> Option<FrameMeta> {
        match event {
            FrameEvent::Buffer { format, width, height, stride } => Some(
                FrameMeta { format: format_of_wire(format), width, height, stride },
            ),
            _ => None,
        }
    }

    /// Bytes of the shared buffer that holds this frame.
    pub open spec fn buffer_size(self) -> nat {
        self.height as nat * self.stride as nat
    }

    /// The parameters that `event` announces, or `None` if it is no buffer event.
    pub fn from_wayland_event(event: &FrameEvent) -> (r: Option<FrameMeta>)
        ensures
            r == FrameMeta::announced(*event),
    {
        match event {
            FrameEvent::Buffer { format, width, height, stride } => Some(
                FrameMeta {
                    format: PixelFormat::from_wire(*format),
                    width: *width,
                    height: *height,
                    stride: *stride,
                },
            ),
            _ => None,
        }
    }
}

/// What the caller is asked to allocate: a shared memory file of `size`
/// bytes, sealed against resizing, and a buffer over it with the frame's
/// parameters.
#[derive(Debug, Clone, Copy, PartialEq, Eq, Structural)]
pub struct ShmRequest {
    pub width: u32,
    pub height: u32,
    pub stride: u32,
    pub format: PixelFormat,
    pub size: u64,
}

impl ShmRequest {
    /// The shared buffer for `meta`: `height * stride` bytes, with the
    /// announced format.
    pub open spec fn for_frame_spec(meta: FrameMeta) -> ShmRequest {
        ShmRequest {
            width: meta.width,
            height: meta.height,
            stride: meta.stride,
            format: meta.format,
            size: meta.buffer_size() as u64,
        }
    }

    /// The shared buffer for `meta`: `height * stride` bytes, with the
    /// announced format.
    pub fn for_frame(meta: &FrameMeta) -> (r: ShmRequest)
        ensures
            r == ShmRequest::for_frame_spec(*meta),
            r.size == meta.buffer_size(),
    {
        assert(meta.height as nat * meta.stride as nat <= 0xffff_ffff * 0xffff_ffff) by (nonlinear_arith)
            requires
                meta.height <= 0xffff_ffff,
                meta.stride <= 0xffff_ffff,
        ;
        ShmRequest {
            width: meta.width,
            height: meta.height,
            stride: meta.stride,
            format: meta.format,
            size: meta.height as u64 * meta.stride as u64,
        }
    }
}

} // verus!

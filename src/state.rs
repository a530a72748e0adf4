use vstd::prelude::*;

use crate::frame::{FrameEvent, FrameMeta};
use crate::output::{
    fresh_output, Geometry, OutputEvent, OutputMode, OutputView, WaylandOutputInfo,
};
use crate::pixel::{format_of_wire, PixelFormat};

verus! {

/// Interface name of the output global.
pub const WL_OUTPUT: &'static str = "wl_output";

/// Interface name of the shared memory factory global.
pub const WL_SHM: &'static str = "wl_shm";

/// Interface name of the screencopy manager global.
pub const ZWLR_SCREENCOPY_MANAGER_V1: &'static str = "zwlr_screencopy_manager_v1";

/// A global that a capture binds.
#[derive(Debug, Clone, Copy, PartialEq, Eq, Structural)]
pub enum Capability {
    /// An output; bound once per advertised output.
    Output,
    /// The shared memory factory; bound once.
    SharedMemory,
    /// The screencopy manager; bound once.
    FrameCapture,
}

/// The capability that an advertised interface name stands for, if any.
pub open spec fn capability_of(interface: Seq<char>) -> Option<Capability> {
    if interface == WL_OUTPUT@ {
        Some(Capability::Output)
    } else if interface == WL_SHM@ {
        Some(Capability::SharedMemory)
    } else if interface == ZWLR_SCREENCOPY_MANAGER_V1@ {
        Some(Capability::FrameCapture)
    } else {
        None
    }
}

/// An output record after `event` about it.
pub open spec fn applied(rec: OutputView, event: OutputEvent) -> OutputView {
    match event {
        OutputEvent::Name { name } => OutputView { name: name@, ..rec },
        OutputEvent::Description { description } => OutputView {
            description: description@,
            ..rec
        },
        OutputEvent::Scale { factor } => OutputView { scale: factor, ..rec },
        OutputEvent::Geometry { .. } => OutputView {
            geometry: Geometry::announced(event)->Some_0@,
            ..rec
        },
        OutputEvent::Mode { .. } => OutputView { mode: OutputMode::announced(event)->Some_0, ..rec },
        OutputEvent::Done => rec,
    }
}

/// Whether output `id` has a record in `outputs`.
pub open spec fn has_output(outputs: Seq<OutputView>, id: u32) -> bool {
    exists|i: int| 0 <= i < outputs.len() && outputs[i].id == id
}

/// The catalog after `event` about output `id`: the record with that id is
/// changed in place; if there is none, a fresh one is appended and changed.
pub open spec fn catalog_after(outputs: Seq<OutputView>, id: u32, event: OutputEvent) -> Seq<
    OutputView,
> {
    if has_output(outputs, id) {
        let i = choose|i: int| 0 <= i < outputs.len() && outputs[i].id == id;
        outputs.update(i, applied(outputs[i], event))
    } else {
        outputs.push(applied(fresh_output(id), event))
    }
}

/// No two records of `outputs` have the same id.
pub open spec fn ids_unique(outputs: Seq<OutputView>) -> bool {
    forall|i: int, j: int|
        0 <= i < outputs.len() && 0 <= j < outputs.len() && i != j ==> outputs[i].id
            != outputs[j].id
}

/// Applies `event` to one output record.
fn apply_output_event(rec: &mut WaylandOutputInfo, event: OutputEvent)
    ensures
        final(rec)@ == applied(old(rec)@, event),
{
    match event {
        OutputEvent::Name { name } => rec.name = name,
        OutputEvent::Description { description } => rec.description = description,
        OutputEvent::Scale { factor } => rec.scale = factor,
        OutputEvent::Geometry { .. } => {
            let geometry = Geometry::from_wayland_geometry(event);
            rec.geometry = geometry.unwrap();
        },
        OutputEvent::Mode { .. } => {
            let mode = OutputMode::from_wayland_event(event);
            rec.mode = mode.unwrap();
        },
        OutputEvent::Done => {},
    }
}

/// What a capture knows of the compositor: its outputs, the globals it bound,
/// and the state of the one frame that may be in flight.
#[derive(Debug)]
pub struct WaylandScreenshotState {
    /// Set once the compositor has said that it announced all outputs; it is
    /// never cleared.
    pub outputs_fetched: bool,
    /// The output catalog, in the order in which outputs were first announced.
    pub outputs: Vec<WaylandOutputInfo>,
    /// Set when the frame in flight has been copied into the shared buffer.
    pub screenshot_ready: bool,
    /// Buffer parameters announced for the frame in flight.
    pub current_frame: Option<FrameMeta>,
    /// Set when the compositor reported that it could not copy a frame.
    pub capture_failed: bool,
    /// Whether the shared memory factory has been bound.
    pub has_shm: bool,
    /// Pixel formats that the shared memory factory supports.
    pub shm_formats: Vec<PixelFormat>,
    /// Whether the screencopy manager has been bound.
    pub has_screencopy: bool,
}

impl WaylandScreenshotState {
    /// The output catalog as records of values.
    pub open spec fn catalog(&self) -> Seq<OutputView> {
        self.outputs@.map_values(|o: WaylandOutputInfo| o@)
    }

    pub open spec fn wf(&self) -> bool {
        &&& ids_unique(self.catalog())
        &&& self.outputs_fetched ==> self.outputs@.len() > 0
    }

    /// Nothing of a frame is left: no buffer parameters, no ready flag.
    pub open spec fn is_drained(&self) -> bool {
        &&& self.current_frame is None
        &&& !self.screenshot_ready
    }

    /// The state of a connection on which nothing has been announced.
    pub fn new() -> (r: WaylandScreenshotState)
        ensures
            r.wf(),
            r.catalog() == Seq::<OutputView>::empty(),
            !r.outputs_fetched,
            r.is_drained(),
            !r.capture_failed,
            !r.has_shm,
            !r.has_screencopy,
            r.shm_formats@ == Seq::<PixelFormat>::empty(),
    {
        let r = WaylandScreenshotState {
            outputs_fetched: false,
            outputs: Vec::new(),
            screenshot_ready: false,
            current_frame: None,
            capture_failed: false,
            has_shm: false,
            shm_formats: Vec::new(),
            has_screencopy: false,
        };
        assert(r.catalog() =~= Seq::<OutputView>::empty());
        r
    }

    /// Handles a global that the registry advertises, and says which
    /// capability to bind for it: every output, and the first shared memory
    /// factory and screencopy manager; nothing else.
    pub fn on_global(&mut self, interface: &String) -> (r: Option<Capability>)
        ensures
            r == (match capability_of(interface@) {
                Some(Capability::SharedMemory) => if old(self).has_shm {
                    None
                } else {
                    Some(Capability::SharedMemory)
                },
                Some(Capability::FrameCapture) => if old(self).has_screencopy {
                    None
                } else {
                    Some(Capability::FrameCapture)
                },
                other => other,
            }),
            final(self).has_shm == (old(self).has_shm || r == Some(Capability::SharedMemory)),
            final(self).has_screencopy == (old(self).has_screencopy || r == Some(
                Capability::FrameCapture,
            )),
            final(self).outputs == old(self).outputs,
            final(self).outputs_fetched == old(self).outputs_fetched,
            final(self).screenshot_ready == old(self).screenshot_ready,
            final(self).current_frame == old(self).current_frame,
            final(self).capture_failed == old(self).capture_failed,
            final(self).shm_formats == old(self).shm_formats,
    {
        let output = String::from_str(WL_OUTPUT);
        let shm = String::from_str(WL_SHM);
        let screencopy = String::from_str(ZWLR_SCREENCOPY_MANAGER_V1);
        if interface.eq(&output) {
            Some(Capability::Output)
        } else if interface.eq(&shm) {
            if self.has_shm {
                None
            } else {
                self.has_shm = true;
                Some(Capability::SharedMemory)
            }
        } else if interface.eq(&screencopy) {
            if self.has_screencopy {
                None
            } else {
                self.has_screencopy = true;
                Some(Capability::FrameCapture)
            }
        } else {
            None
        }
    }

    /// Records a pixel format that the shared memory factory supports.
    pub fn on_shm_format(&mut self, format: u32)
        ensures
            final(self).shm_formats@ == old(self).shm_formats@.push(format_of_wire(format)),
            final(self).outputs == old(self).outputs,
            final(self).outputs_fetched == old(self).outputs_fetched,
            final(self).screenshot_ready == old(self).screenshot_ready,
            final(self).current_frame == old(self).current_frame,
            final(self).capture_failed == old(self).capture_failed,
            final(self).has_shm == old(self).has_shm,
            final(self).has_screencopy == old(self).has_screencopy,
    {
        self.shm_formats.push(PixelFormat::from_wire(format));
    }

    /// Handles an event about output `id`: the record with that id is changed
    /// in place, or created at the end of the catalog if there is none; a
    /// `Done` event marks the outputs as fetched.
    pub fn on_output_event(&mut self, id: u32, event: OutputEvent)
        requires
            old(self).wf(),
        ensures
            final(self).wf(),
            final(self).catalog() == catalog_after(old(self).catalog(), id, event),
            final(self).outputs_fetched == (old(self).outputs_fetched || event is Done),
            final(self).screenshot_ready == old(self).screenshot_ready,
            final(self).current_frame == old(self).current_frame,
            final(self).capture_failed == old(self).capture_failed,
            final(self).has_shm == old(self).has_shm,
            final(self).has_screencopy == old(self).has_screencopy,
            final(self).shm_formats == old(self).shm_formats,
    {
        let ghost before = self.catalog();
        let n = self.outputs.len();
        let mut i: usize = 0;
        while i < n && self.outputs[i].id != id
            invariant
                n == self.outputs@.len(),
                i <= n,
                self.catalog() == before,
                forall|j: int| 0 <= j < i ==> before[j].id != id,
            decreases n - i,
        {
            i = i + 1;
        }
        let is_done = matches!(event, OutputEvent::Done);
        if i == n {
            proof {
                assert(!has_output(before, id)) by {
                    if has_output(before, id) {
                        let k = choose|k: int| 0 <= k < before.len() && before[k].id == id;
                        assert(before[k].id != id);
                    }
                }
            }
            self.outputs.push(WaylandOutputInfo::from_wl_output(id));
            assert(self.catalog() =~= before.push(fresh_output(id)));
        } else {
            proof {
                assert(before[i as int].id == id);
                let k = choose|k: int| 0 <= k < before.len() && before[k].id == id;
                assert(k == i);
            }
        }
        let ghost mid = self.catalog();
        apply_output_event(&mut self.outputs[i], event);
        proof {
            assert(self.catalog() =~= mid.update(i as int, self.outputs@[i as int]@));
            assert(self.catalog() =~= catalog_after(before, id, event));
        }
        if is_done {
            self.outputs_fetched = true;
        }
    }

    /// Handles an event of the frame in flight.
    pub fn on_frame_event(&mut self, event: FrameEvent)
        ensures
            final(self).current_frame == (if event is Buffer {
                FrameMeta::announced(event)
            } else {
                old(self).current_frame
            }),
            final(self).screenshot_ready == (old(self).screenshot_ready || event is Ready),
            final(self).capture_failed == (old(self).capture_failed || event is Failed),
            final(self).outputs == old(self).outputs,
            final(self).outputs_fetched == old(self).outputs_fetched,
            final(self).has_shm == old(self).has_shm,
            final(self).has_screencopy == old(self).has_screencopy,
            final(self).shm_formats == old(self).shm_formats,
    {
        match event {
            FrameEvent::Buffer { .. } => {
                self.current_frame = FrameMeta::from_wayland_event(&event);
            },
            FrameEvent::Ready => {
                self.screenshot_ready = true;
            },
            FrameEvent::Failed => {
                self.capture_failed = true;
            },
            FrameEvent::BufferDone | FrameEvent::Other => {},
        }
    }

    /// Resets the state to before a frame was requested: no buffer parameters,
    /// no ready flag.
    pub fn next_screen(&mut self)
        ensures
            final(self).is_drained(),
            final(self).outputs == old(self).outputs,
            final(self).outputs_fetched == old(self).outputs_fetched,
            final(self).capture_failed == old(self).capture_failed,
            final(self).has_shm == old(self).has_shm,
            final(self).has_screencopy == old(self).has_screencopy,
            final(self).shm_formats == old(self).shm_formats,
    {
        self.screenshot_ready = false;
        self.current_frame = None;
    }
}

} // verus!

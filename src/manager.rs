use vstd::prelude::*;

use crate::error::WaylandError;
use crate::frame::{FrameMeta, ShmRequest};
use crate::output::{descriptor, OutputInfo, WaylandOutputInfo};
use crate::pixel::{decode_error, decodes_to, image_from_wayland, Image};
use crate::state::WaylandScreenshotState;

verus! {

/// Where a capture run stands.
#[derive(Debug, Clone, Copy, PartialEq, Eq, Structural)]
pub enum Phase {
    /// Waiting for the registry round trip to finish.
    Connecting,
    /// Waiting, since the given time, for the compositor to announce its outputs.
    Discovering { since: u64 },
    /// A frame was requested; waiting, since the given time, for its buffer parameters.
    Requested { since: u64 },
    /// The caller was asked to allocate the shared buffer.
    Allocating,
    /// The copy was requested; waiting, since the given time, for the frame to be ready.
    CopyIssued { since: u64 },
    /// The caller was asked to read the shared buffer.
    Reading,
    /// The caller was asked to destroy the shared buffer.
    Draining,
    /// Every output of the catalog has been captured.
    Finished,
    /// The run failed with the given error.
    Failed(WaylandError),
}

/// What the caller reports to the run. Times are milliseconds of a clock that
/// does not go back.
#[derive(Debug)]
pub enum Event {
    /// The registry round trip is done: the globals have been bound.
    Connected { now: u64 },
    /// A request was sent, or one blocking dispatch of the event queue returned.
    Progress { now: u64 },
    /// The shared buffer was allocated with `size` bytes.
    Allocated { size: u64, now: u64 },
    /// The bytes of the shared buffer.
    BytesRead { data: Vec<u8> },
    /// The shared buffer has been destroyed.
    Released { now: u64 },
}

/// What the run asks the caller to do next.
#[derive(Debug, Clone, Copy, PartialEq, Eq, Structural)]
pub enum Action {
    /// Dispatch the event queue once, waiting at most `wait_ms` for events.
    Dispatch { wait_ms: u64 },
    /// Request a frame of the output with this protocol id.
    Capture { output_id: u32 },
    /// Allocate this shared buffer.
    Allocate(ShmRequest),
    /// Request the copy of the frame into the shared buffer.
    Copy,
    /// Read `len` bytes from the start of the shared buffer.
    Read { len: u64 },
    /// Destroy the shared buffer's pool and buffer objects.
    Release,
    /// The run is over; the screenshots can be taken.
    Done,
    /// The run failed.
    Fail(WaylandError),
}

/// Milliseconds from `since` to `now`.
pub open spec fn elapsed(since: u64, now: u64) -> nat {
    if now >= since {
        (now - since) as nat
    } else {
        0
    }
}

impl Phase {
    /// The time at which the current wait began, in a phase that waits for events.
    pub open spec fn waiting_since(self) -> Option<u64> {
        match self {
            Phase::Discovering { since } => Some(since),
            Phase::Requested { since } => Some(since),
            Phase::CopyIssued { since } => Some(since),
            _ => None,
        }
    }
}

impl Event {
    pub open spec fn time(&self) -> Option<u64> {
        match self {
            Event::Connected { now } => Some(*now),
            Event::Progress { now } => Some(*now),
            Event::Allocated { now, .. } => Some(*now),
            Event::Released { now } => Some(*now),
            Event::BytesRead { .. } => None,
        }
    }
}

/// The decisions of one capture run: it discovers the outputs, then captures
/// them one after the other in catalog order, with at most one frame in
/// flight, and fails as a whole on the first error or when an awaited event
/// does not come within `timeout_ms`.
///
/// The caller owns the connection. It hands each event of the compositor to
/// `state`, reports what it did with `step`, and does what `step` returns.
pub struct WaylandScreenshotManager {
    pub state: WaylandScreenshotState,
    pub phase: Phase,
    pub timeout_ms: u64,
    /// Descriptors of the outputs, taken when the outputs were fetched.
    pub catalog: Vec<OutputInfo>,
    /// Index in `catalog` of the output being captured.
    pub current: usize,
    /// Buffer parameters of the frame in flight, from the moment its buffer
    /// is allocated.
    pub frame: Option<FrameMeta>,
    /// The screenshots taken so far, in catalog order.
    pub screenshots: Vec<(OutputInfo, Image)>,
    /// The output records from which `catalog` was taken.
    pub fetched: Ghost<Seq<WaylandOutputInfo>>,
    /// Buffer parameters announced for each screenshot taken.
    pub frames: Ghost<Seq<FrameMeta>>,
}

impl WaylandScreenshotManager {
    /// Whether the event that the current phase waits for has come (or the
    /// compositor reported a failure of the frame).
    pub open spec fn awaited(&self) -> bool {
        match self.phase {
            Phase::Discovering { .. } => self.state.outputs_fetched,
            Phase::Requested { .. } => self.state.current_frame is Some || self.state.capture_failed,
            Phase::CopyIssued { .. } => self.state.screenshot_ready || self.state.capture_failed,
            _ => true,
        }
    }

    pub open spec fn taken(&self) -> nat {
        self.screenshots@.len()
    }

    pub open spec fn wf(&self) -> bool {
        &&& self.state.wf()
        &&& self.catalog@.len() == self.fetched@.len()
        &&& forall|i: int|
            0 <= i < self.catalog@.len() ==> #[trigger] self.catalog@[i] == descriptor(
                self.fetched@[i],
            )
        &&& self.frames@.len() == self.taken()
        &&& self.taken() <= self.catalog@.len()
        &&& forall|i: int|
            0 <= i < self.taken() ==> {
                let shot = #[trigger] self.screenshots@[i];
                &&& shot.0 == self.catalog@[i]
                &&& shot.1.wf()
                &&& shot.1.width == self.frames@[i].width
                &&& shot.1.height == self.frames@[i].height
            }
        &&& match self.phase {
            Phase::Connecting | Phase::Discovering { .. } => {
                &&& self.catalog@.len() == 0
                &&& self.current == 0
            },
            Phase::Requested { .. } => {
                &&& self.current < self.catalog@.len()
                &&& self.taken() == self.current
            },
            Phase::Allocating | Phase::CopyIssued { .. } | Phase::Reading => {
                &&& self.current < self.catalog@.len()
                &&& self.taken() == self.current
                &&& self.frame is Some
            },
            Phase::Draining => {
                &&& self.current < self.catalog@.len()
                &&& self.taken() == self.current + 1
            },
            Phase::Finished => self.taken() == self.catalog@.len(),
            Phase::Failed(_) => true,
        }
    }

    /// A run that has not connected yet, on `state`, whose awaited events
    /// must each come within `timeout_ms`.
    pub fn new(state: WaylandScreenshotState, timeout_ms: u64) -> (r: WaylandScreenshotManager)
        requires
            state.wf(),
        ensures
            r.wf(),
            r.state == state,
            r.phase == Phase::Connecting,
            r.timeout_ms == timeout_ms,
            r.taken() == 0,
    {
        WaylandScreenshotManager {
            state,
            phase: Phase::Connecting,
            timeout_ms,
            catalog: Vec::new(),
            current: 0,
            frame: None,
            screenshots: Vec::new(),
            fetched: Ghost(Seq::empty()),
            frames: Ghost(Seq::empty()),
        }
    }

    /// The action of one turn of a wait that began at `since`, with the
    /// awaited event not come by `now`.
    pub open spec fn wait_turn(&self, since: u64, now: u64) -> Action {
        if elapsed(since, now) < self.timeout_ms {
            Action::Dispatch { wait_ms: (self.timeout_ms - elapsed(since, now)) as u64 }
        } else {
            Action::Fail(WaylandError::EventQueueTimeout)
        }
    }

    /// The action once the outputs may have been fetched.
    pub open spec fn discovery(&self, since: u64, now: u64) -> Action {
        if self.state.outputs_fetched {
            Action::Capture { output_id: self.state.outputs@[0].id }
        } else {
            self.wait_turn(since, now)
        }
    }

    /// The action once the frame's buffer parameters may have been announced.
    pub open spec fn announcement(&self, since: u64, now: u64) -> Action {
        if self.state.capture_failed {
            Action::Fail(WaylandError::CaptureFailed)
        } else if self.state.current_frame is Some {
            let meta = self.state.current_frame->Some_0;
            if meta.format.is_supported() {
                Action::Allocate(ShmRequest::for_frame_spec(meta))
            } else {
                Action::Fail(WaylandError::UnsupportedFormat(meta.format.wire_code()))
            }
        } else {
            self.wait_turn(since, now)
        }
    }

    /// The action once the shared buffer was allocated with `size` bytes.
    pub open spec fn allocation(&self, size: u64) -> Action {
        let expected = self.frame->Some_0.buffer_size();
        if self.state.capture_failed {
            Action::Fail(WaylandError::CaptureFailed)
        } else if size as nat == expected {
            Action::Copy
        } else {
            Action::Fail(WaylandError::SizeMismatch { expected: expected as u64, actual: size })
        }
    }

    /// The action once the frame may have been copied.
    pub open spec fn completion(&self, since: u64, now: u64) -> Action {
        if self.state.capture_failed {
            Action::Fail(WaylandError::CaptureFailed)
        } else if self.state.screenshot_ready {
            Action::Read { len: self.frame->Some_0.buffer_size() as u64 }
        } else {
            self.wait_turn(since, now)
        }
    }

    /// The action once the bytes of the shared buffer were read.
    pub open spec fn decoding(&self, data: Seq<u8>) -> Action {
        let meta = self.frame->Some_0;
        match decode_error(
            data.len(),
            meta.width as nat,
            meta.height as nat,
            meta.stride as nat,
            meta.format,
        ) {
            Some(e) => Action::Fail(e),
            None => Action::Release,
        }
    }

    /// The action once the shared buffer of the output at `current` is destroyed.
    pub open spec fn advance(&self) -> Action {
        if self.current + 1 < self.catalog@.len() {
            Action::Capture { output_id: self.catalog@[self.current + 1].id }
        } else {
            Action::Done
        }
    }

    /// Whether `event` finds the run waiting, the awaited event not come, and
    /// the budget of the wait spent.
    pub open spec fn times_out(&self, event: &Event) -> bool {
        &&& self.phase.waiting_since() is Some
        &&& event is Progress
        &&& !self.awaited()
        &&& elapsed(self.phase.waiting_since()->Some_0, event.time()->Some_0) >= self.timeout_ms
    }

    /// Whether `event` reports a shared buffer whose size is not that of the
    /// announced frame.
    pub open spec fn rejects_buffer(&self, event: &Event) -> bool {
        &&& self.phase == Phase::Allocating
        &&& event is Allocated
        &&& event->size as nat != self.frame->Some_0.buffer_size()
    }

    /// Whether the action `r` ends the discovery: the catalog is taken from
    /// the outputs announced so far, and the first of them is requested.
    pub open spec fn takes_catalog(&self, r: Action) -> bool {
        &&& r is Capture
        &&& (self.phase is Connecting || self.phase is Discovering)
    }

    /// What `step` returns on `event`.
    pub open spec fn next_action(&self, event: &Event) -> Action {
        match self.phase {
            Phase::Connecting => match *event {
                Event::Connected { now } => if !self.state.has_screencopy {
                    Action::Fail(WaylandError::NoScreenshotManager)
                } else if !self.state.has_shm {
                    Action::Fail(WaylandError::NoShmBind)
                } else {
                    self.discovery(now, now)
                },
                _ => Action::Fail(WaylandError::BrokenState),
            },
            Phase::Discovering { since } => match *event {
                Event::Progress { now } => self.discovery(since, now),
                _ => Action::Fail(WaylandError::BrokenState),
            },
            Phase::Requested { since } => match *event {
                Event::Progress { now } => self.announcement(since, now),
                _ => Action::Fail(WaylandError::BrokenState),
            },
            Phase::Allocating => match *event {
                Event::Allocated { size, .. } => self.allocation(size),
                _ => Action::Fail(WaylandError::BrokenState),
            },
            Phase::CopyIssued { since } => match *event {
                Event::Progress { now } => self.completion(since, now),
                _ => Action::Fail(WaylandError::BrokenState),
            },
            Phase::Reading => match *event {
                Event::BytesRead { data } => self.decoding(data@),
                _ => Action::Fail(WaylandError::BrokenState),
            },
            Phase::Draining => match *event {
                Event::Released { .. } => self.advance(),
                _ => Action::Fail(WaylandError::BrokenState),
            },
            Phase::Finished => Action::Done,
            Phase::Failed(e) => Action::Fail(e),
        }
    }

    /// Ends the run with `e`.
    fn fail(&mut self, e: WaylandError) -> (r: Action)
        requires
            old(self).wf(),
        ensures
            final(self).catalog == old(self).catalog,
            final(self).fetched == old(self).fetched,
            final(self).frames == old(self).frames,
            r == Action::Fail(e),
            final(self).wf(),
            final(self).phase == Phase::Failed(e),
            final(self).state == old(self).state,
            final(self).screenshots == old(self).screenshots,
            final(self).frame == old(self).frame,
            final(self).timeout_ms == old(self).timeout_ms,
    {
        self.phase = Phase::Failed(e);
        Action::Fail(e)
    }

    /// One turn of a wait that began at `since`: dispatch again for what is
    /// left of the budget, or fail with a timeout once it is spent.
    fn poll_queue_until(&mut self, since: u64, now: u64) -> (r: Action)
        requires
            old(self).wf(),
        ensures
            final(self).catalog == old(self).catalog,
            final(self).fetched == old(self).fetched,
            final(self).frames == old(self).frames,
            r == old(self).wait_turn(since, now),
            final(self).wf(),
            r is Dispatch ==> *final(self) == *old(self),
            r is Fail ==> final(self).phase == Phase::Failed(r->Fail_0),
            final(self).state == old(self).state,
            final(self).screenshots == old(self).screenshots,
            final(self).frame == old(self).frame,
            final(self).timeout_ms == old(self).timeout_ms,
    {
        let waited: u64 = if now >= since {
            now - since
        } else {
            0
        };
        if waited >= self.timeout_ms {
            self.fail(WaylandError::EventQueueTimeout)
        } else {
            Action::Dispatch { wait_ms: self.timeout_ms - waited }
        }
    }

    /// Takes the catalog: a descriptor of every output announced so far, in order.
    fn take_catalog(&mut self)
        requires
            old(self).wf(),
            old(self).taken() == 0,
            old(self).phase is Connecting || old(self).phase is Discovering,
        ensures
            final(self).catalog@.len() == old(self).state.outputs@.len(),
            final(self).fetched@ == old(self).state.outputs@,
            forall|i: int|
                0 <= i < final(self).catalog@.len() ==> #[trigger] final(self).catalog@[i]
                    == descriptor(final(self).fetched@[i]),
            final(self).state == old(self).state,
            final(self).phase == old(self).phase,
            final(self).current == old(self).current,
            final(self).screenshots == old(self).screenshots,
            final(self).frames == old(self).frames,
            final(self).timeout_ms == old(self).timeout_ms,
    {
        let n = self.state.outputs.len();
        let mut catalog: Vec<OutputInfo> = Vec::new();
        let mut i: usize = 0;
        while i < n
            invariant
                n == self.state.outputs@.len(),
                i <= n,
                catalog@.len() == i,
                forall|j: int|
                    0 <= j < i ==> #[trigger] catalog@[j] == descriptor(self.state.outputs@[j]),
            decreases n - i,
        {
            catalog.push(OutputInfo::from(&self.state.outputs[i]));
            i = i + 1;
        }
        self.catalog = catalog;
        self.fetched = Ghost(self.state.outputs@);
    }

    /// Requests a frame of the output at `current` on a drained state, or ends
    /// the run when every output has been captured.
    fn start_capture(&mut self, now: u64) -> (r: Action)
        requires
            old(self).state.wf(),
            old(self).catalog@.len() == old(self).fetched@.len(),
            forall|i: int|
                0 <= i < old(self).catalog@.len() ==> #[trigger] old(self).catalog@[i]
                    == descriptor(old(self).fetched@[i]),
            old(self).frames@.len() == old(self).taken(),
            old(self).taken() == old(self).current,
            old(self).current <= old(self).catalog@.len(),
            forall|i: int|
                0 <= i < old(self).taken() ==> {
                    let shot = #[trigger] old(self).screenshots@[i];
                    &&& shot.0 == old(self).catalog@[i]
                    &&& shot.1.wf()
                    &&& shot.1.width == old(self).frames@[i].width
                    &&& shot.1.height == old(self).frames@[i].height
                },
        ensures
            final(self).fetched == old(self).fetched,
            final(self).frames == old(self).frames,
            final(self).wf(),
            final(self).state.is_drained(),
            final(self).state.catalog() == old(self).state.catalog(),
            final(self).state.outputs_fetched == old(self).state.outputs_fetched,
            final(self).screenshots == old(self).screenshots,
            final(self).catalog == old(self).catalog,
            old(self).current < old(self).catalog@.len() ==> r == (Action::Capture {
                output_id: old(self).catalog@[old(self).current as int].id,
            }),
            old(self).current < old(self).catalog@.len() ==> final(self).phase == (
            Phase::Requested { since: now }),
            old(self).current == old(self).catalog@.len() ==> r == Action::Done,
            old(self).current == old(self).catalog@.len() ==> final(self).phase == Phase::Finished,
    {
        self.state.next_screen();
        self.frame = None;
        if self.current < self.catalog.len() {
            self.phase = Phase::Requested { since: now };
            Action::Capture { output_id: self.catalog[self.current].id }
        } else {
            self.phase = Phase::Finished;
            Action::Done
        }
    }

    /// Waits for the outputs; once they are fetched, takes the catalog and
    /// requests the first frame.
    fn discover(&mut self, since: u64, now: u64) -> (r: Action)
        requires
            old(self).wf(),
            old(self).taken() == 0,
            old(self).phase is Connecting || old(self).phase is Discovering,
            old(self).current == 0,
        ensures
            r is Capture ==> final(self).fetched@ == old(self).state.outputs@,
            !(r is Capture) ==> final(self).catalog == old(self).catalog,
            !(r is Capture) ==> final(self).fetched == old(self).fetched,
            final(self).frames == old(self).frames,
            r == old(self).discovery(since, now),
            final(self).wf(),
            r is Capture ==> final(self).state.is_drained(),
            r is Capture ==> final(self).phase == (Phase::Requested { since: now }),
            r is Dispatch ==> *final(self) == *old(self),
            r is Fail ==> final(self).phase == Phase::Failed(r->Fail_0),
            final(self).screenshots == old(self).screenshots,
    {
        if self.state.outputs_fetched {
            self.take_catalog();
            self.start_capture(now)
        } else {
            self.poll_queue_until(since, now)
        }
    }

    /// The buffer parameters may have been announced: on a failure of the
    /// frame the run fails; with the parameters, the shared buffer is asked
    /// for; else the wait goes on.
    fn create_shared_memory(&mut self, since: u64, now: u64) -> (r: Action)
        requires
            old(self).wf(),
            old(self).phase == (Phase::Requested { since }),
        ensures
            final(self).catalog == old(self).catalog,
            final(self).fetched == old(self).fetched,
            final(self).frames == old(self).frames,
            r == old(self).announcement(since, now),
            final(self).wf(),
            r is Allocate ==> final(self).phase == Phase::Allocating,
            r is Allocate ==> final(self).frame == old(self).state.current_frame,
            r is Allocate ==> r->Allocate_0.size == final(self).frame->Some_0.buffer_size(),
            r is Dispatch ==> *final(self) == *old(self),
            r is Fail ==> final(self).phase == Phase::Failed(r->Fail_0),
            final(self).state == old(self).state,
            final(self).screenshots == old(self).screenshots,
    {
        if self.state.capture_failed {
            return self.fail(WaylandError::CaptureFailed);
        }
        match self.state.current_frame {
            Some(meta) => {
                if meta.format.bytes_per_pixel().is_none() {
                    return self.fail(WaylandError::UnsupportedFormat(meta.format.to_wire()));
                }
                self.frame = Some(meta);
                self.phase = Phase::Allocating;
                Action::Allocate(ShmRequest::for_frame(&meta))
            },
            None => self.poll_queue_until(since, now),
        }
    }

    /// The shared buffer was allocated: the copy is requested only when the
    /// buffer has exactly the size of the announced frame.
    fn on_allocated(&mut self, size: u64, now: u64) -> (r: Action)
        requires
            old(self).wf(),
            old(self).phase == Phase::Allocating,
        ensures
            final(self).catalog == old(self).catalog,
            final(self).fetched == old(self).fetched,
            final(self).frames == old(self).frames,
            r == old(self).allocation(size),
            final(self).wf(),
            r is Copy ==> final(self).phase == (Phase::CopyIssued { since: now }),
            r is Fail ==> final(self).phase == Phase::Failed(r->Fail_0),
            final(self).frame == old(self).frame,
            final(self).state == old(self).state,
            final(self).screenshots == old(self).screenshots,
    {
        let meta = self.frame.unwrap();
        let expected = ShmRequest::for_frame(&meta).size;
        if self.state.capture_failed {
            self.fail(WaylandError::CaptureFailed)
        } else if size == expected {
            self.phase = Phase::CopyIssued { since: now };
            Action::Copy
        } else {
            self.fail(WaylandError::SizeMismatch { expected, actual: size })
        }
    }

    /// The frame may have been copied: on a failure the run fails; once it is
    /// ready, the whole shared buffer is asked for; else the wait goes on.
    fn await_screenshot(&mut self, since: u64, now: u64) -> (r: Action)
        requires
            old(self).wf(),
            old(self).phase == (Phase::CopyIssued { since }),
        ensures
            final(self).catalog == old(self).catalog,
            final(self).fetched == old(self).fetched,
            final(self).frames == old(self).frames,
            r == old(self).completion(since, now),
            final(self).wf(),
            r is Read ==> final(self).phase == Phase::Reading,
            r is Dispatch ==> *final(self) == *old(self),
            r is Fail ==> final(self).phase == Phase::Failed(r->Fail_0),
            final(self).frame == old(self).frame,
            final(self).state == old(self).state,
            final(self).screenshots == old(self).screenshots,
    {
        if self.state.capture_failed {
            return self.fail(WaylandError::CaptureFailed);
        }
        if self.state.screenshot_ready {
            let meta = self.frame.unwrap();
            self.phase = Phase::Reading;
            Action::Read { len: ShmRequest::for_frame(&meta).size }
        } else {
            self.poll_queue_until(since, now)
        }
    }

    /// The bytes of the shared buffer were read: they are decoded into the
    /// screenshot of the output at `current`, and the buffer is to be released.
    fn on_bytes(&mut self, data: Vec<u8>) -> (r: Action)
        requires
            old(self).wf(),
            old(self).phase == Phase::Reading,
        ensures
            final(self).catalog == old(self).catalog,
            final(self).fetched == old(self).fetched,
            r is Fail ==> final(self).frames == old(self).frames,
            final(self).frame == old(self).frame,
            r == old(self).decoding(data@),
            final(self).wf(),
            r is Release ==> final(self).phase == Phase::Draining,
            r is Release ==> final(self).screenshots@.len() == old(self).taken() + 1,
            r is Release ==> final(self).screenshots@.drop_last() == old(self).screenshots@,
            r is Release ==> final(self).screenshots@.last().0 == old(self).catalog@[old(
                self,
            ).current as int],
            r is Release ==> final(self).frames@ == old(self).frames@.push(old(self).frame->Some_0),
            r is Release ==> ({
                let meta = old(self).frame->Some_0;
                decodes_to(
                    final(self).screenshots@.last().1,
                    data@,
                    meta.width,
                    meta.height,
                    meta.stride,
                    meta.format,
                )
            }),
            r is Fail ==> final(self).phase == Phase::Failed(r->Fail_0),
            r is Fail ==> final(self).screenshots == old(self).screenshots,
            final(self).state == old(self).state,
    {
        let meta = self.frame.unwrap();
        match image_from_wayland(&data, meta.width, meta.height, meta.stride, meta.format) {
            Ok(img) => {
                let info = self.catalog[self.current].duplicate();
                self.screenshots.push((info, img));
                self.frames = Ghost(self.frames@.push(meta));
                self.phase = Phase::Draining;
                proof {
                    assert(self.screenshots@.drop_last() =~= old(self).screenshots@);
                }
                Action::Release
            },
            Err(e) => self.fail(e),
        }
    }

    /// The shared buffer was destroyed: the state is drained and the next
    /// output of the catalog is requested, or the run ends.
    fn on_released(&mut self, now: u64) -> (r: Action)
        requires
            old(self).wf(),
            old(self).phase == Phase::Draining,
        ensures
            final(self).catalog == old(self).catalog,
            final(self).fetched == old(self).fetched,
            final(self).frames == old(self).frames,
            r == old(self).advance(),
            final(self).wf(),
            r is Capture ==> final(self).state.is_drained(),
            r is Capture ==> final(self).phase == (Phase::Requested { since: now }),
            r is Done ==> final(self).phase == Phase::Finished,
            final(self).screenshots == old(self).screenshots,
    {
        let n = self.catalog.len();
        assert(self.current < n);
        self.current = self.current + 1;
        self.start_capture(now)
    }

    /// Takes in what the caller did or saw, and says what it is to do next.
    ///
    /// Every awaited event gets `timeout_ms` from the moment the wait began:
    /// a dispatch is asked for only while budget is left, and only for what
    /// is left of it; once it is spent the run fails with a timeout. A frame
    /// is requested only on a drained state, a copy only into a buffer of
    /// exactly `height * stride` bytes, and the run ends only after every
    /// output of the catalog was captured.
    pub fn step(&mut self, event: Event) -> (r: Action)
        requires
            old(self).wf(),
        ensures
            r == old(self).next_action(&event),
            final(self).wf(),
            old(self).times_out(&event) ==> r == Action::Fail(WaylandError::EventQueueTimeout),
            old(self).rejects_buffer(&event) ==> r is Fail,
            r is Dispatch ==> final(self).phase.waiting_since() is Some,
            r is Dispatch ==> elapsed(final(self).phase.waiting_since()->Some_0, event.time()->Some_0)
                + r->wait_ms == old(self).timeout_ms,
            r is Dispatch ==> final(self).state == old(self).state,
            r is Capture ==> final(self).state.is_drained(),
            r is Capture ==> final(self).phase == (Phase::Requested {
                since: event.time()->Some_0,
            }),
            r is Allocate ==> final(self).phase == Phase::Allocating,
            r is Allocate ==> r->Allocate_0.size == final(self).frame->Some_0.buffer_size(),
            r is Copy ==> old(self).phase == Phase::Allocating,
            r is Copy ==> (event matches Event::Allocated { size, .. } && size
                == old(self).frame->Some_0.buffer_size()),
            r is Copy ==> final(self).phase == (Phase::CopyIssued {
                since: event.time()->Some_0,
            }),
            r is Read ==> final(self).phase == Phase::Reading,
            r is Release ==> final(self).phase == Phase::Draining,
            r is Release ==> final(self).screenshots@.len() == old(self).taken() + 1,
            r is Release ==> final(self).screenshots@.drop_last() == old(self).screenshots@,
            !(r is Release) ==> final(self).screenshots == old(self).screenshots,
            r is Release ==> final(self).screenshots@.last().0 == old(self).catalog@[old(
                self,
            ).current as int],
            r is Release ==> final(self).frames@ == old(self).frames@.push(old(self).frame->Some_0),
            r is Release ==> ({
                let meta = old(self).frame->Some_0;
                decodes_to(
                    final(self).screenshots@.last().1,
                    event->data@,
                    meta.width,
                    meta.height,
                    meta.stride,
                    meta.format,
                )
            }),
            !(r is Release) ==> final(self).frames == old(self).frames,
            r is Allocate ==> final(self).frame == old(self).state.current_frame,
            r is Copy || r is Read || r is Release ==> final(self).frame == old(self).frame,
            old(self).takes_catalog(r) ==> final(self).fetched@ == old(self).state.outputs@,
            !old(self).takes_catalog(r) ==> final(self).catalog == old(self).catalog,
            !old(self).takes_catalog(r) ==> final(self).fetched == old(self).fetched,
            r is Done ==> final(self).phase == Phase::Finished,
            r is Fail ==> final(self).phase == Phase::Failed(r->Fail_0),
    {
        match self.phase {
            Phase::Connecting => match event {
                Event::Connected { now } => {
                    if !self.state.has_screencopy {
                        self.fail(WaylandError::NoScreenshotManager)
                    } else if !self.state.has_shm {
                        self.fail(WaylandError::NoShmBind)
                    } else {
                        self.phase = Phase::Discovering { since: now };
                        self.discover(now, now)
                    }
                },
                _ => self.fail(WaylandError::BrokenState),
            },
            Phase::Discovering { since } => match event {
                Event::Progress { now } => self.discover(since, now),
                _ => self.fail(WaylandError::BrokenState),
            },
            Phase::Requested { since } => match event {
                Event::Progress { now } => self.create_shared_memory(since, now),
                _ => self.fail(WaylandError::BrokenState),
            },
            Phase::Allocating => match event {
                Event::Allocated { size, now } => self.on_allocated(size, now),
                _ => self.fail(WaylandError::BrokenState),
            },
            Phase::CopyIssued { since } => match event {
                Event::Progress { now } => self.await_screenshot(since, now),
                _ => self.fail(WaylandError::BrokenState),
            },
            Phase::Reading => match event {
                Event::BytesRead { data } => self.on_bytes(data),
                _ => self.fail(WaylandError::BrokenState),
            },
            Phase::Draining => match event {
                Event::Released { now } => self.on_released(now),
                _ => self.fail(WaylandError::BrokenState),
            },
            Phase::Finished => Action::Done,
            Phase::Failed(e) => Action::Fail(e),
        }
    }

    /// The screenshots taken, in catalog order.
    pub fn into_screenshots(self) -> (r: Vec<(OutputInfo, Image)>)
        ensures
            r@ == self.screenshots@,
    {
        self.screenshots
    }
}

/// A finished run holds one screenshot for each output of the catalog, in
/// catalog order: the i-th pairs the descriptor of the i-th output with an
/// image of the size announced for that output's frame. So where every frame
/// was announced at the size of its output's mode, every image has the size
/// of its output's mode.
pub proof fn lemma_finished_run_covers_catalog(m: &WaylandScreenshotManager)
    requires
        m.wf(),
        m.phase == Phase::Finished,
    ensures
        m.screenshots@.len() == m.fetched@.len(),
        forall|i: int|
            0 <= i < m.fetched@.len() ==> #[trigger] m.screenshots@[i].0 == descriptor(
                m.fetched@[i],
            ),
        forall|i: int|
            0 <= i < m.fetched@.len() ==> #[trigger] m.screenshots@[i].1.width == m.frames@[i].width
                && m.screenshots@[i].1.height == m.frames@[i].height,
        forall|i: int|
            0 <= i < m.fetched@.len() && m.frames@[i].width as int == m.fetched@[i].mode.width
                && m.frames@[i].height as int == m.fetched@[i].mode.height ==> {
                &&& #[trigger] m.screenshots@[i].1.width as int == m.fetched@[i].mode.width
                &&& m.screenshots@[i].1.height as int == m.fetched@[i].mode.height
            },
{
    assert forall|i: int| 0 <= i < m.fetched@.len() implies #[trigger] m.screenshots@[i].0
        == descriptor(m.fetched@[i]) by {
        assert(m.catalog@[i] == descriptor(m.fetched@[i]));
    }
}

} // verus!

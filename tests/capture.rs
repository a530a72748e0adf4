use flakeshot::error::WaylandError;
use flakeshot::frame::{FrameEvent, ShmRequest};
use flakeshot::manager::{Action, Event, Phase, WaylandScreenshotManager};
use flakeshot::output::{MonitorInfo, OutputEvent};
use flakeshot::pixel::{PixelFormat, ARGB8888};
use flakeshot::state::WaylandScreenshotState;

const BUDGET: u64 = 1000;

fn bound_state(shm: bool, screencopy: bool) -> WaylandScreenshotState {
    let mut state = WaylandScreenshotState::new();
    state.on_global(&String::from("wl_output"));
    if shm {
        state.on_global(&String::from("wl_shm"));
    }
    if screencopy {
        state.on_global(&String::from("zwlr_screencopy_manager_v1"));
    }
    state
}

fn announce(state: &mut WaylandScreenshotState, id: u32, name: &str, x: i32, w: i32, h: i32) {
    state.on_output_event(id, OutputEvent::Name { name: String::from(name) });
    state.on_output_event(
        id,
        OutputEvent::Description { description: format!("{} monitor", name) },
    );
    state.on_output_event(
        id,
        OutputEvent::Geometry {
            x,
            y: 0,
            physical_width: 520,
            physical_height: 290,
            subpixel: 0,
            make: String::from("make"),
            model: String::from("model"),
            transform: 0,
        },
    );
    state.on_output_event(id, OutputEvent::Mode { flags: 3, width: w, height: h, refresh: 60000 });
}

/// Plays a compositor that answers every frame request with a buffer of the
/// output's size and a successful copy, and returns the run's last action.
fn run_all(m: &mut WaylandScreenshotManager, sizes: &[(u32, u32)]) -> Action {
    let mut now: u64 = 10;
    let mut action = m.step(Event::Progress { now });
    let mut captured = 0;
    loop {
        now += 1;
        action = match action {
            Action::Capture { .. } => {
                let (w, h) = sizes[captured];
                assert!(m.state.current_frame.is_none());
                assert!(!m.state.screenshot_ready);
                m.state.on_frame_event(FrameEvent::Buffer {
                    format: ARGB8888,
                    width: w,
                    height: h,
                    stride: w * 4,
                });
                m.state.on_frame_event(FrameEvent::BufferDone);
                m.step(Event::Progress { now })
            }
            Action::Allocate(req) => m.step(Event::Allocated { size: req.size, now }),
            Action::Copy => {
                m.state.on_frame_event(FrameEvent::Ready);
                m.step(Event::Progress { now })
            }
            Action::Read { len } => {
                let data: Vec<u8> = (0..len).map(|i| (i % 251) as u8).collect();
                m.step(Event::BytesRead { data })
            }
            Action::Release => {
                captured += 1;
                m.step(Event::Released { now })
            }
            other => return other,
        };
    }
}

#[test]
fn two_outputs_end_to_end() {
    let mut state = bound_state(true, true);
    state.on_global(&String::from("wl_output"));
    let mut m = WaylandScreenshotManager::new(state, BUDGET);
    assert_eq!(m.step(Event::Connected { now: 0 }), Action::Dispatch { wait_ms: BUDGET });
    announce(&mut m.state, 40, "OUT-1", 0, 1920, 1080);
    announce(&mut m.state, 41, "OUT-2", 1920, 1920, 1080);
    m.state.on_output_event(40, OutputEvent::Done);
    m.state.on_output_event(41, OutputEvent::Done);
    let last = run_all(&mut m, &[(1920, 1080), (1920, 1080)]);
    assert_eq!(last, Action::Done);
    assert_eq!(m.phase, Phase::Finished);
    let shots = m.into_screenshots();
    assert_eq!(shots.len(), 2);
    let (first, second) = (&shots[0], &shots[1]);
    assert_eq!(first.0.id, 40);
    assert_eq!(second.0.id, 41);
    match (&first.0.monitor_info, &second.0.monitor_info) {
        (MonitorInfo::Wayland { name: a, .. }, MonitorInfo::Wayland { name: b, .. }) => {
            assert_eq!(a, "OUT-1");
            assert_eq!(b, "OUT-2");
        }
        _ => panic!("expected Wayland monitors"),
    }
    for (info, img) in &shots {
        assert_eq!((info.width, info.height), (1920, 1080));
        assert_eq!((img.width, img.height), (1920, 1080));
        assert_eq!(img.data.len(), 1920 * 1080 * 4);
    }
    assert_eq!((first.0.x, first.0.y), (0, 0));
    assert_eq!((second.0.x, second.0.y), (1920, 0));
    // the two outputs do not overlap
    assert!(first.0.x as i32 + first.0.width as i32 <= second.0.x as i32);
}

#[test]
fn every_output_is_captured_in_catalog_order() {
    let mut m = WaylandScreenshotManager::new(bound_state(true, true), BUDGET);
    assert!(matches!(m.step(Event::Connected { now: 0 }), Action::Dispatch { .. }));
    let sizes = [(8u32, 2u32), (3, 5), (6, 6)];
    for (k, (w, h)) in sizes.iter().enumerate() {
        announce(&mut m.state, 100 + k as u32, "OUT", k as i32 * 10, *w as i32, *h as i32);
    }
    m.state.on_output_event(100, OutputEvent::Done);
    let mut ids = vec![];
    let mut now = 5;
    let mut action = m.step(Event::Progress { now });
    let mut captured = 0;
    while action != Action::Done {
        now += 1;
        action = match action {
            Action::Capture { output_id } => {
                ids.push(output_id);
                let (w, h) = sizes[captured];
                m.state.on_frame_event(FrameEvent::Buffer { format: 0, width: w, height: h, stride: w * 4 });
                m.step(Event::Progress { now })
            }
            Action::Allocate(req) => m.step(Event::Allocated { size: req.size, now }),
            Action::Copy => {
                m.state.on_frame_event(FrameEvent::Ready);
                m.step(Event::Progress { now })
            }
            Action::Read { len } => m.step(Event::BytesRead { data: vec![7; len as usize] }),
            Action::Release => {
                captured += 1;
                m.step(Event::Released { now })
            }
            other => panic!("unexpected {:?}", other),
        };
    }
    assert_eq!(ids, vec![100, 101, 102]);
    let shots = m.into_screenshots();
    assert_eq!(shots.len(), 3);
    for (k, (info, img)) in shots.iter().enumerate() {
        assert_eq!(info.id, 100 + k as u32);
        assert_eq!((img.width, img.height), sizes[k]);
        assert_eq!((info.width as u32, info.height as u32), sizes[k]);
    }
}

#[test]
fn missing_buffer_announcement_times_out() {
    let mut m = WaylandScreenshotManager::new(bound_state(true, true), 100);
    assert_eq!(m.step(Event::Connected { now: 1000 }), Action::Dispatch { wait_ms: 100 });
    announce(&mut m.state, 1, "OUT-1", 0, 4, 4);
    m.state.on_output_event(1, OutputEvent::Done);
    assert_eq!(m.step(Event::Progress { now: 1010 }), Action::Capture { output_id: 1 });
    assert_eq!(m.step(Event::Progress { now: 1010 }), Action::Dispatch { wait_ms: 100 });
    assert_eq!(m.step(Event::Progress { now: 1070 }), Action::Dispatch { wait_ms: 40 });
    assert_eq!(m.step(Event::Progress { now: 1109 }), Action::Dispatch { wait_ms: 1 });
    assert_eq!(
        m.step(Event::Progress { now: 1110 }),
        Action::Fail(WaylandError::EventQueueTimeout)
    );
    assert_eq!(m.phase, Phase::Failed(WaylandError::EventQueueTimeout));
    assert_eq!(
        m.step(Event::Progress { now: 1200 }),
        Action::Fail(WaylandError::EventQueueTimeout)
    );
}

#[test]
fn outputs_never_announced_time_out() {
    let mut m = WaylandScreenshotManager::new(bound_state(true, true), 50);
    assert_eq!(m.step(Event::Connected { now: 0 }), Action::Dispatch { wait_ms: 50 });
    assert_eq!(m.step(Event::Progress { now: 49 }), Action::Dispatch { wait_ms: 1 });
    assert_eq!(m.step(Event::Progress { now: 75 }), Action::Fail(WaylandError::EventQueueTimeout));
}

#[test]
fn copy_that_never_completes_times_out() {
    let mut m = WaylandScreenshotManager::new(bound_state(true, true), 30);
    m.step(Event::Connected { now: 0 });
    announce(&mut m.state, 9, "OUT-1", 0, 2, 2);
    m.state.on_output_event(9, OutputEvent::Done);
    assert_eq!(m.step(Event::Progress { now: 1 }), Action::Capture { output_id: 9 });
    m.state.on_frame_event(FrameEvent::Buffer { format: 0, width: 2, height: 2, stride: 8 });
    assert!(matches!(m.step(Event::Progress { now: 2 }), Action::Allocate(_)));
    assert_eq!(m.step(Event::Allocated { size: 16, now: 3 }), Action::Copy);
    assert_eq!(m.step(Event::Progress { now: 20 }), Action::Dispatch { wait_ms: 13 });
    assert_eq!(m.step(Event::Progress { now: 33 }), Action::Fail(WaylandError::EventQueueTimeout));
}

#[test]
fn buffer_of_the_wrong_size_is_rejected_before_the_copy() {
    let mut m = WaylandScreenshotManager::new(bound_state(true, true), BUDGET);
    m.step(Event::Connected { now: 0 });
    announce(&mut m.state, 2, "OUT-1", 0, 10, 3);
    m.state.on_output_event(2, OutputEvent::Done);
    assert_eq!(m.step(Event::Progress { now: 1 }), Action::Capture { output_id: 2 });
    m.state.on_frame_event(FrameEvent::Buffer { format: 0, width: 10, height: 3, stride: 48 });
    assert_eq!(
        m.step(Event::Progress { now: 2 }),
        Action::Allocate(ShmRequest {
            width: 10,
            height: 3,
            stride: 48,
            format: PixelFormat::Argb8888,
            size: 144,
        })
    );
    assert_eq!(
        m.step(Event::Allocated { size: 120, now: 3 }),
        Action::Fail(WaylandError::SizeMismatch { expected: 144, actual: 120 })
    );
}

#[test]
fn state_is_drained_between_two_captures() {
    let mut m = WaylandScreenshotManager::new(bound_state(true, true), BUDGET);
    m.step(Event::Connected { now: 0 });
    announce(&mut m.state, 1, "A", 0, 1, 1);
    announce(&mut m.state, 2, "B", 1, 1, 1);
    m.state.on_output_event(2, OutputEvent::Done);
    assert_eq!(m.step(Event::Progress { now: 1 }), Action::Capture { output_id: 1 });
    m.state.on_frame_event(FrameEvent::Buffer { format: 0, width: 1, height: 1, stride: 4 });
    assert!(matches!(m.step(Event::Progress { now: 2 }), Action::Allocate(_)));
    assert_eq!(m.step(Event::Allocated { size: 4, now: 3 }), Action::Copy);
    m.state.on_frame_event(FrameEvent::Ready);
    assert_eq!(m.step(Event::Progress { now: 4 }), Action::Read { len: 4 });
    assert_eq!(m.step(Event::BytesRead { data: vec![1, 2, 3, 4] }), Action::Release);
    assert!(m.state.current_frame.is_some());
    assert!(m.state.screenshot_ready);
    assert_eq!(m.step(Event::Released { now: 5 }), Action::Capture { output_id: 2 });
    assert_eq!(m.state.current_frame, None);
    assert!(!m.state.screenshot_ready);
    // the stale frame of the first output is not taken for the second
    assert_eq!(m.step(Event::Progress { now: 6 }), Action::Dispatch { wait_ms: BUDGET - 1 });
}

#[test]
fn compositor_failure_ends_the_run() {
    let mut m = WaylandScreenshotManager::new(bound_state(true, true), BUDGET);
    m.step(Event::Connected { now: 0 });
    announce(&mut m.state, 1, "A", 0, 1, 1);
    m.state.on_output_event(1, OutputEvent::Done);
    assert_eq!(m.step(Event::Progress { now: 1 }), Action::Capture { output_id: 1 });
    m.state.on_frame_event(FrameEvent::Failed);
    assert_eq!(m.step(Event::Progress { now: 2 }), Action::Fail(WaylandError::CaptureFailed));
}

#[test]
fn missing_factories_are_fatal() {
    let mut no_copy = WaylandScreenshotManager::new(bound_state(true, false), BUDGET);
    assert_eq!(
        no_copy.step(Event::Connected { now: 0 }),
        Action::Fail(WaylandError::NoScreenshotManager)
    );
    let mut no_shm = WaylandScreenshotManager::new(bound_state(false, true), BUDGET);
    assert_eq!(no_shm.step(Event::Connected { now: 0 }), Action::Fail(WaylandError::NoShmBind));
}

#[test]
fn unsupported_frame_format_is_refused_before_allocation() {
    let mut m = WaylandScreenshotManager::new(bound_state(true, true), BUDGET);
    m.step(Event::Connected { now: 0 });
    announce(&mut m.state, 1, "A", 0, 1, 1);
    m.state.on_output_event(1, OutputEvent::Done);
    m.step(Event::Progress { now: 1 });
    m.state.on_frame_event(FrameEvent::Buffer { format: 0x36314752, width: 1, height: 1, stride: 2 });
    assert_eq!(
        m.step(Event::Progress { now: 2 }),
        Action::Fail(WaylandError::UnsupportedFormat(0x36314752))
    );
    assert_eq!(m.frame, None);
}

#[test]
fn failure_reported_during_allocation_stops_the_copy() {
    let mut m = WaylandScreenshotManager::new(bound_state(true, true), BUDGET);
    m.step(Event::Connected { now: 0 });
    announce(&mut m.state, 1, "A", 0, 1, 1);
    m.state.on_output_event(1, OutputEvent::Done);
    m.step(Event::Progress { now: 1 });
    m.state.on_frame_event(FrameEvent::Buffer { format: 0, width: 1, height: 1, stride: 4 });
    assert!(matches!(m.step(Event::Progress { now: 2 }), Action::Allocate(_)));
    m.state.on_frame_event(FrameEvent::Failed);
    assert_eq!(
        m.step(Event::Allocated { size: 4, now: 3 }),
        Action::Fail(WaylandError::CaptureFailed)
    );
}

#[test]
fn unexpected_event_is_a_broken_state() {
    let mut m = WaylandScreenshotManager::new(bound_state(true, true), BUDGET);
    assert_eq!(m.step(Event::Progress { now: 0 }), Action::Fail(WaylandError::BrokenState));
}

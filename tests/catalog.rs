use flakeshot::frame::{FrameEvent, FrameMeta, ShmRequest};
use flakeshot::output::{
    Geometry, ModeFlags, MonitorInfo, OutputEvent, OutputInfo, OutputMode, Subpixel, Transform,
    WaylandOutputInfo, WireEnum,
};
use flakeshot::pixel::PixelFormat;
use flakeshot::state::{Capability, WaylandScreenshotState};

fn geometry_event(x: i32, y: i32, subpixel: u32, transform: u32) -> OutputEvent {
    OutputEvent::Geometry {
        x,
        y,
        physical_width: 600,
        physical_height: 340,
        subpixel,
        make: String::from("ACME"),
        model: String::from("Panel"),
        transform,
    }
}

#[test]
fn registry_binds_outputs_and_each_factory_once() {
    let mut state = WaylandScreenshotState::new();
    assert_eq!(state.on_global(&String::from("wl_output")), Some(Capability::Output));
    assert_eq!(state.on_global(&String::from("wl_output")), Some(Capability::Output));
    assert_eq!(state.on_global(&String::from("wl_shm")), Some(Capability::SharedMemory));
    assert_eq!(state.on_global(&String::from("wl_shm")), None);
    assert_eq!(
        state.on_global(&String::from("zwlr_screencopy_manager_v1")),
        Some(Capability::FrameCapture)
    );
    assert_eq!(state.on_global(&String::from("zwlr_screencopy_manager_v1")), None);
    assert_eq!(state.on_global(&String::from("wl_seat")), None);
    assert!(state.has_shm && state.has_screencopy);
}

#[test]
fn first_event_of_an_unseen_output_creates_its_record() {
    let mut state = WaylandScreenshotState::new();
    state.on_output_event(7, OutputEvent::Name { name: String::from("DP-1") });
    assert_eq!(state.outputs.len(), 1);
    assert_eq!(state.outputs[0].id, 7);
    assert_eq!(state.outputs[0].name, "DP-1");
    assert_eq!(state.outputs[0].description, "");
    assert_eq!(state.outputs[0].scale, 0);
    assert!(!state.outputs_fetched);
}

#[test]
fn events_for_a_known_output_change_that_record_only() {
    let mut state = WaylandScreenshotState::new();
    state.on_output_event(3, OutputEvent::Name { name: String::from("A") });
    state.on_output_event(5, OutputEvent::Name { name: String::from("B") });
    state.on_output_event(3, OutputEvent::Scale { factor: 2 });
    state.on_output_event(
        5,
        OutputEvent::Mode { flags: 3, width: 2560, height: 1440, refresh: 144000 },
    );
    state.on_output_event(3, OutputEvent::Description { description: String::from("left") });
    assert_eq!(state.outputs.len(), 2);
    assert_eq!((state.outputs[0].id, state.outputs[0].scale), (3, 2));
    assert_eq!(state.outputs[0].description, "left");
    assert_eq!(state.outputs[0].mode, OutputMode::default());
    assert_eq!(state.outputs[1].id, 5);
    assert_eq!(state.outputs[1].scale, 0);
    assert_eq!(state.outputs[1].mode.width, 2560);
    assert_eq!(state.outputs[1].mode.height, 1440);
    assert_eq!(state.outputs[1].mode.refresh, 144000);
    assert_eq!(
        state.outputs[1].mode.flags,
        WireEnum::Known(ModeFlags { current: true, preferred: true })
    );
}

#[test]
fn done_marks_outputs_fetched_and_stays() {
    let mut state = WaylandScreenshotState::new();
    state.on_output_event(1, OutputEvent::Done);
    assert!(state.outputs_fetched);
    state.on_output_event(2, OutputEvent::Scale { factor: 1 });
    assert!(state.outputs_fetched);
    assert_eq!(state.outputs.len(), 2);
}

#[test]
fn geometry_event_sets_geometry() {
    let mut state = WaylandScreenshotState::new();
    state.on_output_event(4, geometry_event(1920, -20, 2, 1));
    let g = &state.outputs[0].geometry;
    assert_eq!((g.x, g.y), (1920, -20));
    assert_eq!((g.physical_width, g.physical_height), (600, 340));
    assert_eq!(g.make, "ACME");
    assert_eq!(g.model, "Panel");
    assert_eq!(g.subpixel, WireEnum::Known(Subpixel::HorizontalRgb));
    assert_eq!(g.transform, WireEnum::Known(Transform::Rotated90));
}

#[test]
fn unknown_wire_values_stay_unrecognized() {
    let g = Geometry::from_wayland_geometry(geometry_event(0, 0, 9, 12)).unwrap();
    assert_eq!(g.subpixel, WireEnum::Unrecognized(9));
    assert_eq!(g.transform, WireEnum::Unrecognized(12));
    let m = OutputMode::from_wayland_event(OutputEvent::Mode {
        flags: 4,
        width: 1,
        height: 1,
        refresh: 1,
    })
    .unwrap();
    assert_eq!(m.flags, WireEnum::Unrecognized(4));
    assert_eq!(ModeFlags::from_wire(1), WireEnum::Known(ModeFlags { current: true, preferred: false }));
    assert_eq!(ModeFlags::from_wire(2), WireEnum::Known(ModeFlags { current: false, preferred: true }));
    assert_eq!(Subpixel::from_wire(1), WireEnum::Known(Subpixel::Absent));
    assert_eq!(Transform::from_wire(7), WireEnum::Known(Transform::Flipped270));
}

#[test]
fn conversions_of_other_events_give_none() {
    assert!(Geometry::from_wayland_geometry(OutputEvent::Done).is_none());
    assert!(OutputMode::from_wayland_event(OutputEvent::Scale { factor: 1 }).is_none());
    assert!(FrameMeta::from_wayland_event(&FrameEvent::Ready).is_none());
}

#[test]
fn fresh_record_is_blank() {
    let rec = WaylandOutputInfo::from_wl_output(12);
    assert_eq!(rec.id, 12);
    assert_eq!((rec.geometry.x, rec.geometry.y), (0, 0));
    assert_eq!(rec.geometry.subpixel, WireEnum::Known(Subpixel::Unknown));
    assert_eq!(rec.geometry.transform, WireEnum::Known(Transform::Normal));
    assert_eq!(rec.mode.flags, WireEnum::Known(ModeFlags { current: false, preferred: false }));
}

#[test]
fn descriptor_takes_mode_size_and_geometry_position() {
    let mut rec = WaylandOutputInfo::from_wl_output(21);
    rec.name = String::from("HDMI-A-1");
    rec.description = String::from("Big screen");
    rec.mode = OutputMode::from_wayland_event(OutputEvent::Mode {
        flags: 1,
        width: 3840,
        height: 2160,
        refresh: 60000,
    })
    .unwrap();
    rec.geometry = Geometry::from_wayland_geometry(geometry_event(-3840, 100, 0, 0)).unwrap();
    let info = OutputInfo::from(&rec);
    assert_eq!(info.id, 21);
    assert_eq!((info.width, info.height), (3840, 2160));
    assert_eq!((info.x, info.y), (-3840, 100));
    match info.monitor_info {
        MonitorInfo::Wayland { name, description } => {
            assert_eq!(name, "HDMI-A-1");
            assert_eq!(description, "Big screen");
        }
        MonitorInfo::X11 { .. } => panic!("expected a Wayland monitor"),
    }
}

#[test]
fn frame_events_fill_the_frame_slot() {
    let mut state = WaylandScreenshotState::new();
    state.on_frame_event(FrameEvent::Buffer { format: 1, width: 4, height: 3, stride: 20 });
    assert_eq!(
        state.current_frame,
        Some(FrameMeta { format: PixelFormat::Xrgb8888, width: 4, height: 3, stride: 20 })
    );
    state.on_frame_event(FrameEvent::BufferDone);
    assert!(!state.screenshot_ready);
    state.on_frame_event(FrameEvent::Ready);
    assert!(state.screenshot_ready);
    state.on_frame_event(FrameEvent::Failed);
    assert!(state.capture_failed);
    state.next_screen();
    assert_eq!(state.current_frame, None);
    assert!(!state.screenshot_ready);
}

#[test]
fn shm_formats_are_recorded() {
    let mut state = WaylandScreenshotState::new();
    state.on_shm_format(0);
    state.on_shm_format(0x34324742);
    state.on_shm_format(0x38424752);
    assert_eq!(
        state.shm_formats,
        vec![PixelFormat::Argb8888, PixelFormat::Bgr888, PixelFormat::Other(0x38424752)]
    );
}

#[test]
fn shared_buffer_size_is_height_times_stride() {
    let meta = FrameMeta { format: PixelFormat::Argb8888, width: 1920, height: 1080, stride: 7936 };
    let req = ShmRequest::for_frame(&meta);
    assert_eq!(req.size, 1080 * 7936);
    assert_eq!((req.width, req.height, req.stride), (1920, 1080, 7936));
    assert_eq!(req.format, PixelFormat::Argb8888);
    let big = FrameMeta { format: PixelFormat::Argb8888, width: 1, height: u32::MAX, stride: u32::MAX };
    assert_eq!(ShmRequest::for_frame(&big).size, u32::MAX as u64 * u32::MAX as u64);
}

use vstd::prelude::*;

verus! {

/// A protocol enum value as it came over the wire: a value that this library
/// knows, or the raw integer of one that it does not.
#[derive(Debug, Clone, Copy, PartialEq, Eq, Structural)]
pub enum WireEnum<T> {
    Known(T),
    Unrecognized(u32),
}

/// Subpixel layout of an output (`wl_output.subpixel`).
#[derive(Debug, Clone, Copy, PartialEq, Eq, Structural)]
pub enum Subpixel {
    Unknown,
    Absent,
    HorizontalRgb,
    HorizontalBgr,
    VerticalRgb,
    VerticalBgr,
}

/// The subpixel layout that a wire value stands for.
pub open spec fn subpixel_of_wire(raw: u32) -> WireEnum<Subpixel> {
    if raw == 0 {
        WireEnum::Known(Subpixel::Unknown)
    } else if raw == 1 {
        WireEnum::Known(Subpixel::Absent)
    } else if raw == 2 {
        WireEnum::Known(Subpixel::HorizontalRgb)
    } else if raw == 3 {
        WireEnum::Known(Subpixel::HorizontalBgr)
    } else if raw == 4 {
        WireEnum::Known(Subpixel::VerticalRgb)
    } else if raw == 5 {
        WireEnum::Known(Subpixel::VerticalBgr)
    } else {
        WireEnum::Unrecognized(raw)
    }
}

impl Subpixel {
    pub fn from_wire(raw: u32) -> (r: WireEnum<Subpixel>)
        ensures
            r == subpixel_of_wire(raw),
    {
        if raw == 0 {
            WireEnum::Known(Subpixel::Unknown)
        } else if raw == 1 {
            WireEnum::Known(Subpixel::Absent)
        } else if raw == 2 {
            WireEnum::Known(Subpixel::HorizontalRgb)
        } else if raw == 3 {
            WireEnum::Known(Subpixel::HorizontalBgr)
        } else if raw == 4 {
            WireEnum::Known(Subpixel::VerticalRgb)
        } else if raw == 5 {
            WireEnum::Known(Subpixel::VerticalBgr)
        } else {
            WireEnum::Unrecognized(raw)
        }
    }
}

/// Transform of an output's content (`wl_output.transform`).
#[derive(Debug, Clone, Copy, PartialEq, Eq, Structural)]
pub enum Transform {
    Normal,
    Rotated90,
    Rotated180,
    Rotated270,
    Flipped,
    Flipped90,
    Flipped180,
    Flipped270,
}

/// The transform that a wire value stands for.
pub open spec fn transform_of_wire(raw: u32) -> WireEnum<Transform> {
    if raw == 0 {
        WireEnum::Known(Transform::Normal)
    } else if raw == 1 {
        WireEnum::Known(Transform::Rotated90)
    } else if raw == 2 {
        WireEnum::Known(Transform::Rotated180)
    } else if raw == 3 {
        WireEnum::Known(Transform::Rotated270)
    } else if raw == 4 {
        WireEnum::Known(Transform::Flipped)
    } else if raw == 5 {
        WireEnum::Known(Transform::Flipped90)
    } else if raw == 6 {
        WireEnum::Known(Transform::Flipped180)
    } else if raw == 7 {
        WireEnum::Known(Transform::Flipped270)
    } else {
        WireEnum::Unrecognized(raw)
    }
}

impl Transform {
    pub fn from_wire(raw: u32) -> (r: WireEnum<Transform>)
        ensures
            r == transform_of_wire(raw),
    {
        if raw == 0 {
            WireEnum::Known(Transform::Normal)
        } else if raw == 1 {
            WireEnum::Known(Transform::Rotated90)
        } else if raw == 2 {
            WireEnum::Known(Transform::Rotated180)
        } else if raw == 3 {
            WireEnum::Known(Transform::Rotated270)
        } else if raw == 4 {
            WireEnum::Known(Transform::Flipped)
        } else if raw == 5 {
            WireEnum::Known(Transform::Flipped90)
        } else if raw == 6 {
            WireEnum::Known(Transform::Flipped180)
        } else if raw == 7 {
            WireEnum::Known(Transform::Flipped270)
        } else {
            WireEnum::Unrecognized(raw)
        }
    }
}

/// The flags of an output mode (`wl_output.mode`, a bitfield of `current` = 1
/// and `preferred` = 2).
#[derive(Debug, Clone, Copy, PartialEq, Eq, Structural)]
pub struct ModeFlags {
    pub current: bool,
    pub preferred: bool,
}

/// The mode flags that a wire value stands for; a value with any other bit set
/// is not recognized.
pub open spec fn mode_flags_of_wire(raw: u32) -> WireEnum<ModeFlags> {
    if raw <= 3 {
        WireEnum::Known(ModeFlags { current: raw % 2 == 1, preferred: raw >= 2 })
    } else {
        WireEnum::Unrecognized(raw)
    }
}

impl ModeFlags {
    pub fn from_wire(raw: u32) -> (r: WireEnum<ModeFlags>)
        ensures
            r == mode_flags_of_wire(raw),
    {
        if raw <= 3 {
            WireEnum::Known(ModeFlags { current: raw % 2 == 1, preferred: raw >= 2 })
        } else {
            WireEnum::Unrecognized(raw)
        }
    }
}

/// An event about one output, with its enum values still as wire integers.
#[derive(Debug)]
pub enum OutputEvent {
    Geometry {
        x: i32,
        y: i32,
        physical_width: i32,
        physical_height: i32,
        subpixel: u32,
        make: String,
        model: String,
        transform: u32,
    },
    Mode { flags: u32, width: i32, height: i32, refresh: i32 },
    Done,
    Scale { factor: i32 },
    Name { name: String },
    Description { description: String },
}

/// Physical metadata of an output.
#[derive(Debug)]
pub struct Geometry {
    pub x: i32,
    pub y: i32,
    pub physical_width: i32,
    pub physical_height: i32,
    pub model: String,
    pub make: String,
    pub subpixel: WireEnum<Subpixel>,
    pub transform: WireEnum<Transform>,
}

/// What a `Geometry` holds, with its strings as character sequences.
pub struct GeometryView {
    pub x: i32,
    pub y: i32,
    pub physical_width: i32,
    pub physical_height: i32,
    pub model: Seq<char>,
    pub make: Seq<char>,
    pub subpixel: WireEnum<Subpixel>,
    pub transform: WireEnum<Transform>,
}

impl View for Geometry {
    type V = GeometryView;

    open spec fn view(&self) -> GeometryView {
        GeometryView {
            x: self.x,
            y: self.y,
            physical_width: self.physical_width,
            physical_height: self.physical_height,
            model: self.model@,
            make: self.make@,
            subpixel: self.subpixel,
            transform: self.transform,
        }
    }
}

/// The geometry of an output that has not announced one: every field at the
/// value of wire zero.
pub open spec fn blank_geometry() -> GeometryView {
    GeometryView {
        x: 0,
        y: 0,
        physical_width: 0,
        physical_height: 0,
        model: Seq::empty(),
        make: Seq::empty(),
        subpixel: subpixel_of_wire(0),
        transform: transform_of_wire(0),
    }
}

impl Geometry {
    /// The geometry that a geometry event announces.
    pub open spec fn announced(event: OutputEvent) -> Option<Geometry> {
        match event {
            OutputEvent::Geometry {
                x,
                y,
                physical_width,
                physical_height,
                subpixel,
                make,
                model,
                transform,
            } => Some(
                Geometry {
                    x,
                    y,
                    physical_width,
                    physical_height,
                    model,
                    make,
                    subpixel: subpixel_of_wire(subpixel),
                    transform: transform_of_wire(transform),
                },
            ),
            _ => None,
        }
    }

    /// The geometry that `event` announces, or `None` if it is no geometry event.
    pub fn from_wayland_geometry(event: OutputEvent) -> (r: Option<Geometry>)
        ensures
            r == Geometry::announced(event),
    {
        match event {
            OutputEvent::Geometry {
                x,
                y,
                physical_width,
                physical_height,
                subpixel,
                make,
                model,
                transform,
            } => Some(
                Geometry {
                    x,
                    y,
                    physical_width,
                    physical_height,
                    model,
                    make,
                    subpixel: Subpixel::from_wire(subpixel),
                    transform: Transform::from_wire(transform),
                },
            ),
            _ => None,
        }
    }
}

impl Default for Geometry {
    fn default() -> (r: Geometry)
        ensures
            r@ == blank_geometry(),
    {
        Geometry {
            x: 0,
            y: 0,
            physical_width: 0,
            physical_height: 0,
            model: String::new(),
            make: String::new(),
            subpixel: WireEnum::Known(Subpixel::Unknown),
            transform: WireEnum::Known(Transform::Normal),
        }
    }
}

/// The operating mode of an output.
#[derive(Debug, Clone, Copy, PartialEq, Eq, Structural)]
pub struct OutputMode {
    pub height: i32,
    pub width: i32,
    pub refresh: i32,
    pub flags: WireEnum<ModeFlags>,
}

impl OutputMode {
    /// The mode of an output that has not announced one.
    pub open spec fn blank() -> OutputMode {
        OutputMode { height: 0, width: 0, refresh: 0, flags: mode_flags_of_wire(0) }
    }

    /// The mode that a mode event announces.
    pub open spec fn announced(event: OutputEvent) -> Option<OutputMode> {
        match event {
            OutputEvent::Mode { flags, width, height, refresh } => Some(
                OutputMode { height, width, refresh, flags: mode_flags_of_wire(flags) },
            ),
            _ => None,
        }
    }

    /// The mode that `event` announces, or `None` if it is no mode event.
    pub fn from_wayland_event(event: OutputEvent) -> (r: Option<OutputMode>)
        ensures
            r == OutputMode::announced(event),
    {
        match event {
            OutputEvent::Mode { flags, width, height, refresh } => Some(
                OutputMode { height, width, refresh, flags: ModeFlags::from_wire(flags) },
            ),
            _ => None,
        }
    }
}

impl Default for OutputMode {
    fn default() -> (r: OutputMode)
        ensures
            r == OutputMode::blank(),
    {
        OutputMode {
            height: 0,
            width: 0,
            refresh: 0,
            flags: WireEnum::Known(ModeFlags { current: false, preferred: false }),
        }
    }
}

/// One output (monitor) as the compositor announced it.
///
/// `id` is the protocol id of the output object, stable for the session.
#[derive(Debug)]
pub struct WaylandOutputInfo {
    pub id: u32,
    pub name: String,
    pub description: String,
    pub scale: i32,
    pub geometry: Geometry,
    pub mode: OutputMode,
}

/// What a `WaylandOutputInfo` holds, with its strings as character sequences.
pub struct OutputView {
    pub id: u32,
    pub name: Seq<char>,
    pub description: Seq<char>,
    pub scale: i32,
    pub geometry: GeometryView,
    pub mode: OutputMode,
}

impl View for WaylandOutputInfo {
    type V = OutputView;

    open spec fn view(&self) -> OutputView {
        OutputView {
            id: self.id,
            name: self.name@,
            description: self.description@,
            scale: self.scale,
            geometry: self.geometry@,
            mode: self.mode,
        }
    }
}

/// The record of output `id` of which nothing has been announced yet.
pub open spec fn fresh_output(id: u32) -> OutputView {
    OutputView {
        id,
        name: Seq::empty(),
        description: Seq::empty(),
        scale: 0,
        geometry: blank_geometry(),
        mode: OutputMode::blank(),
    }
}

impl WaylandOutputInfo {

    /// A new record for the output with protocol id `id`.
    pub fn from_wl_output(id: u32) -> (r: WaylandOutputInfo)
        ensures
            r@ == fresh_output(id),
    {
        WaylandOutputInfo {
            id,
            scale: 0,
            description: String::new(),
            name: String::new(),
            geometry: Geometry::default(),
            mode: OutputMode::default(),
        }
    }
}

/// A length in pixels.
pub type Pixel = u16;

/// Additional values that depend on the display server.
#[derive(Debug)]
pub enum MonitorInfo {
    X11 { name: String },
    Wayland { name: String, description: String },
}

/// General information about an output, as handed to the user interface.
#[derive(Debug)]
pub struct OutputInfo {
    /// The width of the output.
    pub width: Pixel,
    /// The height of the output.
    pub height: Pixel,
    /// The x-value of the top-left corner of the output.
    pub x: i16,
    /// The y-value of the top-left corner of the output.
    pub y: i16,
    /// The id of the output.
    pub id: u32,
    /// Additional information about the monitor.
    pub monitor_info: MonitorInfo,
}

impl MonitorInfo {
    /// A copy of the value.
    pub fn duplicate(&self) -> (r: MonitorInfo)
        ensures
            r == *self,
    {
        match self {
            MonitorInfo::X11 { name } => MonitorInfo::X11 { name: name.clone() },
            MonitorInfo::Wayland { name, description } => MonitorInfo::Wayland {
                name: name.clone(),
                description: description.clone(),
            },
        }
    }
}

impl OutputInfo {
    /// A copy of the value.
    pub fn duplicate(&self) -> (r: OutputInfo)
        ensures
            r == *self,
    {
        OutputInfo {
            width: self.width,
            height: self.height,
            x: self.x,
            y: self.y,
            id: self.id,
            monitor_info: self.monitor_info.duplicate(),
        }
    }
}

/// The descriptor of an output record: its protocol id, its mode's size, the
/// position of its geometry, its name and description. The integers are cut
/// to the descriptor's widths as `as` casts do.
pub open spec fn descriptor(value: WaylandOutputInfo) -> OutputInfo {
    OutputInfo {
        id: value.id,
        width: value.mode.width as u16,
        height: value.mode.height as u16,
        x: value.geometry.x as i16,
        y: value.geometry.y as i16,
        monitor_info: MonitorInfo::Wayland { name: value.name, description: value.description },
    }
}

impl<'a> From<&'a WaylandOutputInfo> for OutputInfo {
    fn from(value: &'a WaylandOutputInfo) -> (r: OutputInfo) {
        OutputInfo {
            id: value.id,
            width: value.mode.width as Pixel,
            height: value.mode.height as Pixel,
            x: value.geometry.x as i16,
            y: value.geometry.y as i16,
            monitor_info: MonitorInfo::Wayland {
                name: value.name.clone(),
                description: value.description.clone(),
            },
        }
    }
}

impl<'a> vstd::std_specs::convert::FromSpecImpl<&'a WaylandOutputInfo> for OutputInfo {
    open spec fn obeys_from_spec() -> bool {
        true
    }

    open spec fn from_spec(v: &'a WaylandOutputInfo) -> OutputInfo {
        descriptor(*v)
    }
}

} // verus!

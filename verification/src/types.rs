use vstd::prelude::*;

verus! {

/// The single error type of the library: a human readable message.
#[derive(Debug, Clone, PartialEq, Eq)]
pub struct PeekabooXError {
    pub message: String,
}

impl PeekabooXError {
    /// Builds an error that carries `message`.
    pub fn new(message: String) -> (error: Self)
        ensures
            error.message@ == message@,
    {
        PeekabooXError { message }
    }

    /// Builds an error from a string slice.
    pub fn from_str(message: &str) -> (error: Self)
        ensures
            error.message@ == message@,
    {
        PeekabooXError { message: message.to_owned() }
    }

    /// The message carried by the error.
    pub fn message(&self) -> (text: &str)
        ensures
            text@ == self.message@,
    {
        self.message.as_str()
    }
}

/// Which kind of desktop subsystem a backend talks to.
#[derive(Debug, Clone, Copy, PartialEq, Eq, Structural)]
pub enum BackendKind {
    Wayland,
    X11,
    Portal,
    AtSpi,
    Uinput,
    Vision,
    Mock,
}

/// A point in screen coordinates.
#[derive(Debug, Clone, Copy, PartialEq, Eq, Structural)]
pub struct Point {
    pub x: i32,
    pub y: i32,
}

impl Point {
    /// The point at `x,y`.
    pub fn new(x: i32, y: i32) -> (point: Self)
        ensures
            point.x == x,
            point.y == y,
    {
        Point { x, y }
    }
}

/// An axis-aligned rectangle: an origin and a non-negative size.
#[derive(Debug, Clone, Copy, PartialEq, Eq, Structural)]
pub struct Rect {
    pub x: i32,
    pub y: i32,
    pub width: u32,
    pub height: u32,
}

/// Whether an integer fits in an `i32`.
pub open spec fn fits_i32(value: int) -> bool {
    i32::MIN <= value <= i32::MAX
}

/// The center of a rectangle, rounding half sizes down; `None` for an empty
/// rectangle or when the center does not fit in `i32`.
pub open spec fn spec_center(rect: Rect) -> Option<Point> {
    let x = rect.x + rect.width / 2;
    let y = rect.y + rect.height / 2;
    if rect.width == 0 || rect.height == 0 || !fits_i32(x) || !fits_i32(y) {
        None
    } else {
        Some(Point { x: x as i32, y: y as i32 })
    }
}

/// The center of a rectangle, when it has one, lies inside it.
pub proof fn lemma_center_inside(rect: Rect)
    ensures
        spec_center(rect) matches Some(c) ==> rect.x <= c.x < rect.x + rect.width && rect.y <= c.y
            < rect.y + rect.height,
{
}

impl Rect {
    /// The rectangle at `x,y` of the given size.
    pub fn new(x: i32, y: i32, width: u32, height: u32) -> (rect: Self)
        ensures
            rect.x == x,
            rect.y == y,
            rect.width == width,
            rect.height == height,
    {
        Rect { x, y, width, height }
    }

    /// The midpoint of the rectangle (see [`spec_center`]).
    pub fn center(self) -> (center: Option<Point>)
        ensures
            center == spec_center(self),
    {
        if self.width == 0 || self.height == 0 {
            return None;
        }
        let x: i64 = self.x as i64 + (self.width / 2) as i64;
        let y: i64 = self.y as i64 + (self.height / 2) as i64;
        if x < i32::MIN as i64 || x > i32::MAX as i64 || y < i32::MIN as i64 || y > i32::MAX as i64 {
            return None;
        }
        Some(Point::new(x as i32, y as i32))
    }
}

/// Memory layout of the pixels of a frame.
#[derive(Debug, Clone, Copy, PartialEq, Eq, Structural)]
pub enum PixelFormat {
    Bgra8,
    Rgba8,
    Rgb8,
}

/// The variant's name as `Debug` prints it.
pub open spec fn spec_pixel_format_debug(format: PixelFormat) -> Seq<char> {
    match format {
        PixelFormat::Bgra8 => "Bgra8"@,
        PixelFormat::Rgba8 => "Rgba8"@,
        PixelFormat::Rgb8 => "Rgb8"@,
    }
}

/// Bytes taken by one pixel.
pub open spec fn spec_bytes_per_pixel(format: PixelFormat) -> nat {
    match format {
        PixelFormat::Bgra8 | PixelFormat::Rgba8 => 4,
        PixelFormat::Rgb8 => 3,
    }
}

impl PixelFormat {
    /// The variant's name as `Debug` prints it.
    pub fn debug_name(self) -> (name: &'static str)
        ensures
            name@ == spec_pixel_format_debug(self),
    {
        match self {
            PixelFormat::Bgra8 => "Bgra8",
            PixelFormat::Rgba8 => "Rgba8",
            PixelFormat::Rgb8 => "Rgb8",
        }
    }

    /// The lower-case name reports give the format.
    pub fn report_name(self) -> (name: &'static str)
        ensures
            name@ == match self {
                PixelFormat::Bgra8 => "bgra8"@,
                PixelFormat::Rgba8 => "rgba8"@,
                PixelFormat::Rgb8 => "rgb8"@,
            },
    {
        match self {
            PixelFormat::Bgra8 => "bgra8",
            PixelFormat::Rgba8 => "rgba8",
            PixelFormat::Rgb8 => "rgb8",
        }
    }

    /// Bytes taken by one pixel.
    pub fn bytes_per_pixel(self) -> (n: usize)
        ensures
            n == spec_bytes_per_pixel(self),
    {
        match self {
            PixelFormat::Bgra8 | PixelFormat::Rgba8 => 4,
            PixelFormat::Rgb8 => 3,
        }
    }
}

/// A captured image held in memory.
#[derive(Debug, Clone, PartialEq, Eq)]
pub struct CaptureFrame {
    pub width: u32,
    pub height: u32,
    pub stride: u32,
    pub format: PixelFormat,
    pub data: Vec<u8>,
}

/// Presentation state of a top-level window.
#[derive(Debug, Clone, Copy, PartialEq, Eq, Structural)]
pub enum WindowState {
    Normal,
    Minimized,
    Maximized,
    Fullscreen,
    Unknown,
}

/// A top-level window as reported by a window backend.
#[derive(Debug, Clone, PartialEq, Eq)]
pub struct WindowInfo {
    pub id: String,
    pub title: String,
    pub app_id: Option<String>,
    pub bounds: Rect,
    pub focused: bool,
    pub state: WindowState,
}

/// An element of the desktop's semantic tree. The detector's confidence in an
/// element is a floating-point number; callers keep it beside the element and
/// hand the library the outcome of comparing it with a selector's threshold.
#[derive(Debug, Clone, PartialEq, Eq)]
pub struct UiElement {
    pub id: String,
    pub role: String,
    pub label: Option<String>,
    pub bounds: Rect,
    pub center: Option<Point>,
    pub states: Vec<String>,
    pub window_id: Option<String>,
    pub window_title: Option<String>,
    pub app_id: Option<String>,
    pub parent_id: Option<String>,
    pub child_ids: Vec<String>,
}

/// What the desktop shows: the active window, all windows and the elements
/// of the semantic tree.
#[derive(Debug, Clone, PartialEq, Eq)]
pub struct DesktopState {
    pub active_window: Option<WindowInfo>,
    pub windows: Vec<WindowInfo>,
    pub elements: Vec<UiElement>,
}

} // verus!

//! Sizes and positions, and the sizes that the drawing surfaces can have.
//!
//! A floating-point coordinate is carried as its bit pattern: the library hands
//! it on and never computes with it.

use vstd::prelude::*;

verus! {

/// A size in pixels of the screen.
#[derive(Clone, Copy, Debug, PartialEq, Eq, Structural)]
pub struct PhysicalSize {
    pub width: u32,
    pub height: u32,
}

/// A size in pixels before scaling, as the bit patterns of two `f64`.
#[derive(Clone, Copy, Debug, PartialEq, Eq, Structural)]
pub struct LogicalSize {
    pub width: u64,
    pub height: u64,
}

/// A point in pixels before scaling, as the bit patterns of two `f32`.
#[derive(Clone, Copy, Debug, PartialEq, Eq, Structural)]
pub struct Point {
    pub x: u32,
    pub y: u32,
}

/// Where the window manager wants the bar: its top left corner and its width.
#[derive(Clone, Copy, Debug, PartialEq, Eq, Structural)]
pub struct MonitorGeometry {
    pub x: i32,
    pub y: i32,
    pub width: u32,
}

/// The size of an image surface, as its constructor takes it.
#[derive(Clone, Copy, Debug, PartialEq, Eq, Structural)]
pub struct SurfaceSize {
    pub width: i32,
    pub height: i32,
}

/// A number does not fit the integer type that an interface asks for.
#[derive(Clone, Copy, Debug, PartialEq, Eq, Structural)]
pub struct OutOfRange;

/// The screen that is assumed where no monitor is known.
pub const DEFAULT_SCREEN_WIDTH: u32 = 1920;

/// See `DEFAULT_SCREEN_WIDTH`.
pub const DEFAULT_SCREEN_HEIGHT: u32 = 1080;

impl PhysicalSize {
    /// Whether there is nothing to draw on.
    pub open spec fn is_degenerate(self) -> bool {
        self.width == 0 || self.height == 0
    }

    /// Whether both sides fit the signed integers that image surfaces take.
    pub open spec fn fits_surface(self) -> bool {
        self.width <= i32::MAX && self.height <= i32::MAX
    }
}

impl SurfaceSize {
    /// Whether this is `size`, number for number.
    pub open spec fn is(self, size: PhysicalSize) -> bool {
        self.width == size.width && self.height == size.height
    }
}

/// Turns a size into the signed numbers that an image surface is made with.
pub fn surface_size(size: PhysicalSize) -> (r: Result<SurfaceSize, OutOfRange>)
    ensures
        match r {
            Ok(surface) => size.fits_surface() && surface.is(size),
            Err(_) => !size.fits_surface(),
        },
{
    if size.width > i32::MAX as u32 || size.height > i32::MAX as u32 {
        return Err(OutOfRange);
    }
    Ok(SurfaceSize { width: size.width as i32, height: size.height as i32 })
}

/// The size to give to the window's pixel buffer: none where a side is zero,
/// for then the buffer keeps the size that it has.
pub fn resize_soft_surface(size: PhysicalSize) -> (r: Option<PhysicalSize>)
    ensures
        r == (if size.is_degenerate() {
            None
        } else {
            Some(size)
        }),
{
    if size.width == 0 || size.height == 0 {
        None
    } else {
        Some(size)
    }
}

/// The size of the screen: that of the monitor, or an assumed one.
pub fn screen_size(monitor: Option<PhysicalSize>) -> (r: PhysicalSize)
    ensures
        r == (match monitor {
            Some(size) => size,
            None => PhysicalSize { width: DEFAULT_SCREEN_WIDTH, height: DEFAULT_SCREEN_HEIGHT },
        }),
{
    match monitor {
        Some(size) => size,
        None => PhysicalSize { width: DEFAULT_SCREEN_WIDTH, height: DEFAULT_SCREEN_HEIGHT },
    }
}

/// Turns the row distance that an image reports into an index step.
pub fn frame_stride(stride: i32) -> (r: Result<usize, OutOfRange>)
    ensures
        match r {
            Ok(step) => stride >= 0 && step == stride,
            Err(_) => stride < 0,
        },
{
    if stride < 0 {
        Err(OutOfRange)
    } else {
        Ok(stride as usize)
    }
}

/// A size becomes that of an image surface exactly where both sides are below
/// two to the thirty-first, and then number for number.
pub proof fn law_surface_keeps_size(size: PhysicalSize, r: Result<SurfaceSize, OutOfRange>)
    requires
        call_ensures(surface_size, (size,), r),
    ensures
        r is Ok <==> size.width < 0x8000_0000 && size.height < 0x8000_0000,
        r matches Ok(surface) ==> surface.width as int == size.width as int && surface.height as int
            == size.height as int,
{
}

/// The pixel buffer is given the size of the window exactly where neither side is
/// zero, and no other size ever.
pub proof fn law_pixel_buffer_follows_window(size: PhysicalSize, r: Option<PhysicalSize>)
    requires
        call_ensures(resize_soft_surface, (size,), r),
    ensures
        r is Some <==> size.width > 0 && size.height > 0,
        r matches Some(buffer) ==> buffer.width == size.width && buffer.height == size.height,
{
}

/// The size of a monitor that is known is taken as it is, and a screen is assumed
/// only where none is known.
pub proof fn law_known_monitor_is_the_screen(monitor: Option<PhysicalSize>, r: PhysicalSize)
    requires
        call_ensures(screen_size, (monitor,), r),
    ensures
        monitor matches Some(size) ==> r.width == size.width && r.height == size.height,
        monitor is None ==> r.width == 1920 && r.height == 1080,
{
}

/// A row distance is taken as it is, unless it is negative.
pub proof fn law_stride_keeps_its_value(stride: i32, r: Result<usize, OutOfRange>)
    requires
        call_ensures(frame_stride, (stride,), r),
    ensures
        r is Ok <==> stride >= 0,
        r matches Ok(step) ==> step as int == stride as int,
{
}

} // verus!

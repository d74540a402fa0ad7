//! The off-screen image that the bar is drawn into.

use crate::geometry::{surface_size, OutOfRange, PhysicalSize, SurfaceSize};
use vstd::prelude::*;

verus! {

/// The size that the off-screen image has.
#[derive(Clone, Copy, Debug, PartialEq, Eq, Structural)]
pub struct CairoBackBuffer {
    pub width: u32,
    pub height: u32,
}

impl View for CairoBackBuffer {
    type V = PhysicalSize;

    open spec fn view(&self) -> PhysicalSize {
        PhysicalSize { width: self.width, height: self.height }
    }
}

/// What it takes to draw at `size` where the image has the size `recorded`:
/// nothing, a new image, or more than an image can be.
pub open spec fn size_plan(recorded: PhysicalSize, size: PhysicalSize) -> Result<
    Option<SurfaceSize>,
    OutOfRange,
> {
    if recorded == size {
        Ok(None)
    } else if size.fits_surface() {
        Ok(Some(SurfaceSize { width: size.width as i32, height: size.height as i32 }))
    } else {
        Err(OutOfRange)
    }
}

impl CairoBackBuffer {
    /// The buffer of a given size, together with the size of the image to make
    /// for it. There is none for a side beyond the signed range.
    pub fn new(width: u32, height: u32) -> (r: Result<(Self, SurfaceSize), OutOfRange>)
        ensures
            match r {
                Ok((buffer, image)) => {
                    let size = PhysicalSize { width, height };
                    size.fits_surface() && buffer@ == size && image.is(size)
                },
                Err(_) => !(PhysicalSize { width, height }).fits_surface(),
            },
    {
        let image: SurfaceSize = surface_size(PhysicalSize { width, height })?;
        Ok((CairoBackBuffer { width, height }, image))
    }

    /// What it takes to draw at a given size: nothing where the image has that
    /// size already, and otherwise a new image of the size that is returned.
    pub fn ensure_size(&self, width: u32, height: u32) -> (r: Result<Option<SurfaceSize>, OutOfRange>)
        ensures
            r == size_plan(self@, PhysicalSize { width, height }),
    {
        if self.width == width && self.height == height {
            return Ok(None);
        }
        match surface_size(PhysicalSize { width, height }) {
            Ok(image) => Ok(Some(image)),
            Err(error) => Err(error),
        }
    }

    /// Takes note that a new image of the given size has taken the place of the
    /// old one.
    pub fn replaced(&mut self, width: u32, height: u32)
        requires
            (PhysicalSize { width, height }).fits_surface(),
        ensures
            final(self)@ == (PhysicalSize { width, height }),
    {
        self.width = width;
        self.height = height;
    }
}

/// One drawing: the size that it needs, and whether an image can be made should
/// one be called for.
pub struct Drawing {
    pub size: PhysicalSize,
    pub image_can_be_made: bool,
}

/// The image that is made for a drawing, where one is.
pub open spec fn image_made(recorded: PhysicalSize, drawing: Drawing) -> Option<SurfaceSize> {
    match size_plan(recorded, drawing.size) {
        Ok(Some(image)) => if drawing.image_can_be_made {
            Some(image)
        } else {
            None
        },
        _ => None,
    }
}

/// The size that is recorded after the first `count` drawings: that of the
/// drawing wherever an image was made for it, and what it was before elsewhere.
pub open spec fn recorded_after(first: PhysicalSize, drawings: Seq<Drawing>, count: int) -> PhysicalSize
    decreases count,
{
    if count <= 0 {
        first
    } else {
        let before = recorded_after(first, drawings, count - 1);
        match image_made(before, drawings[count - 1]) {
            Some(_) => drawings[count - 1].size,
            None => before,
        }
    }
}

/// The last image that was made in the first `count` drawings, or `image` where
/// none was.
pub open spec fn last_image(
    image: SurfaceSize,
    first: PhysicalSize,
    drawings: Seq<Drawing>,
    count: int,
) -> SurfaceSize
    decreases count,
{
    if count <= 0 {
        image
    } else {
        match image_made(recorded_after(first, drawings, count - 1), drawings[count - 1]) {
            Some(made) => made,
            None => last_image(image, first, drawings, count - 1),
        }
    }
}

/// Whatever is drawn, and whichever images cannot be made, the recorded size is
/// always that of the last image that was.
pub proof fn law_recorded_size_is_that_of_last_image(
    image: SurfaceSize,
    first: PhysicalSize,
    drawings: Seq<Drawing>,
    count: int,
)
    requires
        first.fits_surface(),
        image.is(first),
        0 <= count <= drawings.len(),
    ensures
        last_image(image, first, drawings, count).is(recorded_after(first, drawings, count)),
        recorded_after(first, drawings, count).fits_surface(),
    decreases count,
{
    if count > 0 {
        law_recorded_size_is_that_of_last_image(image, first, drawings, count - 1);
    }
}

/// A drawing of the recorded size makes no image, and one whose image cannot be
/// made changes nothing.
pub proof fn law_record_changes_with_image_alone(recorded: PhysicalSize, drawing: Drawing)
    requires
        recorded == drawing.size || !drawing.image_can_be_made,
    ensures
        image_made(recorded, drawing) is None,
        recorded_after(recorded, seq![drawing], 1) == recorded,
{
    reveal_with_fuel(recorded_after, 2);
}

/// The size of a buffer is its width and its height.
pub proof fn law_buffer_has_its_sides(buffer: CairoBackBuffer)
    ensures
        buffer@.width == buffer.width,
        buffer@.height == buffer.height,
{
}

/// The image is kept exactly where both its width and its height are those that
/// are needed. It is made anew, at exactly the size that is needed, where either
/// differs and an image can have that size.
pub proof fn law_image_is_kept_only_at_same_size(
    buffer: CairoBackBuffer,
    width: u32,
    height: u32,
    r: Result<Option<SurfaceSize>, OutOfRange>,
)
    requires
        call_ensures(CairoBackBuffer::ensure_size, (&buffer, width, height), r),
    ensures
        ({
            let same = buffer.width == width && buffer.height == height;
            let possible = width < 0x8000_0000 && height < 0x8000_0000;
            &&& (r matches Ok(None)) <==> same
            &&& (r matches Ok(Some(_))) <==> !same && possible
            &&& r is Err <==> !same && !possible
            &&& r matches Ok(Some(image)) ==> image.width as int == width as int
                && image.height as int == height as int
        }),
{
}

/// A buffer is made exactly where an image can have its size, and the image to
/// make for it has that size too.
pub proof fn law_new_buffer_has_size_of_its_image(
    width: u32,
    height: u32,
    r: Result<(CairoBackBuffer, SurfaceSize), OutOfRange>,
)
    requires
        call_ensures(CairoBackBuffer::new, (width, height), r),
    ensures
        r is Ok <==> width < 0x8000_0000 && height < 0x8000_0000,
        r matches Ok((buffer, image)) ==> buffer.width == width && buffer.height == height
            && image.width as int == width as int && image.height as int == height as int,
{
}

/// A new image is recorded with its own width and height.
pub proof fn law_new_image_is_recorded(buffer: &mut CairoBackBuffer, width: u32, height: u32)
    requires
        call_ensures(CairoBackBuffer::replaced, (buffer, width, height), ()),
    ensures
        final(buffer).width == width,
        final(buffer).height == height,
{
}

} // verus!

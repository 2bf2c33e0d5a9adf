//! The surface context: the pixel format and size the presentable surface
//! is configured with.  The GPU connection itself lives with the driver;
//! this type holds everything the engine decides about it.

use vstd::prelude::*;

use crate::window::PhysicalSize;

verus! {

/// The pixel format the surface presents in.
#[derive(Clone, Copy, PartialEq, Eq, Debug)]
pub enum TextureFormat {
    Bgra8UnormSrgb,
    Rgba8UnormSrgb,
    Bgra8Unorm,
    Rgba8Unorm,
}

/// What the surface is configured with: its pixel size and format.
#[derive(Clone, Copy, PartialEq, Eq, Debug)]
pub struct SurfaceConfiguration {
    pub width: u32,
    pub height: u32,
    pub format: TextureFormat,
}

/// The engine's view of the GPU connection and its presentable surface:
/// the current surface configuration and the last known window size.
#[derive(Clone, Copy, PartialEq, Eq, Debug)]
pub struct Canvas {
    pub config: SurfaceConfiguration,
    pub size: PhysicalSize,
}

impl Canvas {
    /// The surface is never configured with a zero dimension, and the
    /// configuration always matches the last known size.
    pub open spec fn wf(self) -> bool {
        &&& self.size.width > 0
        &&& self.size.height > 0
        &&& self.config.width == self.size.width
        &&& self.config.height == self.size.height
    }

    /// A surface sized to the window's current physical dimensions, in a
    /// presentation format the driver reported as supported.
    pub fn new(size: PhysicalSize, format: TextureFormat) -> (r: Canvas)
        requires
            size.width > 0,
            size.height > 0,
        ensures
            r.wf(),
            r.size == size,
            r.config == (SurfaceConfiguration {
                width: size.width,
                height: size.height,
                format: format,
            }),
    {
        Canvas {
            config: SurfaceConfiguration { width: size.width, height: size.height, format },
            size,
        }
    }
}

} // verus!

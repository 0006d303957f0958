//! Decisions made while acquiring the GPU: which surface format to present
//! in and how the surface is configured.
use vstd::prelude::*;

verus! {

/// Why the GPU context could not be created.
#[derive(Clone, Copy, PartialEq, Eq, Structural, Debug)]
pub enum ContextError {
    /// No adapter can present to the window's surface.
    AdapterUnavailable,
    /// The adapter refused to create a device.
    DeviceCreationFailed,
    /// The adapter reports no format the surface supports.
    NoSurfaceFormat,
}

#[derive(Clone, Copy, PartialEq, Eq, Structural, Debug)]
pub enum PresentMode {
    /// Wait for vertical sync.
    Fifo,
}

/// Takes the first format the adapter reports for the surface.
pub fn first_supported<F: Copy>(formats: &[F]) -> (r: Result<F, ContextError>)
    ensures
        formats@.len() > 0 ==> r == Ok::<F, ContextError>(formats@[0]),
        formats@.len() == 0 ==> r == Err::<F, ContextError>(ContextError::NoSurfaceFormat),
{
    if formats.len() > 0 {
        Ok(formats[0])
    } else {
        Err(ContextError::NoSurfaceFormat)
    }
}

/// How the presentable surface is configured. The surface image is also
/// copied out of, into the last-frame texture.
pub struct SurfaceConfig<F> {
    pub format: F,
    pub width: u32,
    pub height: u32,
    pub present_mode: PresentMode,
}

impl<F> SurfaceConfig<F> {
    /// A configuration with vsync; a zero side is raised to one.
    pub fn new(format: F, width: u32, height: u32) -> (r: SurfaceConfig<F>)
        ensures
            r.format == format,
            r.width == if width == 0 { 1 } else { width },
            r.height == if height == 0 { 1 } else { height },
            r.present_mode == PresentMode::Fifo,
    {
        SurfaceConfig {
            format,
            width: if width == 0 { 1 } else { width },
            height: if height == 0 { 1 } else { height },
            present_mode: PresentMode::Fifo,
        }
    }

    /// Takes a new surface size; a size with a zero side is ignored. Says
    /// whether the surface must be configured again.
    pub fn resize(&mut self, width: u32, height: u32) -> (r: bool)
        ensures
            r == (width > 0 && height > 0),
            r ==> final(self).width == width && final(self).height == height,
            !r ==> final(self).width == old(self).width && final(self).height == old(self).height,
            final(self).format == old(self).format,
            final(self).present_mode == old(self).present_mode,
    {
        if width > 0 && height > 0 {
            self.width = width;
            self.height = height;
            true
        } else {
            false
        }
    }
}

} // verus!

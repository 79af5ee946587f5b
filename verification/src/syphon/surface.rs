//! Rules of the global BGRA8 IOSurface a Syphon server publishes: its
//! creation properties and the checks around CPU access. Creating, looking
//! up, locking and mapping surfaces is the caller's business.

use vstd::prelude::*;

use crate::error::{Error, Result};
use crate::format::PixelFormat;
use crate::info::span;
use crate::syphon::server::check_surface_size;

verus! {

/// Message of the error a surface allocation shorter than its rows gives.
pub const SHORT_ALLOCATION: &'static str = "IOSurface allocation is smaller than expected";

/// Context of the error a failed `IOSurfaceLock` gives.
pub const LOCK_CONTEXT: &'static str = "IOSurfaceLock";

/// The properties a surface is created with.
#[derive(Debug, Clone, Copy, PartialEq, Eq, Structural)]
pub struct SurfaceProperties {
    /// `kIOSurfaceWidth`.
    pub width: u32,
    /// `kIOSurfaceHeight`.
    pub height: u32,
    /// `kIOSurfaceBytesPerElement`.
    pub bytes_per_element: u32,
    /// `kIOSurfacePixelFormat` four character code.
    pub pixel_format: u32,
}

/// The properties of a new `width` x `height` surface: BGRA8, four bytes
/// per element, made global so other processes can look it up.
pub fn surface_properties(width: u32, height: u32) -> (r: Result<SurfaceProperties>)
    ensures
        match r {
            Ok(p) => {
                &&& width > 0 && height > 0
                &&& p.width == width
                &&& p.height == height
                &&& p.bytes_per_element == 4
                &&& PixelFormat::Bgra8Unorm.iosurface_code() == Some(p.pixel_format as int)
            },
            Err(e) => {
                &&& (width == 0 || height == 0)
                &&& e matches Error::InvalidArgument(_)
            },
        },
{
    match check_surface_size(width, height) {
        Ok(()) => {},
        Err(e) => return Err(e),
    }
    let format = PixelFormat::Bgra8Unorm;
    let pixel_format = match format.iosurface_pixel_format() {
        Some(code) => code,
        None => return Err(Error::InvalidFormat(format)),
    };
    let bytes_per_element = format.bytes_per_pixel() as u32;
    Ok(SurfaceProperties { width, height, bytes_per_element, pixel_format })
}

/// What `IOSurfaceLock` returned: anything but 0 is an OS error.
pub fn lock_result(status: i32) -> (r: Result<()>)
    ensures
        match r {
            Ok(()) => status == 0,
            Err(e) => {
                &&& status != 0
                &&& e matches Error::Os { code, message } && code == status && message@
                    == LOCK_CONTEXT@
            },
        },
{
    if status != 0 {
        return Err(Error::os(status as i64, LOCK_CONTEXT));
    }
    Ok(())
}

/// Number of bytes of a locked `width` x `height` BGRA8 surface, rows
/// `bytes_per_row` apart, that a copy touches; an allocation of
/// `alloc_size` bytes shorter than that is an error.
pub fn surface_span(width: u32, height: u32, bytes_per_row: usize, alloc_size: usize) -> (r: Result<
    usize,
>)
    requires
        height > 0,
        PixelFormat::Bgra8Unorm.row_size(width) <= usize::MAX,
        span(
            bytes_per_row as int,
            height as int,
            PixelFormat::Bgra8Unorm.row_size(width) as int,
        ) <= usize::MAX,
    ensures
        ({
            let n = span(
                bytes_per_row as int,
                height as int,
                PixelFormat::Bgra8Unorm.row_size(width) as int,
            );
            match r {
                Ok(len) => alloc_size >= n && len == n,
                Err(e) => {
                    &&& alloc_size < n
                    &&& e matches Error::Backend(m) && m@ == SHORT_ALLOCATION@
                },
            }
        }),
{
    let row_len = PixelFormat::Bgra8Unorm.min_stride(width);
    let rows = (height - 1) as usize;
    assert(bytes_per_row * rows <= span(bytes_per_row as int, height as int, row_len as int));
    let len = bytes_per_row * rows + row_len;
    if alloc_size < len {
        return Err(Error::backend(SHORT_ALLOCATION));
    }
    Ok(len)
}

} // verus!

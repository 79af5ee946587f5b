//! What the Spout textures are made of on a D3D11 device: device creation
//! order, texture descriptions, and the checks around uploading and
//! reading back pixels. The device calls themselves are the caller's.

use vstd::prelude::*;

use crate::error::{Error, Result};
use crate::format::PixelFormat;
use crate::info::span;

verus! {

/// `D3D_FEATURE_LEVEL_11_1`.
pub const FEATURE_LEVEL_11_1: u32 = 0xb100;

/// `D3D_FEATURE_LEVEL_11_0`.
pub const FEATURE_LEVEL_11_0: u32 = 0xb000;

/// `D3D_FEATURE_LEVEL_10_1`.
pub const FEATURE_LEVEL_10_1: u32 = 0xa100;

/// `D3D_FEATURE_LEVEL_10_0`.
pub const FEATURE_LEVEL_10_0: u32 = 0xa000;

/// `D3D11_USAGE_DEFAULT`.
pub const USAGE_DEFAULT: u32 = 0;

/// `D3D11_USAGE_STAGING`.
pub const USAGE_STAGING: u32 = 3;

/// `D3D11_BIND_SHADER_RESOURCE`.
pub const BIND_SHADER_RESOURCE: u32 = 0x8;

/// `D3D11_BIND_RENDER_TARGET`.
pub const BIND_RENDER_TARGET: u32 = 0x20;

/// `D3D11_CPU_ACCESS_READ`.
pub const CPU_ACCESS_READ: u32 = 0x20000;

/// `D3D11_RESOURCE_MISC_SHARED`.
pub const RESOURCE_MISC_SHARED: u32 = 0x2;

/// Message of the error an unusable mapping of a staging texture gives.
pub const INVALID_MAPPING: &'static str = "Map returned an invalid mapping";

/// Message of the error a row pitch beyond 32 bits gives.
pub const ROW_PITCH_TOO_LARGE: &'static str = "row pitch too large";

/// Kind of driver a device is created on.
#[derive(Debug, Clone, Copy, PartialEq, Eq, Structural)]
pub enum DriverKind {
    /// The hardware adapter.
    Hardware,
    /// The WARP software rasterizer.
    Warp,
}

/// One attempt at creating a device: the driver, and whether the feature
/// levels asked for start at 11.1 (else at 11.0, for runtimes that do not
/// know 11.1).
#[derive(Debug, Clone, Copy, PartialEq, Eq, Structural)]
pub struct DeviceAttempt {
    /// Driver to create the device on.
    pub driver: DriverKind,
    /// Whether feature level 11.1 is asked for.
    pub with_11_1: bool,
}

/// Description of a 2D texture with one mip level, one array slice and no
/// multisampling.
#[derive(Debug, Clone, Copy, PartialEq, Eq, Structural)]
pub struct TextureSpec {
    /// Width in pixels.
    pub width: u32,
    /// Height in pixels.
    pub height: u32,
    /// `DXGI_FORMAT` value.
    pub dxgi_format: u32,
    /// `D3D11_USAGE` value.
    pub usage: u32,
    /// `D3D11_BIND_FLAG` bits.
    pub bind_flags: u32,
    /// `D3D11_CPU_ACCESS_FLAG` bits.
    pub cpu_access_flags: u32,
    /// `D3D11_RESOURCE_MISC_FLAG` bits.
    pub misc_flags: u32,
}

/// The attempts at creating a device, in order: the hardware driver, then
/// WARP; on each, first with feature level 11.1, then without.
pub fn device_attempts() -> (r: Vec<DeviceAttempt>)
    ensures
        r@ == seq![
            DeviceAttempt { driver: DriverKind::Hardware, with_11_1: true },
            DeviceAttempt { driver: DriverKind::Hardware, with_11_1: false },
            DeviceAttempt { driver: DriverKind::Warp, with_11_1: true },
            DeviceAttempt { driver: DriverKind::Warp, with_11_1: false },
        ],
{
    let mut r: Vec<DeviceAttempt> = Vec::new();
    r.push(DeviceAttempt { driver: DriverKind::Hardware, with_11_1: true });
    r.push(DeviceAttempt { driver: DriverKind::Hardware, with_11_1: false });
    r.push(DeviceAttempt { driver: DriverKind::Warp, with_11_1: true });
    r.push(DeviceAttempt { driver: DriverKind::Warp, with_11_1: false });
    r
}

/// The feature levels an attempt asks for, highest first.
pub fn feature_levels(attempt: DeviceAttempt) -> (r: Vec<u32>)
    ensures
        r@ == if attempt.with_11_1 {
            seq![FEATURE_LEVEL_11_1, FEATURE_LEVEL_11_0, FEATURE_LEVEL_10_1, FEATURE_LEVEL_10_0]
        } else {
            seq![FEATURE_LEVEL_11_0, FEATURE_LEVEL_10_1, FEATURE_LEVEL_10_0]
        },
{
    let mut r: Vec<u32> = Vec::new();
    if attempt.with_11_1 {
        r.push(FEATURE_LEVEL_11_1);
    }
    r.push(FEATURE_LEVEL_11_0);
    r.push(FEATURE_LEVEL_10_1);
    r.push(FEATURE_LEVEL_10_0);
    r
}

/// The texture a sender shares: default usage, usable as a render target
/// and a shader resource, shared through a legacy handle.
pub fn shared_texture_spec(width: u32, height: u32, format: PixelFormat) -> (r: TextureSpec)
    ensures
        r == (TextureSpec {
            width,
            height,
            dxgi_format: format.dxgi_code(),
            usage: USAGE_DEFAULT,
            bind_flags: BIND_RENDER_TARGET | BIND_SHADER_RESOURCE,
            cpu_access_flags: 0,
            misc_flags: RESOURCE_MISC_SHARED,
        }),
{
    TextureSpec {
        width,
        height,
        dxgi_format: format.dxgi_format(),
        usage: USAGE_DEFAULT,
        bind_flags: BIND_RENDER_TARGET | BIND_SHADER_RESOURCE,
        cpu_access_flags: 0,
        misc_flags: RESOURCE_MISC_SHARED,
    }
}

/// The texture a receiver copies a frame into to read it back: staging
/// usage, readable by the CPU.
pub fn staging_texture_spec(width: u32, height: u32, format: PixelFormat) -> (r: TextureSpec)
    ensures
        r == (TextureSpec {
            width,
            height,
            dxgi_format: format.dxgi_code(),
            usage: USAGE_STAGING,
            bind_flags: 0,
            cpu_access_flags: CPU_ACCESS_READ,
            misc_flags: 0,
        }),
{
    TextureSpec {
        width,
        height,
        dxgi_format: format.dxgi_format(),
        usage: USAGE_STAGING,
        bind_flags: 0,
        cpu_access_flags: CPU_ACCESS_READ,
        misc_flags: 0,
    }
}

/// The row pitch passed to `UpdateSubresource`, which takes 32 bits.
pub fn upload_row_pitch(row_pitch: usize) -> (r: Result<u32>)
    ensures
        match r {
            Ok(p) => p == row_pitch,
            Err(e) => {
                &&& row_pitch > u32::MAX
                &&& e matches Error::InvalidArgument(m) && m@ == ROW_PITCH_TOO_LARGE@
            },
        },
{
    if row_pitch > 0xffff_ffff {
        return Err(Error::InvalidArgument(ROW_PITCH_TOO_LARGE.to_owned()));
    }
    Ok(row_pitch as u32)
}

/// Number of bytes of a mapped staging texture of `height` rows of
/// `format` and `width`, `src_stride` bytes apart, that a read back looks
/// at; a stride shorter than a row is an invalid mapping.
pub fn staging_span(format: PixelFormat, width: u32, height: u32, src_stride: usize) -> (r: Result<
    usize,
>)
    requires
        height > 0,
        format.row_size(width) <= usize::MAX,
        src_stride >= format.row_size(width) ==> span(
            src_stride as int,
            height as int,
            format.row_size(width) as int,
        ) <= usize::MAX,
    ensures
        match r {
            Ok(n) => src_stride >= format.row_size(width) && n == span(
                src_stride as int,
                height as int,
                format.row_size(width) as int,
            ),
            Err(e) => {
                &&& src_stride < format.row_size(width)
                &&& e matches Error::Backend(m) && m@ == INVALID_MAPPING@
            },
        },
{
    let row_len = format.min_stride(width);
    if src_stride < row_len {
        return Err(Error::backend(INVALID_MAPPING));
    }
    let rows = (height - 1) as usize;
    assert(src_stride * rows + row_len == span(src_stride as int, height as int, row_len as int));
    Ok(src_stride * rows + row_len)
}

} // verus!

//! The CPU path between wgpu textures and the shared texture: a frame takes
//! a round trip through host memory, read back through a staging buffer
//! whose rows are padded to wgpu's copy alignment, or uploaded tightly
//! packed. Recording and submitting the GPU work is the caller's business.

use vstd::prelude::*;

use crate::error::{Error, Result};
use crate::format::PixelFormat;

verus! {

/// Message of the error an upload into a texture of another size gives.
pub const UPLOAD_SIZE_MISMATCH: &'static str = "destination texture size does not match the frame";

/// `wgpu::COPY_BYTES_PER_ROW_ALIGNMENT`: the alignment of `bytes_per_row`
/// in buffer to texture copies.
///
/// Claims the value wgpu-types defines, 256.
#[verifier::external_body]
fn copy_row_alignment() -> (r: usize)
    ensures
        r == 256,
{
    wgpu::COPY_BYTES_PER_ROW_ALIGNMENT as usize
}

/// `row_len` rounded up to a multiple of 256.
pub open spec fn padded_row(row_len: nat) -> nat {
    ((row_len + 255) / 256 * 256) as nat
}

/// Round `row_len` up to `COPY_BYTES_PER_ROW_ALIGNMENT`.
pub fn padded_bytes_per_row(row_len: usize) -> (r: usize)
    requires
        row_len + 255 <= usize::MAX,
    ensures
        r == padded_row(row_len as nat),
        r % 256 == 0,
        row_len <= r < row_len + 256,
{
    let align = copy_row_alignment();
    let blocks = (row_len + (align - 1)) / align;
    assert(blocks * 256 <= row_len + 255) by (nonlinear_arith)
        requires
            blocks == (row_len + 255) / 256,
    ;
    assert(row_len <= blocks * 256) by (nonlinear_arith)
        requires
            blocks == (row_len + 255) / 256,
    ;
    blocks * align
}

/// How a texture is read back: the frame's geometry, the tightly packed
/// row length, the padded row stride in the staging buffer and the bytes
/// the buffer needs.
#[derive(Debug, Clone, Copy, PartialEq, Eq, Structural)]
pub struct ReadbackPlan {
    /// Width in pixels.
    pub width: u32,
    /// Height in pixels.
    pub height: u32,
    /// Pixel format.
    pub format: PixelFormat,
    /// Bytes of one tightly packed row.
    pub row_len: usize,
    /// Bytes between rows in the staging buffer.
    pub padded_stride: usize,
    /// Bytes of the staging buffer the copy fills.
    pub size: u64,
}

/// Whether a texture of `format` and `width` x `height` can be planned
/// without overflowing the machine's integers.
pub open spec fn plannable(width: u32, height: u32, format: PixelFormat) -> bool {
    &&& format.row_size(width) + 255 <= usize::MAX
    &&& padded_row(format.row_size(width)) * height <= u64::MAX
}

/// Whether the read back of a `width` x `height` texture of `format` can be
/// planned.
pub fn readback_fits(width: u32, height: u32, format: PixelFormat) -> (r: bool)
    ensures
        r == (format.row_size(width) <= usize::MAX && plannable(width, height, format)),
{
    let row = match (width as usize).checked_mul(format.bytes_per_pixel()) {
        Some(row) => row,
        None => return false,
    };
    if row > usize::MAX - 255 {
        return false;
    }
    let padded = padded_bytes_per_row(row);
    (padded as u64).checked_mul(height as u64).is_some()
}

/// Plan the read back of a `width` x `height` texture of `format`.
pub fn plan_readback(width: u32, height: u32, format: PixelFormat) -> (r: ReadbackPlan)
    requires
        format.row_size(width) <= usize::MAX,
        plannable(width, height, format),
    ensures
        r.width == width,
        r.height == height,
        r.format == format,
        r.row_len == format.row_size(width),
        r.padded_stride == padded_row(format.row_size(width)),
        r.size == padded_row(format.row_size(width)) * height,
{
    let row_len = format.min_stride(width);
    let padded_stride = padded_bytes_per_row(row_len);
    let size = padded_stride as u64 * height as u64;
    ReadbackPlan { width, height, format, row_len, padded_stride, size }
}

/// The staging buffer a read back reuses.
#[derive(Debug, Clone, Copy, PartialEq, Eq, Structural)]
pub struct ReadbackBuffer {
    /// Whether a buffer exists.
    pub allocated: bool,
    /// Its size in bytes.
    pub capacity: u64,
}

impl ReadbackBuffer {
    /// No buffer yet.
    pub fn new() -> (r: Self)
        ensures
            !r.allocated,
            r.capacity == 0,
    {
        ReadbackBuffer { allocated: false, capacity: 0 }
    }

    /// Make room for `size` bytes: returns whether a new buffer of `size`
    /// bytes must be created (there is none, or it is too small).
    pub fn ensure(&mut self, size: u64) -> (create: bool)
        ensures
            create == (!old(self).allocated || old(self).capacity < size),
            create ==> final(self).allocated && final(self).capacity == size,
            !create ==> *final(self) == *old(self),
            final(self).capacity >= size,
    {
        if !self.allocated || self.capacity < size {
            self.allocated = true;
            self.capacity = size;
            true
        } else {
            false
        }
    }
}

/// Check an upload of tightly packed `pixels` of `format` and
/// `width` x `height` into a texture of `dst_width` x `dst_height`. Returns
/// the number of bytes uploaded.
pub fn check_upload(
    pixels_len: usize,
    width: u32,
    height: u32,
    format: PixelFormat,
    dst_width: u32,
    dst_height: u32,
) -> (r: Result<usize>)
    requires
        format.row_size(width) <= usize::MAX,
        format.image_size(width, height) <= usize::MAX,
    ensures
        match r {
            Ok(n) => {
                &&& n == format.image_size(width, height)
                &&& pixels_len >= n
                &&& dst_width == width && dst_height == height
            },
            Err(e) => if pixels_len < format.image_size(width, height) {
                e == Error::SizeMismatch {
                    expected: format.image_size(width, height) as usize,
                    actual: pixels_len,
                }
            } else {
                &&& !(dst_width == width && dst_height == height)
                &&& e matches Error::InvalidArgument(m) && m@ == UPLOAD_SIZE_MISMATCH@
            },
        },
{
    let expected = format.min_buffer_len(width, height);
    if pixels_len < expected {
        return Err(Error::SizeMismatch { expected, actual: pixels_len });
    }
    if dst_width != width || dst_height != height {
        return Err(Error::InvalidArgument(UPLOAD_SIZE_MISMATCH.to_owned()));
    }
    Ok(expected)
}

/// `VkMemoryPropertyFlagBits::DEVICE_LOCAL`.
pub const MEMORY_DEVICE_LOCAL: u32 = 0x1;

/// Whether memory type `i` (flags `flags`) is allowed by `type_bits` and
/// has every property of `wanted`.
pub open spec fn memory_type_fits(type_bits: u32, i: int, flags: u32, wanted: u32) -> bool {
    &&& 0 <= i < 32
    &&& type_bits & (1u32 << (i as u32)) != 0
    &&& flags & wanted == wanted
}

/// The first memory type among `flags` (the property flags of the device's
/// memory types, in order) allowed by `type_bits` with all of `wanted`.
fn first_memory_type(flags: &[u32], type_bits: u32, wanted: u32) -> (r: Option<u32>)
    requires
        flags@.len() <= 32,
    ensures
        match r {
            Some(i) => i < flags@.len() && memory_type_fits(type_bits, i as int, flags@[i as int], wanted)
                && forall|j: int| 0 <= j < i ==> !memory_type_fits(type_bits, j, flags@[j], wanted),
            None => forall|j: int|
                0 <= j < flags@.len() ==> !memory_type_fits(type_bits, j, flags@[j], wanted),
        },
{
    let mut i: usize = 0;
    while i < flags.len()
        invariant
            i <= flags@.len() <= 32,
            forall|j: int| 0 <= j < i ==> !memory_type_fits(type_bits, j, flags@[j], wanted),
        decreases flags@.len() - i,
    {
        let bit: u32 = 1u32 << (i as u32);
        if type_bits & bit != 0 && flags[i] & wanted == wanted {
            return Some(i as u32);
        }
        i = i + 1;
    }
    None
}

/// The memory type an imported image is bound to: the first allowed one
/// that is device local, else the first allowed one.
pub fn find_memory_type(flags: &[u32], type_bits: u32) -> (r: Option<u32>)
    requires
        flags@.len() <= 32,
    ensures
        match r {
            Some(i) => i < flags@.len() && ({
                ||| memory_type_fits(type_bits, i as int, flags@[i as int], MEMORY_DEVICE_LOCAL)
                    && forall|j: int|
                    0 <= j < i ==> !memory_type_fits(type_bits, j, flags@[j], MEMORY_DEVICE_LOCAL)
                ||| (forall|j: int|
                    0 <= j < flags@.len() ==> !memory_type_fits(
                        type_bits,
                        j,
                        flags@[j],
                        MEMORY_DEVICE_LOCAL,
                    )) && memory_type_fits(type_bits, i as int, flags@[i as int], 0)
                    && forall|j: int| 0 <= j < i ==> !memory_type_fits(type_bits, j, flags@[j], 0)
            }),
            None => forall|j: int| 0 <= j < flags@.len() ==> !memory_type_fits(type_bits, j, flags@[j], 0),
        },
{
    match first_memory_type(flags, type_bits, MEMORY_DEVICE_LOCAL) {
        Some(i) => Some(i),
        None => first_memory_type(flags, type_bits, 0),
    }
}

} // verus!

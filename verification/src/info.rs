//! Descriptions of senders and frames, borrowed CPU pixel data, and strided
//! row copies.

use vstd::prelude::*;

use crate::error::{Error, Result};
use crate::format::PixelFormat;
use crate::text::{decimal, push_decimal};

verus! {

/// Description of a sender (Spout) or server (Syphon) visible on the system.
#[derive(Debug, Clone, PartialEq, Eq)]
pub struct SenderInfo {
    /// Stable identifier used to connect.
    ///
    /// * Spout: the sender name (unique on the system, suffixed `_1`, `_2`, ...
    ///   when duplicated).
    /// * Syphon: the server UUID (`info.v002.Syphon.<UUID>`).
    pub id: String,
    /// Human readable name. Equal to `id` for Spout senders.
    pub name: String,
    /// Name of the application hosting the sender, if known.
    ///
    /// * Spout: executable path stored in the `description` field.
    /// * Syphon: `SyphonServerDescriptionAppNameKey`.
    pub app_name: Option<String>,
    /// Current texture width in pixels (0 if unknown).
    pub width: u32,
    /// Current texture height in pixels (0 if unknown).
    pub height: u32,
    /// Current texture format.
    pub format: PixelFormat,
}

impl SenderInfo {
    /// Number of bytes required to hold one tightly packed frame.
    pub fn frame_len(&self) -> (r: usize)
        requires
            self.format.row_size(self.width) <= usize::MAX,
            self.format.image_size(self.width, self.height) <= usize::MAX,
        ensures
            r == self.format.image_size(self.width, self.height),
    {
        self.format.min_buffer_len(self.width, self.height)
    }
}

/// Description of one received frame.
#[derive(Debug, Clone, Copy, PartialEq, Eq, Structural)]
pub struct FrameInfo {
    /// Frame width in pixels.
    pub width: u32,
    /// Frame height in pixels.
    pub height: u32,
    /// Pixel format of the frame data.
    pub format: PixelFormat,
    /// Monotonically increasing frame identifier, as reported by the sender
    /// (Spout frame count) or derived from surface updates (Syphon seed).
    /// `0` when the sender does not provide frame counting.
    pub frame_id: u64,
}

impl FrameInfo {
    /// Number of bytes for one tightly packed row.
    pub fn stride(&self) -> (r: usize)
        requires
            self.format.row_size(self.width) <= usize::MAX,
        ensures
            r == self.format.row_size(self.width),
    {
        self.format.min_stride(self.width)
    }

    /// Number of bytes for the whole tightly packed frame.
    pub fn byte_len(&self) -> (r: usize)
        requires
            self.format.row_size(self.width) <= usize::MAX,
            self.format.image_size(self.width, self.height) <= usize::MAX,
        ensures
            r == self.format.image_size(self.width, self.height),
    {
        self.format.min_buffer_len(self.width, self.height)
    }
}

/// Borrowed CPU pixel data passed to a sender.
#[derive(Debug, Clone, Copy)]
pub struct PixelBuffer<'a> {
    /// Raw pixel bytes. Rows are `stride` bytes apart.
    pub data: &'a [u8],
    /// Image width in pixels.
    pub width: u32,
    /// Image height in pixels.
    pub height: u32,
    /// Bytes between the start of consecutive rows.
    pub stride: usize,
    /// Pixel format of `data`.
    pub format: PixelFormat,
}

/// Message of the error a zero-sized image gives.
pub const ZERO_SIZED: &'static str = "zero-sized image";

/// The message of the error a stride shorter than a row gives.
pub open spec fn short_stride_text(stride: nat, min_stride: nat, width: nat) -> Seq<char> {
    "stride "@ + decimal(stride) + " is smaller than the minimum "@ + decimal(min_stride)
        + " for width "@ + decimal(width)
}

/// The message of the error a destination stride shorter than a row gives.
pub open spec fn short_destination_text(dst_stride: nat, row_len: nat) -> Seq<char> {
    "destination stride "@ + decimal(dst_stride) + " is smaller than row length "@ + decimal(
        row_len,
    )
}

/// The message for a stride shorter than a row.
fn short_stride_message(stride: usize, min_stride: usize, width: u32) -> (r: String)
    ensures
        r@ == short_stride_text(stride as nat, min_stride as nat, width as nat),
{
    let mut m = String::new();
    m.append("stride ");
    push_decimal(&mut m, stride as u64);
    m.append(" is smaller than the minimum ");
    push_decimal(&mut m, min_stride as u64);
    m.append(" for width ");
    push_decimal(&mut m, width as u64);
    m
}

/// The message for a destination stride shorter than a row.
fn short_destination_stride_message(dst_stride: usize, row_len: usize) -> (r: String)
    ensures
        r@ == short_destination_text(dst_stride as nat, row_len as nat),
{
    let mut m = String::new();
    m.append("destination stride ");
    push_decimal(&mut m, dst_stride as u64);
    m.append(" is smaller than row length ");
    push_decimal(&mut m, row_len as u64);
    m
}

impl<'a> PixelBuffer<'a> {
    /// Length of one tightly packed row.
    pub open spec fn row_len(self) -> int {
        self.format.row_size(self.width) as int
    }

    /// Whether `data` is large enough for the declared geometry.
    pub open spec fn is_valid(self) -> bool {
        &&& self.width > 0
        &&& self.height > 0
        &&& self.stride >= self.row_len()
        &&& self.data@.len() >= span(self.stride as int, self.height as int, self.row_len())
    }

    /// Whether `e` is the error [`PixelBuffer::validate`] reports for this
    /// buffer: the first failed check decides.
    pub open spec fn rejects(self, e: Error) -> bool {
        if self.width == 0 || self.height == 0 {
            e matches Error::InvalidArgument(m) && m@ == ZERO_SIZED@
        } else if self.stride < self.row_len() {
            e matches Error::InvalidArgument(m) && m@ == short_stride_text(
                self.stride as nat,
                self.row_len() as nat,
                self.width as nat,
            )
        } else if self.data@.len() < span(self.stride as int, self.height as int, self.row_len()) {
            e == Error::SizeMismatch {
                expected: span(self.stride as int, self.height as int, self.row_len()) as usize,
                actual: self.data@.len() as usize,
            }
        } else {
            false
        }
    }

    /// Whether a buffer can be checked without overflowing a `usize`: a
    /// buffer with a zero side is refused before any size is computed.
    pub open spec fn fits_usize(self) -> bool {
        self.width > 0 && self.height > 0 ==> {
            &&& self.format.row_size(self.width) <= usize::MAX
            &&& self.stride >= self.row_len() ==> span(
                self.stride as int,
                self.height as int,
                self.row_len(),
            ) <= usize::MAX
        }
    }

    /// Create a tightly packed buffer description and validate its length.
    pub fn packed(data: &'a [u8], width: u32, height: u32, format: PixelFormat) -> (r: Result<Self>)
        requires
            format.row_size(width) <= usize::MAX,
            width > 0 && height > 0 ==> span(
                format.row_size(width) as int,
                height as int,
                format.row_size(width) as int,
            ) <= usize::MAX,
        ensures
            match r {
                Ok(b) => b.data == data && b.width == width && b.height == height && b.stride
                    == format.row_size(width) && b.format == format && b.is_valid(),
                Err(e) => {
                    let b = PixelBuffer {
                        data,
                        width,
                        height,
                        stride: format.row_size(width) as usize,
                        format,
                    };
                    !b.is_valid() && b.rejects(e)
                },
            },
    {
        let buffer = PixelBuffer { data, width, height, stride: format.min_stride(width), format };
        match buffer.validate() {
            Ok(()) => Ok(buffer),
            Err(e) => Err(e),
        }
    }

    /// Create a buffer description with an explicit row stride and validate it.
    pub fn with_stride(
        data: &'a [u8],
        width: u32,
        height: u32,
        stride: usize,
        format: PixelFormat,
    ) -> (r: Result<Self>)
        requires
            (PixelBuffer { data, width, height, stride, format }).fits_usize(),
        ensures
            match r {
                Ok(b) => b == (PixelBuffer { data, width, height, stride, format }) && b.is_valid(),
                Err(e) => {
                    let b = PixelBuffer { data, width, height, stride, format };
                    !b.is_valid() && b.rejects(e)
                },
            },
    {
        let buffer = PixelBuffer { data, width, height, stride, format };
        match buffer.validate() {
            Ok(()) => Ok(buffer),
            Err(e) => Err(e),
        }
    }

    /// Whether the buffer can be checked without overflowing a `usize`
    /// (which [`PixelBuffer::validate`] needs).
    pub fn is_checkable(&self) -> (r: bool)
        ensures
            r == self.fits_usize(),
    {
        if self.width == 0 || self.height == 0 {
            return true;
        }
        let row = match (self.width as usize).checked_mul(self.format.bytes_per_pixel()) {
            Some(row) => row,
            None => return false,
        };
        if self.stride >= row {
            match self.stride.checked_mul((self.height - 1) as usize) {
                Some(v) => v.checked_add(row).is_some(),
                None => false,
            }
        } else {
            true
        }
    }

    /// Check that `data` is large enough for the declared geometry.
    pub fn validate(&self) -> (r: Result<()>)
        requires
            self.fits_usize(),
        ensures
            r is Ok <==> self.is_valid(),
            r matches Err(e) ==> self.rejects(e),
    {
        if self.width == 0 || self.height == 0 {
            return Err(Error::InvalidArgument(ZERO_SIZED.to_owned()));
        }
        let min_stride = self.format.min_stride(self.width);
        if self.stride < min_stride {
            return Err(
                Error::InvalidArgument(short_stride_message(self.stride, min_stride, self.width)),
            );
        }
        let expected = self.stride * (self.height as usize - 1) + min_stride;
        if self.data.len() < expected {
            return Err(Error::SizeMismatch { expected, actual: self.data.len() });
        }
        Ok(())
    }

    /// The rows of the image, each `width * bytes_per_pixel` long.
    pub fn rows(&self) -> (r: Vec<&'a [u8]>)
        requires
            self.format.row_size(self.width) <= usize::MAX,
            self.height > 0 ==> self.data@.len() >= span(
                self.stride as int,
                self.height as int,
                self.row_len(),
            ),
        ensures
            r@.len() == self.height,
            forall|y: int|
                0 <= y < self.height ==> #[trigger] r@[y]@ == self.data@.subrange(
                    y * self.stride,
                    y * self.stride + self.row_len(),
                ),
    {
        let row_len = self.format.min_stride(self.width);
        let height = self.height as usize;
        let data_len = self.data.len();
        let mut rows: Vec<&'a [u8]> = Vec::new();
        let mut y: usize = 0;
        while y < height
            invariant
                data_len == self.data@.len(),
                height == self.height,
                row_len == self.row_len(),
                y <= height,
                height > 0 ==> self.data@.len() >= span(
                    self.stride as int,
                    height as int,
                    row_len as int,
                ),
                rows@.len() == y,
                forall|j: int|
                    0 <= j < y ==> #[trigger] rows@[j]@ == self.data@.subrange(
                        j * self.stride,
                        j * self.stride + row_len,
                    ),
            decreases height - y,
        {
            assert(y * self.stride <= self.stride * (height - 1)) by (nonlinear_arith)
                requires
                    y < height,
            ;
            let start = y * self.stride;
            rows.push(&self.data[start..start + row_len]);
            y = y + 1;
        }
        rows
    }

    /// Copy the image into `dst` using `dst_stride` bytes per row.
    ///
    /// `dst` must be at least `dst_stride * (height - 1) + row length` bytes
    /// long.
    pub fn copy_to(&self, dst: &mut [u8], dst_stride: usize) -> (r: Result<()>)
        requires
            self.height > 0,
            self.format.row_size(self.width) <= usize::MAX,
            dst_stride >= self.row_len() ==> span(
                dst_stride as int,
                self.height as int,
                self.row_len(),
            ) <= usize::MAX,
            dst_stride >= self.row_len() && old(dst)@.len() >= span(
                dst_stride as int,
                self.height as int,
                self.row_len(),
            ) ==> self.data@.len() >= span(self.stride as int, self.height as int, self.row_len()),
        ensures
            dst_stride < self.row_len() ==> (r matches Err(Error::InvalidArgument(m)) && m@
                == short_destination_text(dst_stride as nat, self.row_len() as nat))
                && final(dst)@ == old(dst)@,
            dst_stride >= self.row_len() && old(dst)@.len() < span(
                dst_stride as int,
                self.height as int,
                self.row_len(),
            ) ==> r == Err::<(), Error>(
                Error::SizeMismatch {
                    expected: span(dst_stride as int, self.height as int, self.row_len()) as usize,
                    actual: old(dst)@.len() as usize,
                },
            ) && final(dst)@ == old(dst)@,
            dst_stride >= self.row_len() && old(dst)@.len() >= span(
                dst_stride as int,
                self.height as int,
                self.row_len(),
            ) ==> r is Ok && final(dst)@ == rows_copied(
                old(dst)@,
                self.data@,
                self.stride as int,
                dst_stride as int,
                self.row_len(),
                self.height as nat,
            ),
    {
        let row_len = self.format.min_stride(self.width);
        if dst_stride < row_len {
            return Err(Error::InvalidArgument(short_destination_stride_message(dst_stride, row_len)));
        }
        let required = dst_stride * (self.height as usize - 1) + row_len;
        if dst.len() < required {
            return Err(Error::SizeMismatch { expected: required, actual: dst.len() });
        }
        let data_len = self.data.len();
        assert(data_len >= span(self.stride as int, self.height as int, row_len as int));
        copy_rows(self.data, self.stride, dst, dst_stride, row_len, self.height as usize)
    }
}

/// Bytes spanned by `rows` rows of `row_len` bytes placed `stride` bytes
/// apart: up to the end of the last row.
pub open spec fn span(stride: int, rows: int, row_len: int) -> int {
    stride * (rows - 1) + row_len
}

/// Whether row `y` of `row_len` bytes, rows `stride` apart, covers byte `i`.
pub open spec fn row_covers(y: int, stride: int, row_len: int, i: int) -> bool {
    y * stride <= i < y * stride + row_len
}

/// `dst` with its bytes `dst_off .. dst_off + len` replaced by the bytes of
/// `src` starting at `src_off`.
pub open spec fn copy_row(dst: Seq<u8>, src: Seq<u8>, src_off: int, dst_off: int, len: int) -> Seq<
    u8,
> {
    Seq::new(
        dst.len(),
        |i: int|
            if dst_off <= i < dst_off + len {
                src[src_off + (i - dst_off)]
            } else {
                dst[i]
            },
    )
}

/// `dst` after copying rows `0 .. rows` of `row_len` bytes, in order, from
/// `src` (rows `src_stride` apart) to `dst` (rows `dst_stride` apart).
pub open spec fn rows_copied(
    dst: Seq<u8>,
    src: Seq<u8>,
    src_stride: int,
    dst_stride: int,
    row_len: int,
    rows: nat,
) -> Seq<u8>
    decreases rows,
{
    if rows == 0 {
        dst
    } else {
        let y = rows - 1;
        copy_row(
            rows_copied(dst, src, src_stride, dst_stride, row_len, (rows - 1) as nat),
            src,
            y * src_stride,
            y * dst_stride,
            row_len,
        )
    }
}

/// When destination rows do not overlap (`row_len <= dst_stride`), every
/// destination row holds its source row and every other byte is unchanged.
pub proof fn lemma_rows_copied_pointwise(
    dst: Seq<u8>,
    src: Seq<u8>,
    src_stride: int,
    dst_stride: int,
    row_len: int,
    rows: nat,
)
    requires
        0 <= row_len <= dst_stride,
    ensures
        rows_copied(dst, src, src_stride, dst_stride, row_len, rows).len() == dst.len(),
        forall|y: int, k: int|
            0 <= y < rows && 0 <= k < row_len && y * dst_stride + k < dst.len() ==> #[trigger] rows_copied(
                dst,
                src,
                src_stride,
                dst_stride,
                row_len,
                rows,
            )[y * dst_stride + k] == src[y * src_stride + k],
        forall|i: int|
            0 <= i < dst.len() && (forall|y: int|
                0 <= y < rows ==> !#[trigger] row_covers(y, dst_stride, row_len, i)) ==> #[trigger] rows_copied(
                dst,
                src,
                src_stride,
                dst_stride,
                row_len,
                rows,
            )[i] == dst[i],
    decreases rows,
{
    if rows > 0 {
        let r = (rows - 1) as nat;
        lemma_rows_copied_pointwise(dst, src, src_stride, dst_stride, row_len, r);
        let prev = rows_copied(dst, src, src_stride, dst_stride, row_len, r);
        let cur = rows_copied(dst, src, src_stride, dst_stride, row_len, rows);
        assert forall|y: int, k: int|
            0 <= y < rows && 0 <= k < row_len && y * dst_stride + k < dst.len() implies #[trigger] cur[y
                * dst_stride + k] == src[y * src_stride + k] by {
            if y < r {
                assert(y * dst_stride + k < r * dst_stride) by (nonlinear_arith)
                    requires
                        0 <= y < r,
                        0 <= k < row_len <= dst_stride,
                ;
            }
        }
        assert forall|i: int|
            0 <= i < dst.len() && (forall|y: int|
                0 <= y < rows ==> !#[trigger] row_covers(y, dst_stride, row_len, i)) implies #[trigger] cur[i]
            == dst[i] by {
            assert(!row_covers(r as int, dst_stride, row_len, i));
        }
    }
}

/// Copy `height` rows of `row_len` bytes from `src` (rows `src_stride` apart)
/// into `dst` (rows `dst_stride` apart).
///
/// Used by backends when reading back from a mapped GPU staging texture or an
/// IOSurface whose row pitch differs from the tightly packed layout.
pub fn copy_rows(
    src: &[u8],
    src_stride: usize,
    dst: &mut [u8],
    dst_stride: usize,
    row_len: usize,
    height: usize,
) -> (r: Result<()>)
    requires
        height > 0 ==> span(src_stride as int, height as int, row_len as int) <= usize::MAX,
        height > 0 && src@.len() >= span(src_stride as int, height as int, row_len as int) ==> span(
            dst_stride as int,
            height as int,
            row_len as int,
        ) <= usize::MAX,
    ensures
        height == 0 ==> r is Ok && final(dst)@ == old(dst)@,
        height > 0 && src@.len() < span(src_stride as int, height as int, row_len as int) ==> r
            == Err::<(), Error>(
            Error::SizeMismatch {
                expected: span(src_stride as int, height as int, row_len as int) as usize,
                actual: src@.len() as usize,
            },
        ) && final(dst)@ == old(dst)@,
        height > 0 && src@.len() >= span(src_stride as int, height as int, row_len as int)
            && old(dst)@.len() < span(dst_stride as int, height as int, row_len as int) ==> r
            == Err::<(), Error>(
            Error::SizeMismatch {
                expected: span(dst_stride as int, height as int, row_len as int) as usize,
                actual: old(dst)@.len() as usize,
            },
        ) && final(dst)@ == old(dst)@,
        height > 0 && src@.len() >= span(src_stride as int, height as int, row_len as int)
            && old(dst)@.len() >= span(dst_stride as int, height as int, row_len as int) ==> r is Ok
            && final(dst)@ == rows_copied(
            old(dst)@,
            src@,
            src_stride as int,
            dst_stride as int,
            row_len as int,
            height as nat,
        ),
{
    if height == 0 {
        return Ok(());
    }
    let src_required = src_stride * (height - 1) + row_len;
    if src.len() < src_required {
        return Err(Error::SizeMismatch { expected: src_required, actual: src.len() });
    }
    let dst_required = dst_stride * (height - 1) + row_len;
    if dst.len() < dst_required {
        return Err(Error::SizeMismatch { expected: dst_required, actual: dst.len() });
    }
    let ghost start = dst@;
    let src_len = src.len();
    let dst_len = dst.len();
    let mut y: usize = 0;
    while y < height
        invariant
            src_len == src@.len(),
            dst_len == dst@.len(),
            0 < height,
            y <= height,
            src_required == span(src_stride as int, height as int, row_len as int),
            dst_required == span(dst_stride as int, height as int, row_len as int),
            src@.len() >= src_required,
            dst@.len() >= dst_required,
            dst@ == rows_copied(
                start,
                src@,
                src_stride as int,
                dst_stride as int,
                row_len as int,
                y as nat,
            ),
        decreases height - y,
    {
        assert(y * src_stride <= src_stride * (height - 1)) by (nonlinear_arith)
            requires
                y < height,
        ;
        assert(y * dst_stride <= dst_stride * (height - 1)) by (nonlinear_arith)
            requires
                y < height,
        ;
        let s = y * src_stride;
        let d = y * dst_stride;
        let ghost before = dst@;
        let mut k: usize = 0;
        while k < row_len
            invariant
                src_len == src@.len(),
                dst_len == dst@.len(),
                k <= row_len,
                s + row_len <= src@.len(),
                d + row_len <= dst@.len(),
                dst@ == copy_row(before, src@, s as int, d as int, k as int),
            decreases row_len - k,
        {
            dst[d + k] = src[s + k];
            k = k + 1;
            assert(dst@ =~= copy_row(before, src@, s as int, d as int, k as int));
        }
        y = y + 1;
        assert(dst@ =~= rows_copied(
            start,
            src@,
            src_stride as int,
            dst_stride as int,
            row_len as int,
            y as nat,
        ));
    }
    Ok(())
}

/// Copy `height` rows of `row_len` bytes, `src_stride` bytes apart in
/// `src`, tightly packed into `out`, which is resized to `row_len * height`
/// bytes first. This is how a mapped staging texture, a mapped read-back
/// buffer or a locked surface is read into a caller's buffer.
pub fn unpack_rows(src: &[u8], src_stride: usize, row_len: usize, height: usize, out: &mut Vec<u8>) -> (r:
    Result<()>)
    requires
        row_len * height <= usize::MAX,
        height > 0 ==> span(src_stride as int, height as int, row_len as int) <= usize::MAX,
    ensures
        final(out)@.len() == row_len * height,
        match r {
            Ok(()) => {
                &&& height > 0 ==> src@.len() >= span(src_stride as int, height as int, row_len as int)
                &&& forall|y: int, k: int|
                    0 <= y < height && 0 <= k < row_len ==> #[trigger] final(out)@[y * row_len + k]
                        == src@[y * src_stride + k]
            },
            Err(e) => {
                &&& height > 0
                &&& src@.len() < span(src_stride as int, height as int, row_len as int)
                &&& e == Error::SizeMismatch {
                    expected: span(src_stride as int, height as int, row_len as int) as usize,
                    actual: src@.len() as usize,
                }
            },
        },
{
    let len = row_len * height;
    out.resize(len, 0);
    assert(out@.len() == len);
    if height > 0 {
        assert(span(row_len as int, height as int, row_len as int) == row_len * height) by (nonlinear_arith);
    }
    let ghost before = out@;
    let r = copy_rows(src, src_stride, out.as_mut_slice(), row_len, row_len, height);
    proof {
        lemma_rows_copied_pointwise(before, src@, src_stride as int, row_len as int, row_len as int, height as nat);
        if r is Ok {
            assert forall|y: int, k: int|
                0 <= y < height && 0 <= k < row_len implies #[trigger] out@[y * row_len + k]
                    == src@[y * src_stride + k] by {
                assert(y * row_len + k < row_len * height) by (nonlinear_arith)
                    requires
                        0 <= y < height,
                        0 <= k < row_len,
                ;
            }
        }
    }
    r
}

} // verus!

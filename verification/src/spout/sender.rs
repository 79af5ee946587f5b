//! The decisions of a Spout sender: checking its parameters, the record it
//! publishes in its information map, resizing, and counting sent frames.
//!
//! The caller owns the D3D11 device, the shared texture and the kernel
//! objects; a [`SenderState`] holds what the sender publishes.

use vstd::prelude::*;

use crate::error::{Error, Result};
use crate::format::PixelFormat;
use crate::info::{PixelBuffer, SenderInfo};
use crate::spout::frame_count::{saturating_add_two, wrapping_inc, FrameCount};
use crate::spout::layout::{handle_low_bits, SharedTextureInfo, PARTNER_GLDX_COMPATIBLE};
use crate::text::{push_signed_decimal, signed_decimal, string_from_utf8_lossy};

verus! {

/// Message of the error an empty sender name gives.
pub const EMPTY_NAME: &'static str = "sender name must not be empty";

/// Message of the error a zero sender size gives.
pub const ZERO_SIZE: &'static str = "sender size must not be zero";

/// What a Spout sender publishes.
#[derive(Debug)]
pub struct SenderState {
    /// Registered (unique) sender name.
    pub name: String,
    /// Texture width in pixels.
    pub width: u32,
    /// Texture height in pixels.
    pub height: u32,
    /// Texture format.
    pub format: PixelFormat,
    /// Pointer-sized legacy shared handle of the texture.
    pub share_handle: isize,
    /// Path of the sending executable.
    pub description: String,
    /// Frame counting state.
    pub frame: FrameCount,
}

/// Check the parameters of a new sender: a name and a size.
pub fn check_sender_params(name: &str, width: u32, height: u32) -> (r: Result<()>)
    ensures
        match r {
            Ok(()) => name@.len() > 0 && width > 0 && height > 0,
            Err(e) => if name@.len() == 0 {
                e matches Error::InvalidArgument(m) && m@ == EMPTY_NAME@
            } else {
                &&& (width == 0 || height == 0)
                &&& e matches Error::InvalidArgument(m) && m@ == ZERO_SIZE@
            },
        },
{
    if name.unicode_len() == 0 {
        return Err(Error::InvalidArgument(EMPTY_NAME.to_owned()));
    }
    if width == 0 || height == 0 {
        return Err(Error::InvalidArgument(ZERO_SIZE.to_owned()));
    }
    Ok(())
}

/// The text of the executable path the system wrote into `buf`, `len` being
/// the length it reported: `None` when it reported nothing (the caller then
/// asks the standard library), else the bytes reported, as many as `buf`
/// holds, decoded lossily.
pub fn executable_path_text(buf: &[u8], len: usize) -> (r: Option<String>)
    ensures
        match r {
            Some(text) => len > 0 && text@ == crate::text::lossy_utf8(
                buf@.take(if len < buf@.len() { len as int } else { buf@.len() as int }),
            ),
            None => len == 0,
        },
{
    if len == 0 {
        return None;
    }
    let end = if len < buf.len() {
        len
    } else {
        buf.len()
    };
    let bytes = &buf[0..end];
    assert(bytes@ == buf@.take(end as int));
    Some(string_from_utf8_lossy(bytes))
}

/// The message of the error a texture of another format gives: it names
/// the texture's `DXGI_FORMAT` value and the sender's format.
pub open spec fn texture_format_text(dxgi_format: i32, format: PixelFormat) -> Seq<char> {
    "texture format "@ + signed_decimal(dxgi_format as int) + " does not match sender format "@
        + format.debug_name()
}

/// The message for a texture of another format.
fn texture_format_message(dxgi_format: i32, format: PixelFormat) -> (r: String)
    ensures
        r@ == texture_format_text(dxgi_format, format),
{
    let mut m = String::new();
    m.append("texture format ");
    push_signed_decimal(&mut m, dxgi_format);
    m.append(" does not match sender format ");
    m.append(format.name());
    m
}

impl SenderState {
    /// A sender that registered `name` and created a `width` x `height`
    /// texture of `format` with shared handle `share_handle`; it has sent no
    /// frame yet. `frame_enabled` tells whether the registry enables frame
    /// counting.
    pub fn new(
        name: String,
        width: u32,
        height: u32,
        format: PixelFormat,
        share_handle: isize,
        description: String,
        frame_enabled: bool,
    ) -> (r: Self)
        ensures
            r.name == name,
            r.width == width,
            r.height == height,
            r.format == format,
            r.share_handle == share_handle,
            r.description == description,
            r.frame == (FrameCount {
                enabled: frame_enabled,
                has_semaphore: frame_enabled,
                frame_count: 0,
                last_count: None,
            }),
    {
        SenderState {
            name,
            width,
            height,
            format,
            share_handle,
            description,
            frame: FrameCount::new(frame_enabled),
        }
    }

    /// The record the sender writes into its information map: the
    /// truncated handle, the size, the `DXGI_FORMAT`, the executable path
    /// and the GL/DX compatible flag.
    pub fn info_record(&self) -> (r: SharedTextureInfo)
        ensures
            r.share_handle == handle_low_bits(self.share_handle),
            r.width == self.width,
            r.height == self.height,
            r.format == self.format.dxgi_code(),
            r.usage == 0,
            r.description@ == self.description@,
            r.partner_id == PARTNER_GLDX_COMPATIBLE,
    {
        SharedTextureInfo {
            share_handle: SharedTextureInfo::truncate_handle(self.share_handle),
            width: self.width,
            height: self.height,
            format: self.format.dxgi_format(),
            usage: 0,
            description: self.description.clone(),
            partner_id: PARTNER_GLDX_COMPATIBLE,
        }
    }

    /// Description of the sender as seen by receivers.
    pub fn info(&self) -> (r: SenderInfo)
        ensures
            r.id@ == self.name@,
            r.name@ == self.name@,
            r.app_name matches Some(a) && a@ == self.description@,
            r.width == self.width,
            r.height == self.height,
            r.format == self.format,
    {
        SenderInfo {
            id: self.name.clone(),
            name: self.name.clone(),
            app_name: Some(self.description.clone()),
            width: self.width,
            height: self.height,
            format: self.format,
        }
    }

    /// Sender name.
    pub fn name(&self) -> (r: &str)
        ensures
            r@ == self.name@,
    {
        self.name.as_str()
    }

    /// Texture width.
    pub fn width(&self) -> (r: u32)
        ensures
            r == self.width,
    {
        self.width
    }

    /// Texture height.
    pub fn height(&self) -> (r: u32)
        ensures
            r == self.height,
    {
        self.height
    }

    /// Texture format.
    pub fn format(&self) -> (r: PixelFormat)
        ensures
            r == self.format,
    {
        self.format
    }

    /// Frames sent so far.
    pub fn frame_count(&self) -> (r: u64)
        ensures
            r == self.frame.frame_count,
    {
        self.frame.frame_count()
    }

    /// Whether resizing to `width` x `height` needs a new texture: an error
    /// for a zero size, `false` when the size is the current one.
    pub fn resize_needed(&self, width: u32, height: u32) -> (r: Result<bool>)
        ensures
            match r {
                Ok(needed) => {
                    &&& width > 0 && height > 0
                    &&& needed == !(width == self.width && height == self.height)
                },
                Err(e) => {
                    &&& (width == 0 || height == 0)
                    &&& e matches Error::InvalidArgument(m) && m@ == ZERO_SIZE@
                },
            },
    {
        if width == 0 || height == 0 {
            return Err(Error::InvalidArgument(ZERO_SIZE.to_owned()));
        }
        Ok(!(width == self.width && height == self.height))
    }

    /// Switch to the new `width` x `height` texture with handle
    /// `share_handle`; returns the record to write into the information map.
    pub fn apply_resize(&mut self, width: u32, height: u32, share_handle: isize) -> (r:
        SharedTextureInfo)
        ensures
            final(self).width == width,
            final(self).height == height,
            final(self).share_handle == share_handle,
            final(self).name == old(self).name,
            final(self).format == old(self).format,
            final(self).description == old(self).description,
            final(self).frame == old(self).frame,
            r.share_handle == handle_low_bits(share_handle),
            r.width == width,
            r.height == height,
            r.format == old(self).format.dxgi_code(),
            r.usage == 0,
            r.description@ == old(self).description@,
            r.partner_id == PARTNER_GLDX_COMPATIBLE,
    {
        self.width = width;
        self.height = height;
        self.share_handle = share_handle;
        self.info_record()
    }

    /// Check a texture to send: its `DXGI_FORMAT` must be the sender's
    /// (D3D11 cannot copy between formats). Returns whether the sender must
    /// be resized to the texture's size first.
    pub fn check_texture(&self, dxgi_format: i32, width: u32, height: u32) -> (r: Result<bool>)
        ensures
            match r {
                Ok(resize) => {
                    &&& dxgi_format as u32 == self.format.dxgi_code()
                    &&& resize == !(width == self.width && height == self.height)
                },
                Err(e) => {
                    &&& dxgi_format as u32 != self.format.dxgi_code()
                    &&& e matches Error::InvalidArgument(m) && m@ == texture_format_text(
                        dxgi_format,
                        self.format,
                    )
                },
            },
    {
        if dxgi_format as u32 != self.format.dxgi_format() {
            return Err(Error::InvalidArgument(texture_format_message(dxgi_format, self.format)));
        }
        Ok(!(width == self.width && height == self.height))
    }

    /// Check pixels to send: they must be a valid buffer of the sender's
    /// format. Returns whether the sender must be resized to their size
    /// first.
    pub fn check_pixels(&self, pixels: &PixelBuffer) -> (r: Result<bool>)
        requires
            pixels.fits_usize(),
        ensures
            match r {
                Ok(resize) => {
                    &&& pixels.is_valid()
                    &&& pixels.format == self.format
                    &&& resize == !(pixels.width == self.width && pixels.height == self.height)
                },
                Err(e) => if !pixels.is_valid() {
                    pixels.rejects(e)
                } else {
                    pixels.format != self.format && e == Error::InvalidFormat(pixels.format)
                },
            },
    {
        match pixels.validate() {
            Ok(()) => {},
            Err(e) => return Err(e),
        }
        if pixels.format != self.format {
            return Err(Error::InvalidFormat(pixels.format));
        }
        Ok(!(pixels.width == self.width && pixels.height == self.height))
    }

    /// A frame was written to the shared texture. `released` is the previous
    /// count returned by releasing the frame count semaphore (see
    /// [`FrameCount::set_new_frame`]).
    pub fn frame_sent(&mut self, released: Option<i32>)
        ensures
            final(self).frame.frame_count == wrapping_inc(old(self).frame.frame_count),
            final(self).frame.last_count == match released {
                Some(p) => Some(saturating_add_two(p)),
                None => old(self).frame.last_count,
            },
            final(self).frame.enabled == old(self).frame.enabled,
            final(self).frame.has_semaphore == old(self).frame.has_semaphore,
            final(self).name == old(self).name,
            final(self).width == old(self).width,
            final(self).height == old(self).height,
            final(self).format == old(self).format,
            final(self).share_handle == old(self).share_handle,
            final(self).description == old(self).description,
    {
        self.frame.set_new_frame(released);
    }
}

} // verus!

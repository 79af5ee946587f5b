//! Fallback backend for platforms without Spout2 / Syphon: every operation
//! reports that texture sharing is unavailable.

use vstd::prelude::*;

use crate::error::{Error, Result};
use crate::format::PixelFormat;
use crate::info::{FrameInfo, PixelBuffer, SenderInfo};
use crate::options::SenderOptions;
use crate::traits::{DirectoryBackend, ReceiverBackend, SenderBackend};

verus! {

/// Backend identifier.
pub const BACKEND: &'static str = "unsupported";

/// Why every operation of this backend fails.
pub const REASON: &'static str = "texture sharing is only available on Windows (Spout2) and macOS (Syphon)";

/// Stub sender; construction always fails.
#[derive(Debug)]
pub struct Sender {
    _private: (),
}

impl Sender {
    /// Always fails with [`Error::Unsupported`].
    pub fn new(_options: &SenderOptions) -> (r: Result<Self>)
        ensures
            r == Err::<Self, Error>(Error::Unsupported(REASON)),
    {
        Err(Error::Unsupported(REASON))
    }
}

impl SenderBackend for Sender {
    fn name(&self) -> (r: &str)
        ensures
            r@ == Seq::<char>::empty(),
    {
        proof {
            reveal_strlit("");
        }
        ""
    }

    fn id(&self) -> (r: &str)
        ensures
            r@ == Seq::<char>::empty(),
    {
        proof {
            reveal_strlit("");
        }
        ""
    }

    fn width(&self) -> (r: u32)
        ensures
            r == 0,
    {
        0
    }

    fn height(&self) -> (r: u32)
        ensures
            r == 0,
    {
        0
    }

    fn format(&self) -> (r: PixelFormat)
        ensures
            r == PixelFormat::Bgra8Unorm,
    {
        PixelFormat::Bgra8Unorm
    }

    fn resize(&mut self, _width: u32, _height: u32) -> (r: Result<()>)
        ensures
            r == Err::<(), Error>(Error::Unsupported(REASON)),
    {
        Err(Error::Unsupported(REASON))
    }

    fn send_pixels(&mut self, _pixels: PixelBuffer<'_>) -> (r: Result<()>)
        ensures
            r == Err::<(), Error>(Error::Unsupported(REASON)),
    {
        Err(Error::Unsupported(REASON))
    }

    fn frame_count(&self) -> (r: u64)
        ensures
            r == 0,
    {
        0
    }
}

/// Stub receiver; construction always fails.
#[derive(Debug)]
pub struct Receiver {
    _private: (),
}

impl Receiver {
    /// Always fails with [`Error::Unsupported`].
    pub fn new(_target: Option<&str>) -> (r: Result<Self>)
        ensures
            r == Err::<Self, Error>(Error::Unsupported(REASON)),
    {
        Err(Error::Unsupported(REASON))
    }

    /// No-op.
    pub fn set_target(&mut self, _target: Option<&str>) {
    }
}

impl ReceiverBackend for Receiver {
    fn sender_info(&self) -> (r: Option<&SenderInfo>)
        ensures
            r is None,
    {
        None
    }

    fn receive_pixels(&mut self, _out: &mut Vec<u8>) -> (r: Result<Option<FrameInfo>>)
        ensures
            r == Err::<Option<FrameInfo>, Error>(Error::Unsupported(REASON)),
    {
        Err(Error::Unsupported(REASON))
    }

    fn is_frame_new(&self) -> (r: bool)
        ensures
            !r,
    {
        false
    }

    fn frame_id(&self) -> (r: u64)
        ensures
            r == 0,
    {
        0
    }

    fn disconnect(&mut self) {
    }
}

/// Stub directory; construction always fails.
#[derive(Debug)]
pub struct Directory {
    _private: (),
}

impl Directory {
    /// Always fails with [`Error::Unsupported`].
    pub fn new() -> (r: Result<Self>)
        ensures
            r == Err::<Self, Error>(Error::Unsupported(REASON)),
    {
        Err(Error::Unsupported(REASON))
    }
}

impl DirectoryBackend for Directory {
    fn senders(&mut self) -> (r: Result<Vec<SenderInfo>>)
        ensures
            r == Err::<Vec<SenderInfo>, Error>(Error::Unsupported(REASON)),
    {
        Err(Error::Unsupported(REASON))
    }

    fn active_sender(&mut self) -> (r: Result<Option<SenderInfo>>)
        ensures
            r == Err::<Option<SenderInfo>, Error>(Error::Unsupported(REASON)),
    {
        Err(Error::Unsupported(REASON))
    }

    fn set_active_sender(&mut self, _id: &str) -> (r: Result<()>)
        ensures
            r == Err::<(), Error>(Error::Unsupported(REASON)),
    {
        Err(Error::Unsupported(REASON))
    }
}

/// No-op: there are no platform events to process.
pub fn pump_events(_timeout: std::time::Duration) {
}

} // verus!

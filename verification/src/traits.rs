//! The operations every platform backend offers: senders, receivers and
//! directories.

use vstd::prelude::*;

use crate::error::{Error, Result};
use crate::format::PixelFormat;
use crate::info::{FrameInfo, PixelBuffer, SenderInfo};
use crate::text::str_eq;

verus! {

/// How a frame travelled between the application texture and the shared
/// texture. Returned by GPU integrations so callers can detect silent
/// fallbacks.
#[derive(Debug, Clone, Copy, PartialEq, Eq, Structural, Hash)]
pub enum TransferPath {
    /// The shared texture is sampled or written in place (Metal / IOSurface).
    ZeroCopy,
    /// One GPU-side copy between the application texture and the shared texture.
    GpuCopy,
    /// The frame was read back to (or uploaded from) CPU memory.
    CpuCopy,
}

/// A copy of `info` with the same contents.
pub fn copy_sender_info(info: &SenderInfo) -> (r: SenderInfo)
    ensures
        r == *info,
{
    SenderInfo {
        id: info.id.clone(),
        name: info.name.clone(),
        app_name: match &info.app_name {
            Some(a) => Some(a.clone()),
            None => None,
        },
        width: info.width,
        height: info.height,
        format: info.format,
    }
}

/// Whether sender `i` of `senders` is the one a lookup of `needle` picks:
/// the first sender whose identifier is `needle`, or, when no identifier
/// matches, the first sender whose name is `needle`.
pub open spec fn is_lookup_match(senders: Seq<SenderInfo>, needle: Seq<char>, i: int) -> bool {
    ||| senders[i].id@ == needle && forall|j: int| 0 <= j < i ==> senders[j].id@ != needle
    ||| (forall|j: int| 0 <= j < senders.len() ==> senders[j].id@ != needle) && senders[i].name@
        == needle && forall|j: int| 0 <= j < i ==> senders[j].name@ != needle
}

/// Whether `found` is what a lookup of `needle` among `senders` gives: a
/// sender that [`is_lookup_match`] picks, or nothing when no identifier and
/// no name is `needle`.
pub open spec fn is_lookup_result(senders: Seq<SenderInfo>, needle: Seq<char>, found: Option<SenderInfo>) -> bool {
    match found {
        Some(s) => exists|i: int|
            0 <= i < senders.len() && s == senders[i] && is_lookup_match(senders, needle, i),
        None => forall|j: int|
            0 <= j < senders.len() ==> senders[j].id@ != needle && senders[j].name@ != needle,
    }
}

/// Find a sender by identifier, then by name.
pub fn find_sender(senders: &Vec<SenderInfo>, needle: &str) -> (r: Option<SenderInfo>)
    ensures
        match r {
            Some(s) => exists|i: int|
                0 <= i < senders@.len() && s == senders@[i] && is_lookup_match(
                    senders@,
                    needle@,
                    i,
                ),
            None => forall|j: int|
                0 <= j < senders@.len() ==> senders@[j].id@ != needle@ && senders@[j].name@
                    != needle@,
        },
{
    let mut i: usize = 0;
    while i < senders.len()
        invariant
            i <= senders@.len(),
            forall|j: int| 0 <= j < i ==> senders@[j].id@ != needle@,
        decreases senders@.len() - i,
    {
        if str_eq(senders[i].id.as_str(), needle) {
            let found = copy_sender_info(&senders[i]);
            assert(is_lookup_match(senders@, needle@, i as int));
            return Some(found);
        }
        i = i + 1;
    }
    let mut i: usize = 0;
    while i < senders.len()
        invariant
            i <= senders@.len(),
            forall|j: int| 0 <= j < senders@.len() ==> senders@[j].id@ != needle@,
            forall|j: int| 0 <= j < i ==> senders@[j].name@ != needle@,
        decreases senders@.len() - i,
    {
        if str_eq(senders[i].name.as_str(), needle) {
            let found = copy_sender_info(&senders[i]);
            assert(is_lookup_match(senders@, needle@, i as int));
            return Some(found);
        }
        i = i + 1;
    }
    None
}

/// A sender (Spout) / server (Syphon) publishing frames to other processes.
///
/// Constructors are backend specific; the trait covers the operations that are
/// common to every platform. Frames are always described by [`PixelBuffer`]
/// for the CPU path. Backends additionally expose native texture entry points.
pub trait SenderBackend {
    /// Human readable sender name.
    fn name(&self) -> &str;

    /// Stable identifier other processes use to connect (see [`SenderInfo::id`]).
    fn id(&self) -> &str;

    /// Current shared texture width in pixels.
    fn width(&self) -> u32;

    /// Current shared texture height in pixels.
    fn height(&self) -> u32;

    /// Pixel format of the shared texture.
    fn format(&self) -> PixelFormat;

    /// Snapshot of the sender description as seen by receivers.
    ///
    /// The default takes the identifier, name, size and format from the
    /// methods above and leaves the application name out.
    fn info(&self) -> (r: SenderInfo)
        default_ensures
            r.app_name is None,
            exists|s: &str| #[trigger] call_ensures(Self::id, (self,), s) && r.id@ == s@,
            exists|s: &str| #[trigger] call_ensures(Self::name, (self,), s) && r.name@ == s@,
            call_ensures(Self::width, (self,), r.width),
            call_ensures(Self::height, (self,), r.height),
            call_ensures(Self::format, (self,), r.format),
    {
        SenderInfo {
            id: self.id().to_owned(),
            name: self.name().to_owned(),
            app_name: None,
            width: self.width(),
            height: self.height(),
            format: self.format(),
        }
    }

    /// Recreate the shared texture with a new size, keeping the same format.
    fn resize(&mut self, width: u32, height: u32) -> Result<()>;

    /// Publish CPU pixels as the next frame.
    ///
    /// If the geometry of `pixels` differs from the current texture the sender
    /// resizes itself first, as the Spout SDK and the
    /// Syphon framework do. The pixel format must match [`SenderBackend::format`].
    fn send_pixels(&mut self, pixels: PixelBuffer<'_>) -> Result<()>;

    /// Number of frames published since creation.
    fn frame_count(&self) -> u64;

    /// Whether at least one receiver is connected, if the backend can tell.
    ///
    /// Syphon tracks clients explicitly; Spout has no such notion and returns
    /// `None`.
    fn has_receivers(&self) -> (r: Option<bool>)
        default_ensures
            r is None,
    {
        None
    }
}

/// A receiver (Spout) / client (Syphon) consuming frames from a sender.
///
/// Receivers are polled: every call to [`ReceiverBackend::receive_pixels`]
/// checks whether the sender still exists, follows size changes and copies the
/// latest frame when it is new.
pub trait ReceiverBackend {
    /// Description of the sender currently connected, if any.
    fn sender_info(&self) -> Option<&SenderInfo>;

    /// Whether a sender is currently connected.
    fn is_connected(&self) -> (r: bool)
        default_ensures
            exists|s: Option<&SenderInfo>|
                #[trigger] call_ensures(Self::sender_info, (self,), s) && r == s is Some,
    {
        self.sender_info().is_some()
    }

    /// Poll the sender and copy the latest frame into `out` when it is new.
    ///
    /// `out` is resized to the tightly packed frame length. Returns
    /// `Ok(Some(frame))` when a new frame was copied, `Ok(None)` when no new
    /// frame is available (or no sender is connected yet).
    fn receive_pixels(&mut self, out: &mut Vec<u8>) -> Result<Option<FrameInfo>>;

    /// Whether the last poll observed a new frame.
    fn is_frame_new(&self) -> bool;

    /// Identifier of the last received frame (`0` if unknown).
    fn frame_id(&self) -> u64;

    /// Drop the current connection. The next poll reconnects if possible.
    fn disconnect(&mut self);
}

/// Enumerates senders / servers available on the system.
pub trait DirectoryBackend {
    /// All senders currently visible.
    fn senders(&mut self) -> Result<Vec<SenderInfo>>;

    /// Find a sender by identifier or name.
    ///
    /// The default lists the senders and picks from them as [`find_sender`]
    /// does; an error of the listing is handed on.
    fn find(&mut self, name_or_id: &str) -> (r: Result<Option<SenderInfo>>)
        default_ensures
            exists|lister: &mut Self, listed: Result<Vec<SenderInfo>>|
                &*lister == &*old(self) && #[trigger] call_ensures(Self::senders, (lister,), listed) && match listed {
                    Err(e) => r == Err::<Option<SenderInfo>, Error>(e),
                    Ok(senders) => r matches Ok(found) && is_lookup_result(senders@, name_or_id@, found),
                },
    {
        let listed = self.senders();
        match listed {
            Err(e) => Err(e),
            Ok(senders) => Ok(find_sender(&senders, name_or_id)),
        }
    }

    /// The "active" sender: the one selected by the user or, failing that, the
    /// first registered sender. Syphon has no notion of an active server and
    /// returns the first server in the directory.
    fn active_sender(&mut self) -> Result<Option<SenderInfo>>;

    /// Mark a sender as active. No-op on platforms without the concept.
    fn set_active_sender(&mut self, id: &str) -> Result<()>;
}

} // verus!

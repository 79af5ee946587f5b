//! The decisions of a Spout receiver: which sender to follow, when to
//! (re)open its shared texture, and which polled frames are new.
//!
//! The receiver is polled. The caller reads the sender information map and
//! the frame count semaphore, opens shared textures and copies them; a
//! [`ReceiverState`] tells it what to do at each step and keeps what the
//! receiver knows of the sender it is connected to.

use vstd::prelude::*;

use crate::error::{Error, Result};
use crate::format::PixelFormat;
use crate::info::{FrameInfo, SenderInfo};
use crate::spout::frame_count::{after_poll, is_new_frame, FrameCount};
use crate::spout::layout::{SharedTextureInfo, PARTNER_CPU_SHARE};
use crate::text::{same_optional_text, str_eq};

verus! {

/// What a receiver knows of the sender it is connected to.
#[derive(Debug)]
pub struct Connection {
    /// Description of the sender, from its texture and information map.
    pub info: SenderInfo,
    /// The information map the texture was opened from.
    pub raw: SharedTextureInfo,
    /// Frame counting state of the connection.
    pub frame: FrameCount,
}

/// The step an update takes once the sender name and its information map
/// are known.
#[derive(Debug, Clone, Copy, PartialEq, Eq, Structural)]
pub enum UpdateStep {
    /// There is no sender to follow, or it went away: disconnected.
    Gone,
    /// The sender exists but has not published a texture yet.
    NotReady,
    /// The sender shares through CPU memory, which this receiver does not
    /// support: disconnected.
    CpuShare,
    /// Still connected to the same texture.
    Unchanged,
    /// Opening this handle failed before; it is not tried again.
    Failed,
    /// The sender's shared texture must be opened.
    Open,
}

/// Description of an opened shared texture.
#[derive(Debug, Clone, Copy, PartialEq, Eq, Structural)]
pub struct TextureDesc {
    /// Width in pixels.
    pub width: u32,
    /// Height in pixels.
    pub height: u32,
    /// `DXGI_FORMAT` value.
    pub dxgi_format: u32,
}

/// Message of the error a destination texture of the wrong size or format
/// gives.
pub const DESTINATION_MISMATCH: &'static str = "destination texture does not match the sender size / format";

/// State of a Spout receiver.
#[derive(Debug)]
pub struct ReceiverState {
    /// Name of the sender to follow; `None` follows the active sender.
    pub target: Option<String>,
    /// The sender connected to, if any.
    pub connection: Option<Connection>,
    /// Whether the last update connected or changed texture.
    pub updated: bool,
    /// Whether the last receive produced a new frame.
    pub frame_new: bool,
    /// Share handle whose opening failed (or that shares through CPU
    /// memory); it is not tried again until the sender changes it.
    pub failed_handle: Option<u32>,
}

/// Whether the connection `c` is to sender `name` with the texture the
/// information map `raw` describes (same handle, size and format).
pub open spec fn same_texture(c: Connection, name: Seq<char>, raw: SharedTextureInfo) -> bool {
    &&& c.info.name@ == name
    &&& c.raw.share_handle == raw.share_handle
    &&& c.raw.width == raw.width
    &&& c.raw.height == raw.height
    &&& c.raw.format == raw.format
}

/// The step an update takes, given the connection and failed handle before
/// it, the name of the sender to follow (`None` when there is none) and its
/// information map (`None` when the sender does not exist).
pub open spec fn update_step(
    connection: Option<Connection>,
    failed: Option<u32>,
    name: Option<&str>,
    raw: Option<&SharedTextureInfo>,
) -> UpdateStep {
    match name {
        None => UpdateStep::Gone,
        Some(n) => match raw {
            None => UpdateStep::Gone,
            Some(i) => if !(i.width > 0 && i.height > 0 && i.share_handle != 0) {
                UpdateStep::NotReady
            } else if i.partner_id & PARTNER_CPU_SHARE != 0 {
                UpdateStep::CpuShare
            } else if connection matches Some(c) && same_texture(c, n@, *i) {
                UpdateStep::Unchanged
            } else if failed == Some(i.share_handle) {
                UpdateStep::Failed
            } else {
                UpdateStep::Open
            },
        },
    }
}

/// Pixel format of an opened texture: the texture's own format when it is
/// known, else the format of the information map (some senders write 0
/// there), BGRA8 when neither is known.
pub open spec fn opened_format(desc: TextureDesc, raw: SharedTextureInfo) -> PixelFormat {
    match PixelFormat::of_dxgi_code(desc.dxgi_format) {
        Some(f) => f,
        None => match PixelFormat::of_dxgi_code(raw.format) {
            Some(f) => f,
            None => PixelFormat::Bgra8Unorm,
        },
    }
}

/// Frame counting state of a new connection to `name`: the state of the
/// previous connection when it was to the same sender, a fresh one
/// otherwise; either way the next frame reads as new.
pub open spec fn reopened_frame(previous: Option<Connection>, name: Seq<char>, enabled: bool) -> FrameCount {
    match previous {
        Some(c) => if c.info.name@ == name {
            FrameCount { last_count: None, ..c.frame }
        } else {
            FrameCount { enabled, has_semaphore: enabled, frame_count: 0, last_count: None }
        },
        None => FrameCount { enabled, has_semaphore: enabled, frame_count: 0, last_count: None },
    }
}

/// Whether `c` is the connection opened to sender `name` from the
/// information map `raw` and the texture described by `desc`.
pub open spec fn is_opened_connection(
    c: Connection,
    previous: Option<Connection>,
    name: Seq<char>,
    raw: SharedTextureInfo,
    desc: TextureDesc,
    frame_enabled: bool,
) -> bool {
    &&& c.info.id@ == name
    &&& c.info.name@ == name
    &&& match c.info.app_name {
        Some(a) => raw.description@.len() > 0 && a@ == raw.description@,
        None => raw.description@.len() == 0,
    }
    &&& c.info.width == desc.width
    &&& c.info.height == desc.height
    &&& c.info.format == opened_format(desc, raw)
    &&& c.raw == raw
    &&& c.frame == reopened_frame(previous, name, frame_enabled)
}

/// The frame a connection reports: the sender's size and format, and the
/// sender frame number when frame counting is active, else the number of
/// frames received.
pub open spec fn connection_frame(c: Connection) -> FrameInfo {
    FrameInfo {
        width: c.info.width,
        height: c.info.height,
        format: c.info.format,
        frame_id: if c.frame.enabled && c.frame.has_semaphore {
            c.frame.observed_frame()
        } else {
            c.frame.frame_count
        },
    }
}

/// The sender to follow when the receiver has no target: the active sender
/// when its information map exists (`active_has_info`), else `None`, and the
/// caller cleans the sender table and takes its first name.
pub fn resolve_name(target: Option<&str>, active: Option<&str>, active_has_info: bool) -> (r: Option<
    String,
>)
    ensures
        match r {
            Some(n) => match target {
                Some(t) => n@ == t@,
                None => active matches Some(a) && active_has_info && n@ == a@,
            },
            None => target is None && !(active is Some && active_has_info),
        },
{
    match target {
        Some(t) => Some(t.to_owned()),
        None => match active {
            Some(a) => if active_has_info {
                Some(a.to_owned())
            } else {
                None
            },
            None => None,
        },
    }
}

/// The frame a connection reports.
fn frame_of(c: &Connection) -> (r: FrameInfo)
    ensures
        r == connection_frame(*c),
        r.width == c.info.width,
        r.height == c.info.height,
        r.format == c.info.format,
{
    FrameInfo {
        width: c.info.width,
        height: c.info.height,
        format: c.info.format,
        frame_id: if c.frame.is_enabled() {
            c.frame.sender_frame()
        } else {
            c.frame.frame_count()
        },
    }
}

impl ReceiverState {
    /// A connection, when there is one, has no failed handle: a failed
    /// handle is forgotten on connecting and set only while disconnecting.
    pub open spec fn well_formed(&self) -> bool {
        self.connection is Some ==> self.failed_handle is None
    }

    /// A receiver following `target` (`None` = the active sender), not
    /// connected yet.
    pub fn new(target: Option<&str>) -> (r: Self)
        ensures
            same_optional_text(r.target, target),
            r.connection is None,
            !r.updated,
            !r.frame_new,
            r.failed_handle is None,
            r.well_formed(),
    {
        let target = match target {
            Some(t) => Some(t.to_owned()),
            None => None,
        };
        ReceiverState {
            target,
            connection: None,
            updated: false,
            frame_new: false,
            failed_handle: None,
        }
    }

    /// Drop the connection.
    pub fn disconnect(&mut self)
        ensures
            final(self).connection is None,
            !final(self).frame_new,
            final(self).target == old(self).target,
            final(self).updated == old(self).updated,
            final(self).failed_handle == old(self).failed_handle,
            old(self).well_formed() ==> final(self).well_formed(),
    {
        self.connection = None;
        self.frame_new = false;
    }

    /// Forget the connection without touching the frame flag, as when the
    /// resources of a new connection could not be created.
    pub fn drop_connection(&mut self)
        ensures
            final(self).connection is None,
            final(self).frame_new == old(self).frame_new,
            final(self).target == old(self).target,
            final(self).updated == old(self).updated,
            final(self).failed_handle == old(self).failed_handle,
            old(self).well_formed() ==> final(self).well_formed(),
    {
        self.connection = None;
    }

    /// Change the sender to follow (`None` = the active sender). A new
    /// target drops the connection.
    pub fn set_target(&mut self, target: Option<&str>)
        ensures
            same_optional_text(final(self).target, target),
            same_optional_text(old(self).target, target) ==> final(self).connection == old(
                self,
            ).connection && final(self).frame_new == old(self).frame_new,
            !same_optional_text(old(self).target, target) ==> final(self).connection is None
                && !final(self).frame_new,
            final(self).updated == old(self).updated,
            final(self).failed_handle == old(self).failed_handle,
            old(self).well_formed() ==> final(self).well_formed(),
    {
        let same = match (&self.target, target) {
            (Some(t), Some(u)) => str_eq(t.as_str(), u),
            (None, None) => true,
            _ => false,
        };
        if !same {
            self.target = match target {
                Some(u) => Some(u.to_owned()),
                None => None,
            };
            self.disconnect();
        }
    }

    /// First step of an update, once the name of the sender to follow
    /// (`None` when there is none) and its information map (`None` when the
    /// sender does not exist) are known.
    ///
    /// Clears the updated flag. Disconnects unless the receiver stays on the
    /// same texture or is to open a new one: when the sender is gone, has
    /// not published a texture yet, shares through CPU memory (its handle is
    /// then remembered as failed) or offers a handle that failed before.
    /// So after [`UpdateStep::Unchanged`] the receiver is connected, and
    /// after any step but [`UpdateStep::Open`] it is connected exactly then.
    /// On [`UpdateStep::Open`] the caller opens the texture of `raw` and
    /// calls [`ReceiverState::finish_open`].
    pub fn begin_update(&mut self, name: Option<&str>, raw: Option<&SharedTextureInfo>) -> (r:
        UpdateStep)
        ensures
            r == update_step(old(self).connection, old(self).failed_handle, name, raw),
            !final(self).updated,
            final(self).target == old(self).target,
            r == UpdateStep::Unchanged || r == UpdateStep::Open ==> final(self).connection
                == old(self).connection && final(self).frame_new == old(self).frame_new,
            !(r == UpdateStep::Unchanged || r == UpdateStep::Open) ==> final(self).connection
                is None && !final(self).frame_new,
            final(self).failed_handle == if r == UpdateStep::CpuShare {
                Some(raw.unwrap().share_handle)
            } else {
                old(self).failed_handle
            },
            old(self).well_formed() ==> final(self).well_formed(),
    {
        self.updated = false;
        let (name, raw) = match (name, raw) {
            (Some(n), Some(i)) => (n, i),
            _ => {
                self.disconnect();
                return UpdateStep::Gone;
            },
        };
        if !raw.is_valid() {
            self.disconnect();
            return UpdateStep::NotReady;
        }
        if raw.is_cpu_share() {
            self.failed_handle = Some(raw.share_handle);
            self.disconnect();
            return UpdateStep::CpuShare;
        }
        let same = match &self.connection {
            Some(c) => str_eq(c.info.name.as_str(), name) && c.raw.share_handle == raw.share_handle
                && c.raw.width == raw.width && c.raw.height == raw.height && c.raw.format
                == raw.format,
            None => false,
        };
        if same {
            return UpdateStep::Unchanged;
        }
        if self.failed_handle == Some(raw.share_handle) {
            self.disconnect();
            return UpdateStep::Failed;
        }
        UpdateStep::Open
    }

    /// Whether a new connection to `name` keeps the frame count semaphore
    /// and access mutex of the current connection (it does when the
    /// current connection is to the same sender).
    pub fn reuses_connection(&self, name: &str) -> (r: bool)
        ensures
            r == (self.connection matches Some(c) && c.info.name@ == name@),
    {
        match &self.connection {
            Some(c) => str_eq(c.info.name.as_str(), name),
            None => false,
        }
    }

    /// Last step of an update that opened the texture of `raw` for sender
    /// `name`: `opened` describes the texture, or is `None` when it could
    /// not be opened. `frame_enabled` tells whether the registry enables
    /// frame counting (used for a connection to another sender).
    ///
    /// Returns whether the receiver is connected. A failed open remembers
    /// the handle and disconnects; a successful one connects, sets the
    /// updated flag and forgets the failed handle.
    pub fn finish_open(
        &mut self,
        name: &str,
        raw: SharedTextureInfo,
        opened: Option<TextureDesc>,
        frame_enabled: bool,
    ) -> (connected: bool)
        ensures
            connected == opened is Some,
            final(self).target == old(self).target,
            match opened {
                Some(desc) => {
                    &&& final(self).connection matches Some(c) && is_opened_connection(
                        c,
                        old(self).connection,
                        name@,
                        raw,
                        desc,
                        frame_enabled,
                    )
                    &&& final(self).updated
                    &&& final(self).failed_handle is None
                    &&& final(self).frame_new == old(self).frame_new
                },
                None => {
                    &&& final(self).connection is None
                    &&& !final(self).frame_new
                    &&& final(self).updated == old(self).updated
                    &&& final(self).failed_handle == Some(raw.share_handle)
                },
            },
            old(self).well_formed() ==> final(self).well_formed(),
    {
        let desc = match opened {
            Some(desc) => desc,
            None => {
                self.failed_handle = Some(raw.share_handle);
                self.disconnect();
                return false;
            },
        };
        let format = match PixelFormat::from_dxgi_format(desc.dxgi_format) {
            Some(f) => f,
            None => raw.pixel_format(),
        };
        let mut frame = match &self.connection {
            Some(c) => if str_eq(c.info.name.as_str(), name) {
                c.frame
            } else {
                FrameCount::new(frame_enabled)
            },
            None => FrameCount::new(frame_enabled),
        };
        frame.reset();
        let app_name = if raw.description.as_str().unicode_len() == 0 {
            None
        } else {
            Some(raw.description.clone())
        };
        let info = SenderInfo {
            id: name.to_owned(),
            name: name.to_owned(),
            app_name,
            width: desc.width,
            height: desc.height,
            format,
        };
        self.connection = Some(Connection { info, raw, frame });
        self.updated = true;
        self.failed_handle = None;
        true
    }

    /// Whether the destination texture of a receive (its size and
    /// `DXGI_FORMAT`) matches the connected sender.
    pub fn check_destination(&self, width: u32, height: u32, dxgi_format: u32) -> (r: Result<()>)
        requires
            self.connection is Some,
        ensures
            ({
                let c = self.connection.unwrap();
                match r {
                    Ok(()) => width == c.info.width && height == c.info.height && dxgi_format
                        == c.info.format.dxgi_code(),
                    Err(e) => {
                        &&& !(width == c.info.width && height == c.info.height && dxgi_format
                            == c.info.format.dxgi_code())
                        &&& e matches Error::InvalidArgument(m) && m@ == DESTINATION_MISMATCH@
                    },
                }
            }),
    {
        match &self.connection {
            Some(c) => {
                if width != c.info.width || height != c.info.height || dxgi_format
                    != c.info.format.dxgi_format() {
                    return Err(Error::InvalidArgument(DESTINATION_MISMATCH.to_owned()));
                }
                Ok(())
            },
            None => Ok(()),
        }
    }

    /// A receive that produced no frame (not connected, or the texture was
    /// busy).
    pub fn skip_frame(&mut self)
        ensures
            !final(self).frame_new,
            final(self).connection == old(self).connection,
            final(self).target == old(self).target,
            final(self).updated == old(self).updated,
            final(self).failed_handle == old(self).failed_handle,
            old(self).well_formed() ==> final(self).well_formed(),
    {
        self.frame_new = false;
    }

    /// Poll the frame count of the connection while holding the texture:
    /// `observed` is the count read from the semaphore (`None` when frame
    /// counting is off or the semaphore could not be read). Returns whether
    /// the frame is new; when it is not, the frame flag is cleared.
    pub fn poll_frame(&mut self, observed: Option<i32>) -> (r: bool)
        requires
            old(self).connection is Some,
        ensures
            ({
                let c = old(self).connection.unwrap();
                &&& r == is_new_frame(c.frame.last_count, observed)
                &&& final(self).connection == Some(
                    Connection { frame: after_poll(c.frame, observed), ..c },
                )
            }),
            final(self).frame_new == (r && old(self).frame_new),
            final(self).target == old(self).target,
            final(self).updated == old(self).updated,
            final(self).failed_handle == old(self).failed_handle,
            old(self).well_formed() ==> final(self).well_formed(),
    {
        let is_new = match &mut self.connection {
            Some(c) => c.frame.get_new_frame(observed),
            None => false,
        };
        if !is_new {
            self.frame_new = false;
        }
        is_new
    }

    /// A new frame was copied out of the connection: sets the frame flag and
    /// returns the frame's description.
    pub fn complete_frame(&mut self) -> (r: FrameInfo)
        requires
            old(self).connection is Some,
        ensures
            r == connection_frame(old(self).connection.unwrap()),
            r.width == old(self).connection.unwrap().info.width,
            r.height == old(self).connection.unwrap().info.height,
            r.format == old(self).connection.unwrap().info.format,
            final(self).frame_new,
            final(self).connection == old(self).connection,
            final(self).target == old(self).target,
            final(self).updated == old(self).updated,
            final(self).failed_handle == old(self).failed_handle,
            old(self).well_formed() ==> final(self).well_formed(),
    {
        self.frame_new = true;
        match &self.connection {
            Some(c) => frame_of(c),
            None => FrameInfo { width: 0, height: 0, format: PixelFormat::Bgra8Unorm, frame_id: 0 },
        }
    }

    /// Identifier of the latest frame (0 when not connected).
    pub fn frame_id(&self) -> (r: u64)
        ensures
            r == match self.connection {
                Some(c) => connection_frame(c).frame_id,
                None => 0,
            },
    {
        match &self.connection {
            Some(c) => frame_of(c).frame_id,
            None => 0,
        }
    }

    /// The connected sender, if any.
    pub fn sender_info(&self) -> (r: Option<&SenderInfo>)
        ensures
            match self.connection {
                Some(c) => r == Some(&c.info),
                None => r is None,
            },
    {
        match &self.connection {
            Some(c) => Some(&c.info),
            None => None,
        }
    }

    /// Whether the last update connected to a sender or changed texture.
    pub fn is_updated(&self) -> (r: bool)
        ensures
            r == self.updated,
    {
        self.updated
    }

    /// Whether the last receive produced a new frame.
    pub fn is_frame_new(&self) -> (r: bool)
        ensures
            r == self.frame_new,
    {
        self.frame_new
    }
}

/// A receiver connected to a sender stays connected to it while the
/// sender's information map keeps describing the same texture: the next
/// update leaves the connection as it is.
pub proof fn lemma_connection_is_kept(
    previous: Option<Connection>,
    name: &str,
    raw: SharedTextureInfo,
    desc: TextureDesc,
    frame_enabled: bool,
    c: Connection,
    failed: Option<u32>,
)
    requires
        is_opened_connection(c, previous, name@, raw, desc, frame_enabled),
        raw.width > 0 && raw.height > 0 && raw.share_handle != 0,
        raw.partner_id & PARTNER_CPU_SHARE == 0,
    ensures
        update_step(Some(c), failed, Some(name), Some(&raw)) == UpdateStep::Unchanged,
{
}

/// A handle whose opening failed is not tried again while the sender keeps
/// publishing it: the next update of a disconnected receiver stops there.
pub proof fn lemma_failed_handle_not_retried(name: &str, raw: SharedTextureInfo)
    requires
        raw.width > 0 && raw.height > 0 && raw.share_handle != 0,
        raw.partner_id & PARTNER_CPU_SHARE == 0,
    ensures
        update_step(None, Some(raw.share_handle), Some(name), Some(&raw)) == UpdateStep::Failed,
{
}

/// A frame received over a connection has the size and format of the
/// texture the connection opened: its width and height are those of the
/// opened texture, its format the format the texture was opened with.
pub proof fn lemma_frame_has_texture_size(
    c: Connection,
    previous: Option<Connection>,
    name: Seq<char>,
    raw: SharedTextureInfo,
    desc: TextureDesc,
    frame_enabled: bool,
)
    requires
        is_opened_connection(c, previous, name, raw, desc, frame_enabled),
    ensures
        connection_frame(c).width == desc.width,
        connection_frame(c).height == desc.height,
        connection_frame(c).format == opened_format(desc, raw),
        connection_frame(c).width == c.info.width,
        connection_frame(c).height == c.info.height,
{
}

} // verus!

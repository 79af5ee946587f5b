//! The decisions of a Syphon client: what server messages signal, following
//! the server's surface, and telling new frames apart.
//!
//! The server's messages arrive on a messaging thread, which records them
//! in shared signals (the surface id announced, a new frame flag, the
//! retired flag). The caller owns those signals, the message ports and the
//! looked up IOSurface; a [`ClientState`] decides what they mean.

use vstd::prelude::*;

use crate::error::{Error, Result};
use crate::format::PixelFormat;
use crate::info::{FrameInfo, SenderInfo};
use crate::spout::frame_count::wrapping_inc;
use crate::syphon::constants::{ClientMessage, ServerMessage};
use crate::syphon::description::ServerDescription;
use crate::syphon::message::{Message, Payload};

verus! {

/// Message of the error connecting to a server without an IOSurface gives.
pub const NO_IOSURFACE: &'static str = "server does not offer an IOSurface";

/// What a message from the server tells the client.
#[derive(Debug, Clone, Copy, PartialEq, Eq, Structural)]
pub enum ServerSignal {
    /// A new frame is in the surface.
    NewFrame,
    /// The server published the surface with this id; its content is new.
    Surface(u32),
    /// The server is going away.
    Retired,
    /// Nothing the client acts on (a name change, an unknown message, or a
    /// surface update without a number).
    Ignored,
}

/// The signals a client's messaging thread records.
#[derive(Debug, Clone, Copy, PartialEq, Eq, Structural)]
pub struct ClientSignals {
    /// Latest surface id announced (0 before any).
    pub surface_id: u32,
    /// Whether a frame arrived that was not received yet.
    pub new_frame: bool,
    /// Whether the server retired.
    pub retired: bool,
}

/// The surface a client follows.
#[derive(Debug, Clone, Copy, PartialEq, Eq, Structural)]
pub struct SurfaceGeometry {
    /// Surface id.
    pub id: u32,
    /// Width in pixels.
    pub width: u32,
    /// Height in pixels.
    pub height: u32,
}

/// The step an update takes.
#[derive(Debug, Clone, Copy, PartialEq, Eq, Structural)]
pub enum ClientStep {
    /// The server retired: the surface is dropped; no surface.
    Retired,
    /// Settled: whether a surface is available.
    Ready(bool),
    /// The server announced another surface: the caller looks this id up
    /// and calls [`ClientState::finish_lookup`].
    Lookup(u32),
}

/// The signal a server message carries.
pub open spec fn signal_of(message: Message) -> ServerSignal {
    if message.id == ServerMessage::NewFrame.wire_id() {
        ServerSignal::NewFrame
    } else if message.id == ServerMessage::UpdateSurfaceId.wire_id() {
        match message.payload {
            Payload::Number(n) => ServerSignal::Surface(n as u32),
            _ => ServerSignal::Ignored,
        }
    } else if message.id == ServerMessage::RetireServer.wire_id() {
        ServerSignal::Retired
    } else {
        ServerSignal::Ignored
    }
}

/// The signals after one more server signal.
pub open spec fn signalled(s: ClientSignals, signal: ServerSignal) -> ClientSignals {
    match signal {
        ServerSignal::NewFrame => ClientSignals { new_frame: true, ..s },
        ServerSignal::Surface(id) => ClientSignals { surface_id: id, new_frame: true, ..s },
        ServerSignal::Retired => ClientSignals { retired: true, ..s },
        ServerSignal::Ignored => s,
    }
}

/// What a message from the server signals.
pub fn server_signal(message: &Message) -> (r: ServerSignal)
    ensures
        r == signal_of(*message),
{
    match ServerMessage::from_id(message.id) {
        Some(ServerMessage::NewFrame) => ServerSignal::NewFrame,
        Some(ServerMessage::UpdateSurfaceId) => match message.payload.as_number() {
            Some(n) => ServerSignal::Surface(n as u32),
            None => ServerSignal::Ignored,
        },
        Some(ServerMessage::RetireServer) => ServerSignal::Retired,
        Some(ServerMessage::UpdateServerName) => ServerSignal::Ignored,
        None => ServerSignal::Ignored,
    }
}

impl ClientSignals {
    /// Signals of a client that heard nothing yet.
    pub fn new() -> (r: Self)
        ensures
            r == (ClientSignals { surface_id: 0, new_frame: false, retired: false }),
    {
        ClientSignals { surface_id: 0, new_frame: false, retired: false }
    }

    /// Record what a server message signals.
    pub fn record(&mut self, message: &Message)
        ensures
            *final(self) == signalled(*old(self), signal_of(*message)),
    {
        match server_signal(message) {
            ServerSignal::NewFrame => {
                self.new_frame = true;
            },
            ServerSignal::Surface(id) => {
                self.surface_id = id;
                self.new_frame = true;
            },
            ServerSignal::Retired => {
                self.retired = true;
            },
            ServerSignal::Ignored => {},
        }
    }
}

/// Check that a client can connect to `server`: it must offer an IOSurface.
pub fn check_connectable(server: &ServerDescription) -> (r: Result<()>)
    ensures
        match r {
            Ok(()) => server.offers_iosurface(),
            Err(e) => !server.offers_iosurface() && e == Error::Unsupported(NO_IOSURFACE),
        },
{
    if !server.supports_iosurface() {
        return Err(Error::Unsupported(NO_IOSURFACE));
    }
    Ok(())
}

/// The messages a client sends its server on connecting, in order: it asks
/// for surface updates, then for frames. Each carries the client's UUID.
pub fn greeting() -> (r: Vec<ClientMessage>)
    ensures
        r@ == seq![ClientMessage::AddClientForInfo, ClientMessage::AddClientForFrames],
{
    let mut r: Vec<ClientMessage> = Vec::new();
    r.push(ClientMessage::AddClientForInfo);
    r.push(ClientMessage::AddClientForFrames);
    r
}

/// The messages a client sends its server when it goes away, in order:
/// none when the server retired, else it stops frames, then surface updates.
pub fn farewell(retired: bool) -> (r: Vec<ClientMessage>)
    ensures
        r@ == if retired {
            Seq::<ClientMessage>::empty()
        } else {
            seq![ClientMessage::RemoveClientForFrames, ClientMessage::RemoveClientForInfo]
        },
{
    let mut r: Vec<ClientMessage> = Vec::new();
    if !retired {
        r.push(ClientMessage::RemoveClientForFrames);
        r.push(ClientMessage::RemoveClientForInfo);
    }
    r
}

/// What a Syphon client knows of its server.
#[derive(Debug)]
pub struct ClientState {
    /// Description of the server, with the surface size once known.
    pub info: SenderInfo,
    /// The surface followed, if any.
    pub surface: Option<SurfaceGeometry>,
    /// Seed of the surface when its last frame was received.
    pub last_seed: Option<u32>,
    /// Number of frames received.
    pub frame_id: u64,
    /// Whether the last receive produced a new frame.
    pub frame_new: bool,
}

/// Whether a new frame is waiting: the messaging thread saw one, or the
/// surface's seed moved since the last receive (messages may be coalesced),
/// or no frame was received from this surface yet.
pub open spec fn frame_waiting(s: ClientState, new_frame: bool, seed: u32) -> bool {
    new_frame || match s.surface {
        Some(_) => match s.last_seed {
            Some(last) => seed != last,
            None => true,
        },
        None => false,
    }
}

impl ClientState {
    /// A client of `server` that follows no surface yet.
    pub fn new(server: &ServerDescription) -> (r: Self)
        ensures
            r.info.id@ == server.uuid@,
            r.info.name@ == server.display_name(),
            server.app_name@.len() == 0 ==> r.info.app_name is None,
            server.app_name@.len() > 0 ==> (r.info.app_name matches Some(a) && a@
                == server.app_name@),
            r.info.width == 0,
            r.info.height == 0,
            r.info.format == PixelFormat::Bgra8Unorm,
            r.surface is None,
            r.last_seed is None,
            r.frame_id == 0,
            !r.frame_new,
    {
        ClientState {
            info: server.to_sender_info(0, 0),
            surface: None,
            last_seed: None,
            frame_id: 0,
            frame_new: false,
        }
    }

    /// Whether the client holds a surface of a server that did not retire.
    pub fn is_connected(&self, retired: bool) -> (r: bool)
        ensures
            r == (!retired && self.surface is Some),
    {
        !retired && self.surface.is_some()
    }

    /// First step of an update, given whether the server retired and the
    /// latest surface id it announced (0 before any).
    pub fn begin_update(&mut self, retired: bool, surface_id: u32) -> (r: ClientStep)
        ensures
            r == if retired {
                ClientStep::Retired
            } else if surface_id == 0 {
                ClientStep::Ready(old(self).surface is Some)
            } else if old(self).surface matches Some(g) && g.id == surface_id {
                ClientStep::Ready(true)
            } else {
                ClientStep::Lookup(surface_id)
            },
            retired ==> final(self).surface is None,
            !retired ==> final(self).surface == old(self).surface,
            final(self).info == old(self).info,
            final(self).last_seed == old(self).last_seed,
            final(self).frame_id == old(self).frame_id,
            final(self).frame_new == old(self).frame_new,
    {
        if retired {
            self.surface = None;
            return ClientStep::Retired;
        }
        if surface_id == 0 {
            return ClientStep::Ready(self.surface.is_some());
        }
        match self.surface {
            Some(g) => if g.id == surface_id {
                return ClientStep::Ready(true);
            },
            None => {},
        }
        ClientStep::Lookup(surface_id)
    }

    /// Last step of an update that looked surface `id` up: `found` holds its
    /// size, or is `None` when the lookup failed. Returns whether a surface
    /// is available; when it is, the caller raises the new frame signal (a
    /// new surface always holds a frame not received yet).
    pub fn finish_lookup(&mut self, id: u32, found: Option<(u32, u32)>) -> (r: bool)
        ensures
            r == found is Some,
            match found {
                Some((w, h)) => {
                    &&& final(self).surface == Some(SurfaceGeometry { id, width: w, height: h })
                    &&& final(self).info.width == w
                    &&& final(self).info.height == h
                    &&& final(self).info.format == PixelFormat::Bgra8Unorm
                    &&& final(self).info.id == old(self).info.id
                    &&& final(self).info.name == old(self).info.name
                    &&& final(self).info.app_name == old(self).info.app_name
                    &&& final(self).last_seed is None
                },
                None => {
                    &&& final(self).surface is None
                    &&& final(self).info == old(self).info
                    &&& final(self).last_seed == old(self).last_seed
                },
            },
            final(self).frame_id == old(self).frame_id,
            final(self).frame_new == old(self).frame_new,
    {
        match found {
            Some((w, h)) => {
                self.info.width = w;
                self.info.height = h;
                self.info.format = PixelFormat::Bgra8Unorm;
                self.surface = Some(SurfaceGeometry { id, width: w, height: h });
                self.last_seed = None;
                true
            },
            None => {
                self.surface = None;
                false
            },
        }
    }

    /// Whether a new frame is waiting, given the new frame signal and the
    /// current seed of the surface.
    pub fn has_new_frame(&self, new_frame: bool, seed: u32) -> (r: bool)
        ensures
            r == frame_waiting(*self, new_frame, seed),
    {
        if new_frame {
            return true;
        }
        match (self.surface, self.last_seed) {
            (Some(_), Some(last)) => seed != last,
            (Some(_), None) => true,
            _ => false,
        }
    }

    /// A receive that produced no frame.
    pub fn skip_frame(&mut self)
        ensures
            !final(self).frame_new,
            final(self).info == old(self).info,
            final(self).surface == old(self).surface,
            final(self).last_seed == old(self).last_seed,
            final(self).frame_id == old(self).frame_id,
    {
        self.frame_new = false;
    }

    /// A frame was taken from the surface while its seed was `seed` (the
    /// caller clears the new frame signal): counts it and returns its
    /// description.
    pub fn take_frame(&mut self, seed: u32) -> (r: FrameInfo)
        ensures
            final(self).last_seed == Some(seed),
            final(self).frame_id == wrapping_inc(old(self).frame_id),
            final(self).frame_new,
            final(self).info == old(self).info,
            final(self).surface == old(self).surface,
            r == (FrameInfo {
                width: old(self).info.width,
                height: old(self).info.height,
                format: PixelFormat::Bgra8Unorm,
                frame_id: wrapping_inc(old(self).frame_id),
            }),
    {
        self.last_seed = Some(seed);
        self.frame_id = if self.frame_id == u64::MAX {
            0
        } else {
            self.frame_id + 1
        };
        self.frame_new = true;
        self.frame_info()
    }

    /// Description of the latest frame.
    pub fn frame_info(&self) -> (r: FrameInfo)
        ensures
            r == (FrameInfo {
                width: self.info.width,
                height: self.info.height,
                format: PixelFormat::Bgra8Unorm,
                frame_id: self.frame_id,
            }),
    {
        FrameInfo {
            width: self.info.width,
            height: self.info.height,
            format: PixelFormat::Bgra8Unorm,
            frame_id: self.frame_id,
        }
    }

    /// Number of frames received.
    pub fn frame_id(&self) -> (r: u64)
        ensures
            r == self.frame_id,
    {
        self.frame_id
    }

    /// Whether the last receive produced a new frame.
    pub fn is_frame_new(&self) -> (r: bool)
        ensures
            r == self.frame_new,
    {
        self.frame_new
    }

    /// Description of the server with the surface size.
    pub fn sender_info(&self) -> (r: &SenderInfo)
        ensures
            r == &self.info,
    {
        &self.info
    }
}

/// A frame taken from a surface is not taken again: once received at seed
/// `s`, with no new frame signal and the seed unchanged, no frame is
/// waiting; a moved seed or a new frame signal makes one wait.
pub proof fn lemma_frame_taken_once(c: ClientState, seed: u32, other: u32)
    requires
        c.surface is Some,
        c.last_seed == Some(seed),
    ensures
        !frame_waiting(c, false, seed),
        other != seed ==> frame_waiting(c, false, other),
        frame_waiting(c, true, seed),
{
}

/// What the messaging thread records is kept until the client acts on it:
/// retirement is final, a surface announcement sets the surface and raises
/// the frame signal, and no message lowers the frame signal.
pub proof fn lemma_signals_accumulate(s: ClientSignals, signal: ServerSignal)
    ensures
        s.retired ==> signalled(s, signal).retired,
        s.new_frame ==> signalled(s, signal).new_frame,
        signal matches ServerSignal::Surface(id) ==> signalled(s, signal).surface_id == id
            && signalled(s, signal).new_frame,
{
}

} // verus!

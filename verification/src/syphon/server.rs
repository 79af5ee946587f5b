//! The decisions of a Syphon server: its options, the lists of clients it
//! serves, the replies to client messages, renaming, resizing the surface
//! and counting published frames.
//!
//! The caller owns the message ports, the notification observers and the
//! IOSurface; the client lists are shared with the messaging thread under
//! a lock the caller holds.

use vstd::prelude::*;

use crate::error::{Error, Result};
use crate::format::PixelFormat;
use crate::info::{PixelBuffer, SenderInfo};
use crate::spout::frame_count::wrapping_inc;
use crate::syphon::constants::{ClientMessage, ServerMessage, DICTIONARY_VERSION, SURFACE_TYPE_IOSURFACE};
use crate::syphon::description::ServerDescription;
use crate::syphon::message::{Message, Payload};
use crate::text::{str_eq, texts};

verus! {

/// Options for a Syphon server.
#[derive(Debug, Clone, Copy, Default, PartialEq, Eq, Structural)]
pub struct ServerOptions {
    /// Do not broadcast the server (`SyphonServerOptionIsPrivate`). Clients
    /// that know the UUID can still connect.
    pub private: bool,
}

/// A message to send to one client.
#[derive(Debug)]
pub struct Reply {
    /// UUID of the client (the name of its port).
    pub client: String,
    /// Message id.
    pub message: ServerMessage,
    /// Payload.
    pub payload: Payload,
}

/// The clients a server serves: those that asked for surface updates
/// (`info`) and those that asked for frames (`frames`), each UUID once.
#[derive(Debug)]
pub struct ClientLists {
    /// Clients of surface updates and retirement.
    pub info: Vec<String>,
    /// Clients of new frame notifications.
    pub frames: Vec<String>,
}

/// Whether no UUID occurs twice in `list`.
pub open spec fn distinct(list: Seq<String>) -> bool {
    forall|i: int, j: int| 0 <= i < j < list.len() ==> list[i]@ != list[j]@
}

/// The UUIDs of `list`, in order.
pub open spec fn uuids(list: Seq<String>) -> Seq<Seq<char>> {
    list.map_values(|s: String| s@)
}

/// The UUIDs of `list`.
pub open spec fn uuid_set(list: Seq<String>) -> Set<Seq<char>> {
    uuids(list).to_set()
}

/// A UUID is in the set of a list exactly when some member has it.
pub(crate) proof fn lemma_uuid_set(list: Seq<String>, x: Seq<char>)
    ensures
        uuid_set(list).contains(x) <==> exists|k: int| 0 <= k < list.len() && #[trigger] list[k]@ == x,
{
    if uuid_set(list).contains(x) {
        let k = choose|k: int| 0 <= k < uuids(list).len() && #[trigger] uuids(list)[k] == x;
        assert(list[k]@ == x);
    }
    if exists|k: int| 0 <= k < list.len() && #[trigger] list[k]@ == x {
        let k = choose|k: int| 0 <= k < list.len() && #[trigger] list[k]@ == x;
        assert(uuids(list)[k] == x);
    }
}

/// The client a message comes from: its UUID, when the message id is a
/// client message and the payload is text.
pub open spec fn client_uuid(message: Message) -> Option<Seq<char>> {
    if 0 <= message.id <= 3 {
        match message.payload {
            Payload::Text(u) => Some(u@),
            _ => None,
        }
    } else {
        None
    }
}

/// The clients of `list` kept after a broadcast: those whose message was
/// delivered.
pub open spec fn delivered_clients(list: Seq<String>, delivered: Seq<bool>) -> Seq<String>
    decreases list.len(),
{
    if list.len() == 0 || delivered.len() == 0 {
        seq![]
    } else {
        let rest = delivered_clients(list.drop_last(), delivered.drop_last());
        if delivered.last() {
            rest.push(list.last())
        } else {
            rest
        }
    }
}

/// Position of `uuid` in `list`, if it is there.
fn position(list: &Vec<String>, uuid: &str) -> (r: Option<usize>)
    ensures
        match r {
            Some(i) => i < list@.len() && list@[i as int]@ == uuid@,
            None => forall|j: int| 0 <= j < list@.len() ==> list@[j]@ != uuid@,
        },
{
    let mut i: usize = 0;
    while i < list.len()
        invariant
            i <= list@.len(),
            forall|j: int| 0 <= j < i ==> list@[j]@ != uuid@,
        decreases list@.len() - i,
    {
        if str_eq(list[i].as_str(), uuid) {
            return Some(i);
        }
        i = i + 1;
    }
    None
}

/// Add `uuid` to `list` unless it is there.
pub(crate) fn add_uuid(list: &mut Vec<String>, uuid: &str)
    requires
        distinct(old(list)@),
    ensures
        distinct(final(list)@),
        uuid_set(final(list)@) == uuid_set(old(list)@).insert(uuid@),
{
    let ghost before = old(list)@;
    match position(list, uuid) {
        Some(i) => {
            proof {
                lemma_uuid_set(before, uuid@);
            }
            assert(uuid_set(before).insert(uuid@) =~= uuid_set(before));
        },
        None => {
            list.push(uuid.to_owned());
            let ghost after = list@;
            assert forall|i: int, j: int| 0 <= i < j < after.len() implies after[i]@
                != after[j]@ by {
                if j == after.len() - 1 {
                    assert(after[i] == before[i]);
                }
            }
            assert forall|x: Seq<char>| #[trigger] uuid_set(after).contains(x) <==> uuid_set(
                before,
            ).insert(uuid@).contains(x) by {
                lemma_uuid_set(before, x);
                lemma_uuid_set(after, x);
                if exists|k: int| 0 <= k < after.len() && #[trigger] after[k]@ == x {
                    let k = choose|k: int| 0 <= k < after.len() && #[trigger] after[k]@ == x;
                    if k < before.len() {
                        assert(before[k]@ == x);
                    }
                }
                if exists|k: int| 0 <= k < before.len() && #[trigger] before[k]@ == x {
                    let k = choose|k: int| 0 <= k < before.len() && #[trigger] before[k]@ == x;
                    assert(after[k]@ == x);
                }
                if x == uuid@ {
                    assert(after[after.len() - 1]@ == x);
                }
            }
            assert(uuid_set(after) =~= uuid_set(before).insert(uuid@));
        },
    }
}

/// Remove `uuid` from `list`.
pub(crate) fn remove_uuid(list: &mut Vec<String>, uuid: &str)
    requires
        distinct(old(list)@),
    ensures
        distinct(final(list)@),
        uuid_set(final(list)@) == uuid_set(old(list)@).remove(uuid@),
{
    let ghost before = old(list)@;
    match position(list, uuid) {
        Some(i) => {
            list.remove(i);
            let ghost after = list@;
            assert(after =~= before.subrange(0, i as int) + before.subrange(
                i + 1,
                before.len() as int,
            ));
            assert forall|a: int, b: int| 0 <= a < b < after.len() implies after[a]@
                != after[b]@ by {
                let a0 = if a < i {
                    a
                } else {
                    a + 1
                };
                let b0 = if b < i {
                    b
                } else {
                    b + 1
                };
                assert(after[a] == before[a0]);
                assert(after[b] == before[b0]);
            }
            assert forall|x: Seq<char>| #[trigger] uuid_set(after).contains(x) <==> uuid_set(
                before,
            ).remove(uuid@).contains(x) by {
                lemma_uuid_set(before, x);
                lemma_uuid_set(after, x);
                if exists|k: int| 0 <= k < after.len() && #[trigger] after[k]@ == x {
                    let k = choose|k: int| 0 <= k < after.len() && #[trigger] after[k]@ == x;
                    let k0 = if k < i {
                        k
                    } else {
                        k + 1
                    };
                    assert(after[k] == before[k0]);
                    assert(before[k0]@ == x);
                    assert(k0 != i);
                }
                if x != uuid@ && exists|k: int| 0 <= k < before.len() && #[trigger] before[k]@ == x {
                    let k = choose|k: int| 0 <= k < before.len() && #[trigger] before[k]@ == x;
                    assert(k != i);
                    let k1 = if k < i {
                        k
                    } else {
                        k - 1
                    };
                    assert(after[k1] == before[k]);
                }
            }
            assert(uuid_set(after) =~= uuid_set(before).remove(uuid@));
        },
        None => {
            proof {
                lemma_uuid_set(before, uuid@);
            }
            assert(uuid_set(before).remove(uuid@) =~= uuid_set(before));
        },
    }
}

impl ClientLists {
    /// Both lists hold each UUID once.
    pub open spec fn well_formed(&self) -> bool {
        distinct(self.info@) && distinct(self.frames@)
    }

    /// No client yet.
    pub fn new() -> (r: Self)
        ensures
            r.info@.len() == 0,
            r.frames@.len() == 0,
            r.well_formed(),
    {
        ClientLists { info: Vec::new(), frames: Vec::new() }
    }

    /// Whether any client asked for frames.
    pub fn has_clients(&self) -> (r: bool)
        ensures
            r == (self.frames@.len() > 0),
    {
        self.frames.len() > 0
    }

    /// Handle a message from a client, given the id of the surface the
    /// server publishes (0 when none): a client asking for surface updates
    /// is told the current surface, a client asking for frames is told a
    /// frame is waiting, removals take the client off its list. Messages
    /// of unknown id or without a client UUID are ignored. Returns the reply
    /// to send, if any.
    pub fn handle_client_message(&mut self, message: &Message, surface_id: u32) -> (r: Option<
        Reply,
    >)
        requires
            old(self).well_formed(),
        ensures
            final(self).well_formed(),
            match client_uuid(*message) {
                Some(uuid) => {
                    &&& uuid_set(final(self).info@) == if message.id
                        == ClientMessage::AddClientForInfo.wire_id() {
                        uuid_set(old(self).info@).insert(uuid)
                    } else if message.id == ClientMessage::RemoveClientForInfo.wire_id() {
                        uuid_set(old(self).info@).remove(uuid)
                    } else {
                        uuid_set(old(self).info@)
                    }
                    &&& uuid_set(final(self).frames@) == if message.id
                        == ClientMessage::AddClientForFrames.wire_id() {
                        uuid_set(old(self).frames@).insert(uuid)
                    } else if message.id == ClientMessage::RemoveClientForFrames.wire_id() {
                        uuid_set(old(self).frames@).remove(uuid)
                    } else {
                        uuid_set(old(self).frames@)
                    }
                    &&& match r {
                        Some(reply) => {
                            &&& surface_id != 0
                            &&& reply.client@ == uuid
                            &&& if message.id == ClientMessage::AddClientForInfo.wire_id() {
                                &&& reply.message == ServerMessage::UpdateSurfaceId
                                &&& reply.payload == Payload::Number(surface_id as i64)
                            } else {
                                &&& message.id == ClientMessage::AddClientForFrames.wire_id()
                                &&& reply.message == ServerMessage::NewFrame
                                &&& reply.payload == Payload::Empty
                            }
                        },
                        None => surface_id == 0 || !(message.id
                            == ClientMessage::AddClientForInfo.wire_id() || message.id
                            == ClientMessage::AddClientForFrames.wire_id()),
                    }
                },
                None => {
                    &&& final(self).info@ == old(self).info@
                    &&& final(self).frames@ == old(self).frames@
                    &&& r is None
                },
            },
    {
        let kind = match ClientMessage::from_id(message.id) {
            Some(k) => k,
            None => return None,
        };
        let uuid = match message.payload.as_text() {
            Some(u) => u,
            None => return None,
        };
        match kind {
            ClientMessage::AddClientForInfo => {
                add_uuid(&mut self.info, uuid);
                if surface_id != 0 {
                    Some(
                        Reply {
                            client: uuid.to_owned(),
                            message: ServerMessage::UpdateSurfaceId,
                            payload: Payload::Number(surface_id as i64),
                        },
                    )
                } else {
                    None
                }
            },
            ClientMessage::AddClientForFrames => {
                add_uuid(&mut self.frames, uuid);
                if surface_id != 0 {
                    Some(
                        Reply {
                            client: uuid.to_owned(),
                            message: ServerMessage::NewFrame,
                            payload: Payload::Empty,
                        },
                    )
                } else {
                    None
                }
            },
            ClientMessage::RemoveClientForInfo => {
                remove_uuid(&mut self.info, uuid);
                None
            },
            ClientMessage::RemoveClientForFrames => {
                remove_uuid(&mut self.frames, uuid);
                None
            },
        }
    }

    /// Keep the clients of a broadcast whose message was delivered:
    /// `delivered[i]` tells whether the message reached client `i` of the
    /// frame clients (`frames`) or of the info clients.
    pub fn keep_delivered(&mut self, frames: bool, delivered: &[bool])
        requires
            old(self).well_formed(),
            delivered@.len() == if frames {
                old(self).frames@.len()
            } else {
                old(self).info@.len()
            },
        ensures
            final(self).well_formed(),
            frames ==> final(self).frames@ == delivered_clients(old(self).frames@, delivered@)
                && final(self).info@ == old(self).info@,
            !frames ==> final(self).info@ == delivered_clients(old(self).info@, delivered@)
                && final(self).frames@ == old(self).frames@,
    {
        if frames {
            let kept = retain_delivered(&self.frames, delivered);
            self.frames = kept;
        } else {
            let kept = retain_delivered(&self.info, delivered);
            self.info = kept;
        }
    }
}

/// Keeping some members of a list of distinct UUIDs keeps them distinct.
proof fn lemma_delivered_distinct(list: Seq<String>, delivered: Seq<bool>)
    requires
        distinct(list),
        delivered.len() == list.len(),
    ensures
        distinct(delivered_clients(list, delivered)),
        forall|k: int|
            0 <= k < delivered_clients(list, delivered).len() ==> list.contains(
                #[trigger] delivered_clients(list, delivered)[k],
            ),
    decreases list.len(),
{
    if list.len() > 0 {
        let rest_list = list.drop_last();
        let rest_flags = delivered.drop_last();
        assert forall|i: int, j: int| 0 <= i < j < rest_list.len() implies rest_list[i]@
            != rest_list[j]@ by {
            assert(rest_list[i] == list[i] && rest_list[j] == list[j]);
        }
        lemma_delivered_distinct(rest_list, rest_flags);
        let rest = delivered_clients(rest_list, rest_flags);
        assert forall|k: int| 0 <= k < rest.len() implies list.contains(#[trigger] rest[k]) by {
            let m = choose|m: int| 0 <= m < rest_list.len() && rest_list[m] == rest[k];
            assert(list[m] == rest[k]);
        }
        if delivered.last() {
            let all = rest.push(list.last());
            assert forall|i: int, j: int| 0 <= i < j < all.len() implies all[i]@ != all[j]@ by {
                if j == all.len() - 1 {
                    assert(rest_list.contains(rest[i]));
                    let m = choose|m: int| 0 <= m < rest_list.len() && rest_list[m] == rest[i];
                    assert(list[m] == rest[i]);
                    assert(m < list.len() - 1);
                }
            }
            assert forall|k: int| 0 <= k < all.len() implies list.contains(#[trigger] all[k]) by {
                if k == all.len() - 1 {
                    assert(list[list.len() - 1] == all[k]);
                } else {
                    assert(all[k] == rest[k]);
                }
            }
        }
    }
}

/// The members of `list` whose flag in `delivered` is set, in order.
fn retain_delivered(list: &Vec<String>, delivered: &[bool]) -> (r: Vec<String>)
    requires
        distinct(list@),
        delivered@.len() == list@.len(),
    ensures
        r@ == delivered_clients(list@, delivered@),
        distinct(r@),
{
    let mut r: Vec<String> = Vec::new();
    let mut i: usize = 0;
    while i < list.len()
        invariant
            i <= list@.len(),
            delivered@.len() == list@.len(),
            r@ == delivered_clients(list@.take(i as int), delivered@.take(i as int)),
        decreases list@.len() - i,
    {
        assert(list@.take(i + 1).drop_last() =~= list@.take(i as int));
        assert(delivered@.take(i + 1).drop_last() =~= delivered@.take(i as int));
        if delivered[i] {
            r.push(list[i].clone());
            assert(list@.take(i + 1).last() == list@[i as int]);
        }
        i = i + 1;
    }
    assert(list@.take(list@.len() as int) =~= list@);
    assert(delivered@.take(list@.len() as int) =~= delivered@);
    proof {
        lemma_delivered_distinct(list@, delivered@);
    }
    r
}

/// What a Syphon server publishes.
#[derive(Debug)]
pub struct ServerState {
    /// The published description.
    pub desc: ServerDescription,
    /// Server options.
    pub options: ServerOptions,
    /// Id of the published surface.
    pub surface_id: u32,
    /// Surface width.
    pub width: u32,
    /// Surface height.
    pub height: u32,
    /// Frames published.
    pub frame_count: u64,
}

/// Message of the error a zero surface size gives.
pub const ZERO_SURFACE: &'static str = "surface size must not be zero";

/// Check the size of a new surface.
pub fn check_surface_size(width: u32, height: u32) -> (r: Result<()>)
    ensures
        match r {
            Ok(()) => width > 0 && height > 0,
            Err(e) => {
                &&& (width == 0 || height == 0)
                &&& e matches Error::InvalidArgument(m) && m@ == ZERO_SURFACE@
            },
        },
{
    if width == 0 || height == 0 {
        return Err(Error::InvalidArgument(ZERO_SURFACE.to_owned()));
    }
    Ok(())
}

/// Check the format of a Syphon sender: surfaces are BGRA8 (linear).
pub fn check_server_format(format: PixelFormat) -> (r: Result<()>)
    ensures
        match r {
            Ok(()) => format == PixelFormat::Bgra8Unorm,
            Err(e) => format != PixelFormat::Bgra8Unorm && e == Error::InvalidFormat(format),
        },
{
    if !format.is_syphon_compatible() {
        return Err(Error::InvalidFormat(format));
    }
    Ok(())
}

impl ServerState {
    /// A server `uuid` named `name`, hosted by `app_name`, publishing the
    /// `width` x `height` surface `surface_id`; no frame published yet.
    pub fn new(
        uuid: &str,
        name: &str,
        app_name: &str,
        options: ServerOptions,
        surface_id: u32,
        width: u32,
        height: u32,
    ) -> (r: Self)
        ensures
            r.desc.uuid@ == uuid@,
            r.desc.name@ == name@,
            r.desc.app_name@ == app_name@,
            r.desc.version == DICTIONARY_VERSION,
            texts(r.desc.surfaces@) == seq![SURFACE_TYPE_IOSURFACE@],
            r.desc.offers_iosurface(),
            r.options == options,
            r.surface_id == surface_id,
            r.width == width,
            r.height == height,
            r.frame_count == 0,
    {
        let desc = ServerDescription::new(uuid, name, app_name);
        assert(desc.surfaces@.map_values(|s: String| s@)[0] == SURFACE_TYPE_IOSURFACE@);
        ServerState { desc, options, surface_id, width, height, frame_count: 0 }
    }

    /// Whether the server broadcasts itself (it is not private).
    pub fn is_announced(&self) -> (r: bool)
        ensures
            r == !self.options.private,
    {
        !self.options.private
    }

    /// Server name.
    pub fn name(&self) -> (r: &str)
        ensures
            r@ == self.desc.name@,
    {
        self.desc.name.as_str()
    }

    /// Server UUID.
    pub fn id(&self) -> (r: &str)
        ensures
            r@ == self.desc.uuid@,
    {
        self.desc.uuid.as_str()
    }

    /// Surface width.
    pub fn width(&self) -> (r: u32)
        ensures
            r == self.width,
    {
        self.width
    }

    /// Surface height.
    pub fn height(&self) -> (r: u32)
        ensures
            r == self.height,
    {
        self.height
    }

    /// Surfaces are BGRA8.
    pub fn format(&self) -> (r: PixelFormat)
        ensures
            r == PixelFormat::Bgra8Unorm,
    {
        PixelFormat::Bgra8Unorm
    }

    /// Frames published.
    pub fn frame_count(&self) -> (r: u64)
        ensures
            r == self.frame_count,
    {
        self.frame_count
    }

    /// Description of the server as seen by receivers.
    pub fn info(&self) -> (r: SenderInfo)
        ensures
            r.id@ == self.desc.uuid@,
            r.name@ == self.desc.display_name(),
            self.desc.app_name@.len() == 0 ==> r.app_name is None,
            self.desc.app_name@.len() > 0 ==> (r.app_name matches Some(a) && a@
                == self.desc.app_name@),
            r.width == self.width,
            r.height == self.height,
            r.format == PixelFormat::Bgra8Unorm,
    {
        self.desc.to_sender_info(self.width, self.height)
    }

    /// Rename the server. Returns `None` when the name is unchanged, else
    /// the payload to broadcast to info clients (the new name); the caller
    /// also posts an update notification when the server is announced.
    pub fn rename(&mut self, name: &str) -> (r: Option<Payload>)
        ensures
            old(self).desc.name@ == name@ ==> r is None && final(self).desc == old(self).desc,
            old(self).desc.name@ != name@ ==> {
                &&& r matches Some(Payload::Text(t)) && t@ == name@
                &&& final(self).desc.name@ == name@
                &&& final(self).desc.uuid == old(self).desc.uuid
                &&& final(self).desc.app_name == old(self).desc.app_name
                &&& final(self).desc.version == old(self).desc.version
                &&& final(self).desc.surfaces == old(self).desc.surfaces
            },
            final(self).options == old(self).options,
            final(self).surface_id == old(self).surface_id,
            final(self).width == old(self).width,
            final(self).height == old(self).height,
            final(self).frame_count == old(self).frame_count,
    {
        if str_eq(self.desc.name.as_str(), name) {
            return None;
        }
        self.desc.name = name.to_owned();
        Some(Payload::Text(name.to_owned()))
    }

    /// Whether publishing a `width` x `height` frame needs a new surface.
    pub fn surface_change_needed(&self, width: u32, height: u32) -> (r: bool)
        ensures
            r == !(width == self.width && height == self.height),
    {
        !(width == self.width && height == self.height)
    }

    /// Switch to the new surface `id` of `width` x `height`; returns the
    /// payload to broadcast to info clients (the surface id).
    pub fn replace_surface(&mut self, id: u32, width: u32, height: u32) -> (r: Payload)
        ensures
            r == Payload::Number(id as i64),
            final(self).surface_id == id,
            final(self).width == width,
            final(self).height == height,
            final(self).desc == old(self).desc,
            final(self).options == old(self).options,
            final(self).frame_count == old(self).frame_count,
    {
        self.surface_id = id;
        self.width = width;
        self.height = height;
        Payload::Number(id as i64)
    }

    /// A frame was published: counts it. The caller tells the frame
    /// clients.
    pub fn frame_published(&mut self)
        ensures
            final(self).frame_count == wrapping_inc(old(self).frame_count),
            final(self).desc == old(self).desc,
            final(self).options == old(self).options,
            final(self).surface_id == old(self).surface_id,
            final(self).width == old(self).width,
            final(self).height == old(self).height,
    {
        self.frame_count = if self.frame_count == u64::MAX {
            0
        } else {
            self.frame_count + 1
        };
    }

    /// Check pixels to publish: a valid BGRA8 buffer.
    pub fn check_pixels(pixels: &PixelBuffer) -> (r: Result<()>)
        requires
            pixels.fits_usize(),
        ensures
            match r {
                Ok(()) => pixels.is_valid() && pixels.format == PixelFormat::Bgra8Unorm,
                Err(e) => if !pixels.is_valid() {
                    pixels.rejects(e)
                } else {
                    &&& pixels.format != PixelFormat::Bgra8Unorm
                    &&& e == Error::InvalidFormat(pixels.format)
                },
            },
    {
        match pixels.validate() {
            Ok(()) => {},
            Err(e) => return Err(e),
        }
        check_server_format(pixels.format)
    }
}

} // verus!

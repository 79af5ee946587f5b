//! Protocol constants shared with the Syphon framework.
//!
//! The string values are part of the wire protocol: they are the distributed
//! notification names, dictionary keys and `CFMessagePort` message ids that
//! existing Syphon servers and clients exchange.

use vstd::prelude::*;
use vstd::utf8::{encode_scalar, encode_utf8, leading_byte_width_1};

use crate::text::lemma_encode_utf8_concat;

verus! {

/// Prefix of every Syphon identifier (`info.v002.Syphon`).
pub const IDENTIFIER: &'static str = "info.v002.Syphon";

/// Distributed notification: a directory asks every server to announce itself.
pub const NOTIFICATION_ANNOUNCE_REQUEST: &'static str = "info.v002.Syphon.ServerAnnounceRequest";

/// Distributed notification: a server announces itself (`userInfo` = description).
pub const NOTIFICATION_ANNOUNCE: &'static str = "info.v002.Syphon.ServerAnnounce";

/// Distributed notification: a server changed its description (e.g. name).
pub const NOTIFICATION_UPDATE: &'static str = "info.v002.Syphon.ServerUpdate";

/// Distributed notification: a server stopped.
pub const NOTIFICATION_RETIRE: &'static str = "info.v002.Syphon.ServerRetire";

/// Description key: dictionary format version (`u32`).
pub const KEY_DICTIONARY_VERSION: &'static str = "SyphonServerDescriptionDictionaryVersionKey";

/// Description key: server UUID string (`info.v002.Syphon.<UUID>`).
pub const KEY_UUID: &'static str = "SyphonServerDescriptionUUIDKey";

/// Description key: user visible server name.
pub const KEY_NAME: &'static str = "SyphonServerDescriptionNameKey";

/// Description key: name of the hosting application.
pub const KEY_APP_NAME: &'static str = "SyphonServerDescriptionAppNameKey";

/// Description key: array of surface descriptions.
pub const KEY_SURFACES: &'static str = "SyphonServerDescriptionSurfacesKey";

/// Description key: application icon (added by directories, never sent).
pub const KEY_ICON: &'static str = "SyphonServerDescriptionIconKey";

/// Surface description key.
pub const KEY_SURFACE_TYPE: &'static str = "SyphonSurfaceType";

/// Surface description value for IOSurface backed servers.
pub const SURFACE_TYPE_IOSURFACE: &'static str = "SyphonSurfaceTypeIOSurface";

/// Current description dictionary version.
pub const DICTIONARY_VERSION: u32 = 0;

/// Messages a client sends to a server (`CFMessagePort` msgid, in
/// declaration order from 0).
#[derive(Debug, Clone, Copy, PartialEq, Eq, Structural)]
pub enum ClientMessage {
    /// Payload: client UUID. Receive `UpdateSurfaceID` / `RetireServer`.
    AddClientForInfo,
    /// Payload: client UUID. Receive `NewFrame`.
    AddClientForFrames,
    /// Payload: client UUID.
    RemoveClientForInfo,
    /// Payload: client UUID.
    RemoveClientForFrames,
}

impl ClientMessage {
    /// The message id on the wire.
    pub open spec fn wire_id(self) -> i32 {
        match self {
            ClientMessage::AddClientForInfo => 0,
            ClientMessage::AddClientForFrames => 1,
            ClientMessage::RemoveClientForInfo => 2,
            ClientMessage::RemoveClientForFrames => 3,
        }
    }

    /// The message id on the wire.
    pub fn id(self) -> (r: i32)
        ensures
            r == self.wire_id(),
    {
        match self {
            ClientMessage::AddClientForInfo => 0,
            ClientMessage::AddClientForFrames => 1,
            ClientMessage::RemoveClientForInfo => 2,
            ClientMessage::RemoveClientForFrames => 3,
        }
    }

    /// Decode a message id.
    pub fn from_id(id: i32) -> (r: Option<Self>)
        ensures
            match r {
                Some(m) => m.wire_id() == id,
                None => !(0 <= id <= 3),
            },
    {
        match id {
            0 => Some(ClientMessage::AddClientForInfo),
            1 => Some(ClientMessage::AddClientForFrames),
            2 => Some(ClientMessage::RemoveClientForInfo),
            3 => Some(ClientMessage::RemoveClientForFrames),
            _ => None,
        }
    }
}

/// Messages a server sends to a client (`CFMessagePort` msgid, in
/// declaration order from 0).
#[derive(Debug, Clone, Copy, PartialEq, Eq, Structural)]
pub enum ServerMessage {
    /// Payload: new name. Ignored by current clients.
    UpdateServerName,
    /// No payload. A new frame is available in the surface.
    NewFrame,
    /// Payload: `IOSurfaceID` (`u32`). The surface was (re)created.
    UpdateSurfaceId,
    /// No payload. The server is going away.
    RetireServer,
}

impl ServerMessage {
    /// The message id on the wire.
    pub open spec fn wire_id(self) -> i32 {
        match self {
            ServerMessage::UpdateServerName => 0,
            ServerMessage::NewFrame => 1,
            ServerMessage::UpdateSurfaceId => 2,
            ServerMessage::RetireServer => 3,
        }
    }

    /// The message id on the wire.
    pub fn id(self) -> (r: i32)
        ensures
            r == self.wire_id(),
    {
        match self {
            ServerMessage::UpdateServerName => 0,
            ServerMessage::NewFrame => 1,
            ServerMessage::UpdateSurfaceId => 2,
            ServerMessage::RetireServer => 3,
        }
    }

    /// Decode a message id.
    pub fn from_id(id: i32) -> (r: Option<Self>)
        ensures
            match r {
                Some(m) => m.wire_id() == id,
                None => !(0 <= id <= 3),
            },
    {
        match id {
            0 => Some(ServerMessage::UpdateServerName),
            1 => Some(ServerMessage::NewFrame),
            2 => Some(ServerMessage::UpdateSurfaceId),
            3 => Some(ServerMessage::RetireServer),
            _ => None,
        }
    }
}

/// Message ids identify messages: every message has its own id, and every
/// id in `0..4` belongs to exactly one message of each direction.
pub proof fn lemma_message_ids(c: ClientMessage, s: ServerMessage, id: i32)
    ensures
        0 <= c.wire_id() <= 3,
        0 <= s.wire_id() <= 3,
        0 <= id <= 3 ==> exists|m: ClientMessage| m.wire_id() == id,
        0 <= id <= 3 ==> exists|m: ServerMessage| m.wire_id() == id,
        forall|a: ClientMessage, b: ClientMessage| a.wire_id() == b.wire_id() ==> a == b,
        forall|a: ServerMessage, b: ServerMessage| a.wire_id() == b.wire_id() ==> a == b,
{
    if id == 0 {
        assert(ClientMessage::AddClientForInfo.wire_id() == id);
        assert(ServerMessage::UpdateServerName.wire_id() == id);
    } else if id == 1 {
        assert(ClientMessage::AddClientForFrames.wire_id() == id);
        assert(ServerMessage::NewFrame.wire_id() == id);
    } else if id == 2 {
        assert(ClientMessage::RemoveClientForInfo.wire_id() == id);
        assert(ServerMessage::UpdateSurfaceId.wire_id() == id);
    } else if id == 3 {
        assert(ClientMessage::RemoveClientForFrames.wire_id() == id);
        assert(ServerMessage::RetireServer.wire_id() == id);
    }
}

/// The text of a Syphon UUID string for the bare UUID `bare`.
pub open spec fn uuid_text(bare: Seq<char>) -> Seq<char> {
    IDENTIFIER@ + seq!['.'] + bare
}

/// Whether 36 bytes have the shape of a UUID: hex digits with dashes at
/// positions 8, 13, 18 and 23.
pub open spec fn is_uuid_shape(b: Seq<u8>) -> bool {
    &&& b.len() == 36
    &&& forall|i: int|
        0 <= i < 36 ==> if i == 8 || i == 13 || i == 18 || i == 23 {
            b[i] == 0x2d
        } else {
            is_hex_digit(#[trigger] b[i])
        }
}

/// Whether a byte is an ASCII hex digit.
pub open spec fn is_hex_digit(b: u8) -> bool {
    (0x30 <= b <= 0x39) || (0x41 <= b <= 0x46) || (0x61 <= b <= 0x66)
}

/// Whether the UTF-8 bytes `b` are a Syphon UUID string: the identifier,
/// a `.`, then a UUID.
pub open spec fn is_uuid_bytes(b: Seq<u8>) -> bool {
    let prefix = encode_utf8(IDENTIFIER@);
    &&& b.len() == prefix.len() + 37
    &&& b.take(prefix.len() as int) == prefix
    &&& b[prefix.len() as int] == 0x2e
    &&& is_uuid_shape(b.skip(prefix.len() as int + 1))
}

/// Build a Syphon UUID string from a bare UUID (`XXXXXXXX-XXXX-...`).
pub fn uuid_string(bare_uuid: &str) -> (r: String)
    ensures
        r@ == uuid_text(bare_uuid@),
{
    let mut s = IDENTIFIER.to_owned();
    proof {
        reveal_strlit(".");
    }
    s.append(".");
    s.append(bare_uuid);
    s
}

/// Whether `s` has the shape of a Syphon UUID string.
pub fn is_uuid_string(s: &str) -> (r: bool)
    ensures
        r == is_uuid_bytes(encode_utf8(s@)),
{
    let b = s.as_bytes();
    let prefix = IDENTIFIER.as_bytes();
    let n = prefix.len();
    let blen = b.len();
    if blen < n || blen - n != 37 {
        return false;
    }
    let mut i: usize = 0;
    while i < n
        invariant
            b@ == encode_utf8(s@),
            prefix@ == encode_utf8(IDENTIFIER@),
            b@.len() == n + 37,
            n == prefix@.len(),
            i <= n,
            forall|j: int| 0 <= j < i ==> b@[j] == prefix@[j],
        decreases n - i,
    {
        if b[i] != prefix[i] {
            assert(b@.take(n as int)[i as int] != prefix@[i as int]);
            return false;
        }
        i = i + 1;
    }
    assert(b@.take(n as int) =~= prefix@);
    if b[n] != 0x2e {
        return false;
    }
    let mut k: usize = 0;
    while k < 36
        invariant
            b@ == encode_utf8(s@),
            prefix@ == encode_utf8(IDENTIFIER@),
            b@.take(n as int) == prefix@,
            b@[n as int] == 0x2e,
            blen == b@.len(),
            b@.len() == n + 37,
            k <= 36,
            forall|j: int|
                0 <= j < k ==> if j == 8 || j == 13 || j == 18 || j == 23 {
                    b@[n + 1 + j] == 0x2d
                } else {
                    is_hex_digit(#[trigger] b@[n + 1 + j])
                },
        decreases 36 - k,
    {
        let c = b[n + 1 + k];
        let ok = if k == 8 || k == 13 || k == 18 || k == 23 {
            c == 0x2d
        } else {
            (0x30 <= c && c <= 0x39) || (0x41 <= c && c <= 0x46) || (0x61 <= c && c <= 0x66)
        };
        if !ok {
            assert(b@.skip(n + 1)[k as int] == c);
            return false;
        }
        k = k + 1;
    }
    assert forall|j: int| 0 <= j < 36 implies (if j == 8 || j == 13 || j == 18 || j == 23 {
        b@.skip(n + 1)[j] == 0x2d
    } else {
        is_hex_digit(#[trigger] b@.skip(n + 1)[j])
    }) by {
        assert(b@.skip(n + 1)[j] == b@[n + 1 + j]);
    }
    true
}

/// A UUID string built from a bare UUID is recognised as one exactly when
/// the bare UUID has the shape of a UUID.
pub proof fn lemma_uuid_string_recognised(bare: Seq<char>)
    ensures
        is_uuid_bytes(encode_utf8(uuid_text(bare))) == is_uuid_shape(encode_utf8(bare)),
{
    let id = IDENTIFIER@;
    lemma_encode_utf8_concat(id + seq!['.'], bare);
    lemma_encode_utf8_concat(id, seq!['.']);
    let prefix = encode_utf8(id);
    let dot = encode_utf8(seq!['.']);
    assert(seq!['.'].drop_first() =~= Seq::<char>::empty());
    assert('.' as u32 == 0x2e);
    assert((0x2eu32 & 0x7f) as u8 == 0x2eu8) by (bit_vector);
    assert(encode_utf8(Seq::<char>::empty()) =~= Seq::<u8>::empty());
    assert(dot == encode_scalar(0x2e) + encode_utf8(seq!['.'].drop_first()));
    assert(encode_scalar(0x2e) == seq![leading_byte_width_1(0x2e)]);
    assert(dot =~= seq![0x2eu8]);
    let all = encode_utf8(uuid_text(bare));
    assert(all =~= prefix + dot + encode_utf8(bare));
    assert(all.take(prefix.len() as int) =~= prefix);
    assert(all.skip(prefix.len() as int + 1) =~= encode_utf8(bare));
}

} // verus!

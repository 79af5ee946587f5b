//! Wire formats of the Spout2 shared memory maps.
//!
//! Everything in this module is plain byte manipulation with no OS
//! dependencies.

use vstd::prelude::*;
use vstd::relations::injective_on;
use vstd::set_lib::{lemma_int_range, lemma_len_subset, lemma_map_size, set_int_range};
use vstd::utf8::*;

use crate::format::PixelFormat;
use crate::text::{
    decimal, is_digit_char, lemma_decimal, lemma_decimal_injective, lemma_decimal_len, push_decimal, str_eq, str_texts, texts,
    c_len, c_string_image, c_string_value, lemma_c_len_is, lemma_c_string_round_trip,
    lemma_encode_utf8_no_nul,    string_from_utf8_lossy,
};

verus! {

/// Length of one sender name slot including the NUL terminator.
pub const MAX_SENDER_NAME_LEN: usize = 256;

/// Default number of sender name slots when the registry has no `MaxSenders`.
pub const DEFAULT_MAX_SENDERS: usize = 64;

/// Size in bytes of the per-sender `SharedTextureInfo` memory map.
pub const SHARED_TEXTURE_INFO_LEN: usize = 280;

/// Name of the memory map holding the sender name table.
pub const SENDER_NAMES_MAP: &'static str = "SpoutSenderNames";

/// Name of the memory map holding the active sender name.
pub const ACTIVE_SENDER_MAP: &'static str = "ActiveSenderName";

/// `partnerId` flag: the sender shares via CPU memory rather than a texture.
pub const PARTNER_CPU_SHARE: u32 = 0x8000_0000;

/// `partnerId` flag: the sender texture is compatible with GL/DX interop.
pub const PARTNER_GLDX_COMPATIBLE: u32 = 0x4000_0000;

/// Length of the `description` field.
const DESCRIPTION_LEN: usize = 256;

/// The little-endian `u32` stored at `off`.
pub open spec fn le_u32_at(b: Seq<u8>, off: int) -> int {
    b[off] + b[off + 1] * 0x100 + b[off + 2] * 0x1_0000 + b[off + 3] * 0x100_0000
}

/// The four little-endian bytes of `v`.
pub open spec fn le_bytes(v: u32) -> Seq<u8> {
    seq![
        (v % 0x100) as u8,
        (v / 0x100 % 0x100) as u8,
        (v / 0x1_0000 % 0x100) as u8,
        (v / 0x100_0000) as u8,
    ]
}

/// Reading back the little-endian bytes of `v` gives `v`.
pub proof fn lemma_le_round_trip(v: u32)
    ensures
        le_bytes(v).len() == 4,
        le_u32_at(le_bytes(v), 0) == v,
{
    assert((v % 0x100) as u8 + (v / 0x100 % 0x100) as u8 * 0x100 + (v / 0x1_0000 % 0x100) as u8
        * 0x1_0000 + (v / 0x100_0000) as u8 * 0x100_0000 == v) by (bit_vector);
}

/// Read the little-endian `u32` at `off`.
fn read_u32_le(bytes: &[u8], off: usize) -> (r: u32)
    requires
        off + 4 <= bytes@.len(),
    ensures
        r == le_u32_at(bytes@, off as int),
{
    let b0 = bytes[off];
    let b1 = bytes[off + 1];
    let b2 = bytes[off + 2];
    let b3 = bytes[off + 3];
    let v: u32 = (b0 as u32) | ((b1 as u32) << 8) | ((b2 as u32) << 16) | ((b3 as u32) << 24);
    assert(v == b0 + b1 * 0x100 + b2 * 0x1_0000 + b3 * 0x100_0000) by (bit_vector)
        requires
            v == (b0 as u32) | ((b1 as u32) << 8) | ((b2 as u32) << 16) | ((b3 as u32) << 24),
    ;
    v
}

/// Write the little-endian bytes of `v` at `off`.
fn write_u32_le(dst: &mut [u8], off: usize, v: u32)
    requires
        off + 4 <= old(dst)@.len(),
    ensures
        final(dst)@.len() == old(dst)@.len(),
        forall|i: int|
            0 <= i < old(dst)@.len() ==> #[trigger] final(dst)@[i] == if off <= i < off + 4 {
                le_bytes(v)[i - off]
            } else {
                old(dst)@[i]
            },
{
    assert((v & 0xff) as u8 == (v % 0x100) as u8) by (bit_vector);
    assert(((v >> 8) & 0xff) as u8 == (v / 0x100 % 0x100) as u8) by (bit_vector);
    assert(((v >> 16) & 0xff) as u8 == (v / 0x1_0000 % 0x100) as u8) by (bit_vector);
    assert((v >> 24) as u8 == (v / 0x100_0000) as u8) by (bit_vector);
    dst[off] = (v & 0xff) as u8;
    dst[off + 1] = ((v >> 8) & 0xff) as u8;
    dst[off + 2] = ((v >> 16) & 0xff) as u8;
    dst[off + 3] = (v >> 24) as u8;
}

/// Write `bytes` as a NUL terminated string into the `len` bytes of `dst`
/// starting at `start`: truncated to `len - 1` bytes, the rest zero filled.
fn write_c_string(dst: &mut [u8], start: usize, len: usize, bytes: &[u8])
    requires
        start + len <= old(dst)@.len(),
    ensures
        final(dst)@.len() == old(dst)@.len(),
        forall|i: int|
            0 <= i < old(dst)@.len() ==> #[trigger] final(dst)@[i] == if start <= i < start + len {
                c_string_image(bytes@, len as nat)[i - start]
            } else {
                old(dst)@[i]
            },
{
    let n = dst.len();
    let mut i: usize = 0;
    while i < len
        invariant
            n == dst@.len(),
            start + len <= dst@.len(),
            dst@.len() == old(dst)@.len(),
            i <= len,
            forall|j: int|
                0 <= j < dst@.len() ==> #[trigger] dst@[j] == if start <= j < start + i {
                    c_string_image(bytes@, len as nat)[j - start]
                } else {
                    old(dst)@[j]
                },
        decreases len - i,
    {
        let b: u8 = if i < bytes.len() && i < len - 1 {
            bytes[i]
        } else {
            0
        };
        dst[start + i] = b;
        i = i + 1;
    }
}

/// Decode a NUL terminated (or NUL padded) ANSI string.
///
/// The text holds no NUL character.
pub fn decode_c_string(bytes: &[u8]) -> (r: String)
    ensures
        r@ == c_string_value(bytes@),
        forall|j: int| 0 <= j < r@.len() ==> r@[j] != '\0',
{
    let mut end: usize = 0;
    while end < bytes.len() && bytes[end] != 0
        invariant
            end <= bytes.len(),
            forall|i: int| 0 <= i < end ==> bytes@[i] != 0,
        decreases bytes.len() - end,
    {
        end = end + 1;
    }
    proof {
        lemma_c_len_is(bytes@, end as int);
    }
    let text = &bytes[0..end];
    assert(text@ == bytes@.take(end as int));
    string_from_utf8_lossy(text)
}

/// Write `s` into `dst` as a NUL terminated string, truncating if needed and
/// zero filling the remainder.
pub fn encode_c_string(s: &str, dst: &mut [u8])
    ensures
        final(dst)@ == c_string_image(encode_utf8(s@), old(dst)@.len()),
{
    let n = dst.len();
    write_c_string(dst, 0, n, s.as_bytes());
    assert(dst@ =~= c_string_image(encode_utf8(s@), old(dst)@.len()));
}

/// Contents of a Spout sender information map (`<sender name>`, 280 bytes).
///
/// All fields are little-endian `u32` so that 32-bit and 64-bit processes
/// agree on the layout.
#[derive(Debug, Clone, PartialEq, Eq, Default)]
pub struct SharedTextureInfo {
    /// D3D11 shared (KMT) handle, truncated to 32 bits by the sender.
    pub share_handle: u32,
    /// Texture width.
    pub width: u32,
    /// Texture height.
    pub height: u32,
    /// `DXGI_FORMAT` value (0 for legacy DirectX 9 senders).
    pub format: u32,
    /// Unused, always 0.
    pub usage: u32,
    /// Executable path of the sender, NUL padded ANSI.
    pub description: String,
    /// Flag bits, see [`PARTNER_CPU_SHARE`] and [`PARTNER_GLDX_COMPATIBLE`].
    pub partner_id: u32,
}

/// The abstract contents of a [`SharedTextureInfo`].
pub struct SharedTextureInfoView {
    pub share_handle: u32,
    pub width: u32,
    pub height: u32,
    pub format: u32,
    pub usage: u32,
    pub description: Seq<char>,
    pub partner_id: u32,
}

impl View for SharedTextureInfo {
    type V = SharedTextureInfoView;

    open spec fn view(&self) -> SharedTextureInfoView {
        SharedTextureInfoView {
            share_handle: self.share_handle,
            width: self.width,
            height: self.height,
            format: self.format,
            usage: self.usage,
            description: self.description@,
            partner_id: self.partner_id,
        }
    }
}

/// The 280 bytes a sender information map holds for `info`.
pub open spec fn encoded_info(info: SharedTextureInfoView) -> Seq<u8> {
    le_bytes(info.share_handle) + le_bytes(info.width) + le_bytes(info.height) + le_bytes(
        info.format,
    ) + le_bytes(info.usage) + c_string_image(encode_utf8(info.description), 256) + le_bytes(
        info.partner_id,
    )
}

/// The information a map of at least 280 bytes describes.
pub open spec fn decoded_info(b: Seq<u8>) -> SharedTextureInfoView {
    SharedTextureInfoView {
        share_handle: le_u32_at(b, 0) as u32,
        width: le_u32_at(b, 4) as u32,
        height: le_u32_at(b, 8) as u32,
        format: le_u32_at(b, 12) as u32,
        usage: le_u32_at(b, 16) as u32,
        description: c_string_value(b.subrange(20, 276)),
        partner_id: le_u32_at(b, 276) as u32,
    }
}

/// Whether a description survives the trip through the map: no NUL
/// character and at most 255 bytes of UTF-8.
pub open spec fn description_fits(description: Seq<char>) -> bool {
    !description.contains('\0') && encode_utf8(description).len() < 256
}

/// Decoding the bytes of an encoded information map gives back the
/// information, when the description fits the 256 byte field.
pub proof fn lemma_info_round_trip(info: SharedTextureInfoView)
    requires
        description_fits(info.description),
    ensures
        encoded_info(info).len() == SHARED_TEXTURE_INFO_LEN,
        decoded_info(encoded_info(info)) == info,
{
    let e = encoded_info(info);
    let d = c_string_image(encode_utf8(info.description), 256);
    lemma_le_round_trip(info.share_handle);
    lemma_le_round_trip(info.width);
    lemma_le_round_trip(info.height);
    lemma_le_round_trip(info.format);
    lemma_le_round_trip(info.usage);
    lemma_le_round_trip(info.partner_id);
    lemma_c_string_round_trip(info.description, 256);
    assert(e.len() == 280);
    assert(e.subrange(0, 4) =~= le_bytes(info.share_handle));
    assert(e.subrange(4, 8) =~= le_bytes(info.width));
    assert(e.subrange(8, 12) =~= le_bytes(info.height));
    assert(e.subrange(12, 16) =~= le_bytes(info.format));
    assert(e.subrange(16, 20) =~= le_bytes(info.usage));
    assert(e.subrange(20, 276) =~= d);
    assert(e.subrange(276, 280) =~= le_bytes(info.partner_id));
    assert(le_u32_at(e, 0) == le_u32_at(e.subrange(0, 4), 0));
    assert(le_u32_at(e, 4) == le_u32_at(e.subrange(4, 8), 0));
    assert(le_u32_at(e, 8) == le_u32_at(e.subrange(8, 12), 0));
    assert(le_u32_at(e, 12) == le_u32_at(e.subrange(12, 16), 0));
    assert(le_u32_at(e, 16) == le_u32_at(e.subrange(16, 20), 0));
    assert(le_u32_at(e, 276) == le_u32_at(e.subrange(276, 280), 0));
}

/// The fixed layout of a sender information map: the handle at byte 0,
/// width at 4, height at 8, DXGI format at 12, usage at 16 (little-endian
/// `u32`s), the description in bytes 20..276, the partner flags at 276.
pub proof fn lemma_info_layout(info: SharedTextureInfoView)
    ensures
        encoded_info(info).len() == SHARED_TEXTURE_INFO_LEN,
        le_u32_at(encoded_info(info), 0) == info.share_handle,
        le_u32_at(encoded_info(info), 4) == info.width,
        le_u32_at(encoded_info(info), 8) == info.height,
        le_u32_at(encoded_info(info), 12) == info.format,
        le_u32_at(encoded_info(info), 16) == info.usage,
        encoded_info(info).subrange(20, 276) == c_string_image(encode_utf8(info.description), 256),
        le_u32_at(encoded_info(info), 276) == info.partner_id,
{
    let e = encoded_info(info);
    lemma_le_round_trip(info.share_handle);
    lemma_le_round_trip(info.width);
    lemma_le_round_trip(info.height);
    lemma_le_round_trip(info.format);
    lemma_le_round_trip(info.usage);
    lemma_le_round_trip(info.partner_id);
    assert(e.subrange(0, 4) =~= le_bytes(info.share_handle));
    assert(e.subrange(4, 8) =~= le_bytes(info.width));
    assert(e.subrange(8, 12) =~= le_bytes(info.height));
    assert(e.subrange(12, 16) =~= le_bytes(info.format));
    assert(e.subrange(16, 20) =~= le_bytes(info.usage));
    assert(e.subrange(20, 276) =~= c_string_image(encode_utf8(info.description), 256));
    assert(e.subrange(276, 280) =~= le_bytes(info.partner_id));
    assert(le_u32_at(e, 0) == le_u32_at(e.subrange(0, 4), 0));
    assert(le_u32_at(e, 4) == le_u32_at(e.subrange(4, 8), 0));
    assert(le_u32_at(e, 8) == le_u32_at(e.subrange(8, 12), 0));
    assert(le_u32_at(e, 12) == le_u32_at(e.subrange(12, 16), 0));
    assert(le_u32_at(e, 16) == le_u32_at(e.subrange(16, 20), 0));
    assert(le_u32_at(e, 276) == le_u32_at(e.subrange(276, 280), 0));
}

impl SharedTextureInfo {
    /// Decode from the raw 280-byte map. Returns `None` if `bytes` is too short.
    pub fn decode(bytes: &[u8]) -> (r: Option<Self>)
        ensures
            bytes@.len() < SHARED_TEXTURE_INFO_LEN ==> r is None,
            bytes@.len() >= SHARED_TEXTURE_INFO_LEN ==> (r matches Some(info) && info@
                == decoded_info(bytes@)),
            r matches Some(info) ==> {
                &&& info.share_handle == le_u32_at(bytes@, 0)
                &&& info.width == le_u32_at(bytes@, 4)
                &&& info.height == le_u32_at(bytes@, 8)
                &&& info.format == le_u32_at(bytes@, 12)
                &&& info.usage == le_u32_at(bytes@, 16)
                &&& info.description@ == c_string_value(bytes@.subrange(20, 276))
                &&& info.partner_id == le_u32_at(bytes@, 276)
            },
    {
        if bytes.len() < SHARED_TEXTURE_INFO_LEN {
            return None;
        }
        let description = decode_c_string(&bytes[20..20 + DESCRIPTION_LEN]);
        Some(
            SharedTextureInfo {
                share_handle: read_u32_le(bytes, 0),
                width: read_u32_le(bytes, 4),
                height: read_u32_le(bytes, 8),
                format: read_u32_le(bytes, 12),
                usage: read_u32_le(bytes, 16),
                description,
                partner_id: read_u32_le(bytes, 276),
            },
        )
    }

    /// Encode into the raw 280-byte map layout.
    pub fn encode(&self) -> (r: [u8; SHARED_TEXTURE_INFO_LEN])
        ensures
            r@ == encoded_info(self@),
            le_u32_at(r@, 0) == self.share_handle,
            le_u32_at(r@, 4) == self.width,
            le_u32_at(r@, 8) == self.height,
            le_u32_at(r@, 12) == self.format,
            le_u32_at(r@, 16) == self.usage,
            r@.subrange(20, 276) == c_string_image(encode_utf8(self.description@), 256),
            le_u32_at(r@, 276) == self.partner_id,
    {
        let mut out = [0u8;SHARED_TEXTURE_INFO_LEN];
        write_u32_le(&mut out, 0, self.share_handle);
        write_u32_le(&mut out, 4, self.width);
        write_u32_le(&mut out, 8, self.height);
        write_u32_le(&mut out, 12, self.format);
        write_u32_le(&mut out, 16, self.usage);
        write_c_string(&mut out, 20, DESCRIPTION_LEN, self.description.as_str().as_bytes());
        write_u32_le(&mut out, 276, self.partner_id);
        assert(out@ =~= encoded_info(self@));
        proof {
            lemma_info_layout(self@);
        }
        out
    }

    /// Whether the map describes a usable texture (non-zero size and handle).
    pub fn is_valid(&self) -> (r: bool)
        ensures
            r == (self.width > 0 && self.height > 0 && self.share_handle != 0),
    {
        self.width > 0 && self.height > 0 && self.share_handle != 0
    }

    /// Pixel format, treating unknown values as BGRA8 like the Spout SDK.
    pub fn pixel_format(&self) -> (r: PixelFormat)
        ensures
            r == match PixelFormat::of_dxgi_code(self.format) {
                Some(f) => f,
                None => PixelFormat::Bgra8Unorm,
            },
    {
        match PixelFormat::from_dxgi_format(self.format) {
            Some(f) => f,
            None => PixelFormat::Bgra8Unorm,
        }
    }

    /// Whether the sender shares through CPU memory instead of a texture.
    pub fn is_cpu_share(&self) -> (r: bool)
        ensures
            r == (self.partner_id & PARTNER_CPU_SHARE != 0),
    {
        self.partner_id & PARTNER_CPU_SHARE != 0
    }

    /// Whether the sender flagged its texture as GL/DX interop compatible.
    pub fn is_gldx_compatible(&self) -> (r: bool)
        ensures
            r == (self.partner_id & PARTNER_GLDX_COMPATIBLE != 0),
    {
        self.partner_id & PARTNER_GLDX_COMPATIBLE != 0
    }

    /// Reconstruct the pointer-sized handle from the truncated 32-bit value.
    ///
    /// Mirrors `LongToHandle`: the value is sign extended, which is how the
    /// Spout SDK recovers handles on 64-bit systems.
    pub fn share_handle_ptr(&self) -> (r: isize)
        ensures
            r == sign_extended(self.share_handle),
    {
        let h = self.share_handle;
        let signed = h as i32;
        assert(signed == sign_extended(h)) by (bit_vector)
            requires
                signed == h as i32,
        ;
        signed as isize
    }

    /// Truncate a pointer-sized handle to the 32-bit representation stored in
    /// the map (`HandleToLong`).
    pub fn truncate_handle(handle: isize) -> (r: u32)
        ensures
            r == handle_low_bits(handle),
    {
        let r = handle as u32;
        assert(r == handle_low_bits(handle)) by (bit_vector)
            requires
                r == handle as u32,
        ;
        r
    }
}

/// The names a sender name table holds: one per 256-byte slot (the last
/// slot may be shorter), up to the first slot that starts with NUL.
pub open spec fn sender_names_of(bytes: Seq<u8>) -> Seq<Seq<char>>
    decreases bytes.len(),
{
    if bytes.len() == 0 || bytes[0] == 0 {
        seq![]
    } else if bytes.len() <= 256 {
        seq![c_string_value(bytes)]
    } else {
        seq![c_string_value(bytes.take(256))] + sender_names_of(bytes.skip(256))
    }
}

/// The bytes `encode_sender_names` leaves in a table of `n` bytes: slot `k`
/// holds name `k` while a whole slot is left for it, everything else is
/// zero.
pub open spec fn sender_table_image(names: Seq<Seq<char>>, n: nat) -> Seq<u8> {
    Seq::new(
        n,
        |i: int|
            if i / 256 < names.len() && (i / 256 + 1) * 256 <= n {
                c_string_image(encode_utf8(names[i / 256]), 256)[i % 256]
            } else {
                0
            },
    )
}

/// Read the sender name table (`SpoutSenderNames`).
///
/// The table is an array of 256-byte NUL terminated slots; reading stops at
/// the first empty slot. Names that contain invalid UTF-8 are decoded lossily.
pub fn decode_sender_names(bytes: &[u8]) -> (r: Vec<String>)
    ensures
        texts(r@) == sender_names_of(bytes@),
{
    let mut names: Vec<String> = Vec::new();
    let n = bytes.len();
    let mut off: usize = 0;
    assert(bytes@.skip(0) =~= bytes@);
    assert(texts(names@) + sender_names_of(bytes@) =~= sender_names_of(bytes@));
    while off < n
        invariant
            n == bytes@.len(),
            off <= n,
            texts(names@) + sender_names_of(bytes@.skip(off as int)) == sender_names_of(bytes@),
        decreases n - off,
    {
        let end = if n - off < MAX_SENDER_NAME_LEN {
            n
        } else {
            off + MAX_SENDER_NAME_LEN
        };
        let slot = &bytes[off..end];
        let ghost rest = bytes@.skip(off as int);
        if slot[0] == 0 {
            assert(rest[0] == slot@[0]);
            assert(sender_names_of(rest) == Seq::<Seq<char>>::empty());
            assert(texts(names@) + Seq::<Seq<char>>::empty() =~= texts(names@));
            return names;
        }
        let name = decode_c_string(slot);
        let ghost before = texts(names@);
        names.push(name);
        proof {
            assert(texts(names@) =~= before.push(name@));
            if rest.len() <= 256 {
                assert(slot@ =~= rest);
                assert(bytes@.skip(end as int) =~= Seq::<u8>::empty());
                assert(sender_names_of(bytes@.skip(end as int)) =~= Seq::<Seq<char>>::empty());
            } else {
                assert(slot@ =~= rest.take(256));
                assert(rest.skip(256) =~= bytes@.skip(end as int));
            }
            assert(texts(names@) + sender_names_of(bytes@.skip(end as int)) =~= before
                + sender_names_of(rest));
        }
        off = end;
    }
    assert(bytes@.skip(off as int) =~= Seq::<u8>::empty());
    assert(texts(names@) + Seq::<Seq<char>>::empty() =~= texts(names@));
    names
}

/// Write the sender name table into `dst`, zero filling unused slots.
///
/// Names beyond the capacity of `dst` are dropped.
pub fn encode_sender_names(names: &[&str], dst: &mut [u8])
    ensures
        final(dst)@ == sender_table_image(str_texts(names@), old(dst)@.len()),
{
    let n = dst.len();
    let mut i: usize = 0;
    while i < n
        invariant
            n == dst@.len(),
            i <= n,
            forall|j: int| 0 <= j < i ==> dst@[j] == 0,
        decreases n - i,
    {
        dst[i] = 0;
        i = i + 1;
    }
    let ghost image = sender_table_image(str_texts(names@), n as nat);
    let mut k: usize = 0;
    while k < names.len() && MAX_SENDER_NAME_LEN <= (n - k * MAX_SENDER_NAME_LEN)
        invariant
            n == dst@.len(),
            k <= names@.len(),
            k * 256 <= n,
            image == sender_table_image(str_texts(names@), n as nat),
            forall|j: int| 0 <= j < n ==> #[trigger] dst@[j] == if j < k * 256 {
                image[j]
            } else {
                0
            },
        decreases names@.len() - k,
    {
        let start = k * MAX_SENDER_NAME_LEN;
        write_c_string(dst, start, MAX_SENDER_NAME_LEN, names[k].as_bytes());
        proof {
            assert forall|j: int| 0 <= j < n implies #[trigger] dst@[j] == if j < (k + 1) * 256 {
                image[j]
            } else {
                0
            } by {
                if start <= j < start + 256 {
                    assert(j / 256 == k) by (nonlinear_arith)
                        requires
                            k * 256 <= j < k * 256 + 256,
                    ;
                    assert(j % 256 == j - start) by (nonlinear_arith)
                        requires
                            k * 256 <= j < k * 256 + 256,
                            start == k * 256,
                    ;
                    assert(str_texts(names@)[k as int] == names@[k as int]@);
                }
            }
        }
        k = k + 1;
    }
    proof {
        assert forall|j: int| 0 <= j < n implies #[trigger] dst@[j] == image[j] by {
            if j >= k * 256 {
                assert(j / 256 >= k) by (nonlinear_arith)
                    requires
                        j >= k * 256,
                ;
                if j / 256 < names@.len() {
                    // the slot of name `k` (and every later slot) does not fit
                    assert(k < names@.len());
                    assert(n - k * 256 < 256);
                    assert((j / 256 + 1) * 256 > n) by (nonlinear_arith)
                        requires
                            j / 256 >= k,
                            n < k * 256 + 256,
                    ;
                }
            }
        }
    }
    assert(dst@ =~= image);
}

/// Whether a name survives the trip through a table slot: not empty, no
/// NUL character, at most 255 bytes of UTF-8.
pub open spec fn name_fits_slot(name: Seq<char>) -> bool {
    name.len() > 0 && description_fits(name)
}

/// A table written from names that fit their slots reads back as those
/// names, as many as the table has whole slots for.
pub proof fn lemma_sender_names_round_trip(names: Seq<Seq<char>>, n: nat)
    requires
        forall|k: int| 0 <= k < names.len() ==> name_fits_slot(#[trigger] names[k]),
    ensures
        sender_names_of(sender_table_image(names, n)) == names.take(
            if names.len() < n / 256 {
                names.len() as int
            } else {
                (n / 256) as int
            },
        ),
    decreases names.len(),
{
    let t = sender_table_image(names, n);
    if names.len() == 0 || n < 256 {
        if n > 0 {
            assert(t[0] == 0);
        }
        assert(sender_names_of(t) == Seq::<Seq<char>>::empty());
        assert(names.take(0) =~= Seq::<Seq<char>>::empty());
    } else {
        let first = names[0];
        assert(name_fits_slot(first));
        let e0 = encode_utf8(first);
        assert(e0 == encode_scalar(first[0] as u32) + encode_utf8(first.drop_first()));
        assert(e0.len() >= 1);
        lemma_c_string_round_trip(first, 256);
        lemma_encode_utf8_no_nul(first);
        assert(e0[0] != 0);
        assert(t[0] == e0[0]);
        if n == 256 {
            assert(t =~= c_string_image(e0, 256));
            assert(sender_names_of(t) == seq![c_string_value(t)]);
            assert(names.take(1) =~= seq![first]);
        } else {
            let rest = names.drop_first();
            assert forall|k: int| 0 <= k < rest.len() implies name_fits_slot(#[trigger] rest[k]) by {
                assert(rest[k] == names[k + 1]);
            }
            lemma_sender_names_round_trip(rest, (n - 256) as nat);
            assert(t.take(256) =~= c_string_image(e0, 256));
            let tail = sender_table_image(rest, (n - 256) as nat);
            assert forall|i: int| 0 <= i < tail.len() implies t.skip(256)[i] == tail[i] by {
                assert((i + 256) / 256 == i / 256 + 1);
                assert((i + 256) % 256 == i % 256);
                if i / 256 < rest.len() {
                    assert(names[i / 256 + 1] == rest[i / 256]);
                }
            }
            assert(t.skip(256) =~= tail);
            assert(sender_names_of(t) == seq![first] + sender_names_of(tail));
            assert((n - 256) as nat / 256 == n / 256 - 1);
            let m: int = if names.len() < n / 256 {
                names.len() as int
            } else {
                (n / 256) as int
            };
            assert(seq![first] + rest.take(m - 1) =~= names.take(m));
        }
    }
}

/// The `k`-th alternative to a taken sender name: the name cut short so
/// that the whole fits in 255 characters, followed by `_k`.
pub open spec fn name_candidate(name: Seq<char>, k: nat) -> Seq<char> {
    let suffix = seq!['_'] + decimal(k);
    let max_base = 255 - suffix.len();
    name.take(
        if name.len() < max_base {
            name.len() as int
        } else {
            max_base
        },
    ) + suffix
}

/// A candidate is at most 255 characters long, so that (for names of
/// one-byte characters) it fits a table slot with its NUL terminator.
pub proof fn lemma_name_candidate_fits(name: Seq<char>, k: nat)
    requires
        k <= 0xffff_ffff,
    ensures
        name_candidate(name, k).len() <= 255,
{
    lemma_decimal_len(k);
}

/// Different indices give different candidates: the digits after the last
/// `_` tell the index apart.
pub proof fn lemma_name_candidate_injective(name: Seq<char>, i: nat, j: nat)
    requires
        name_candidate(name, i) == name_candidate(name, j),
    ensures
        i == j,
{
    let c = name_candidate(name, i);
    let di = decimal(i);
    let dj = decimal(j);
    lemma_decimal(i);
    lemma_decimal(j);
    assert(c.len() >= di.len() + 1);
    assert(c.len() >= dj.len() + 1);
    assert forall|t: int| 0 <= t < di.len() implies c[c.len() - di.len() + t] == di[t] by {}
    assert forall|t: int| 0 <= t < dj.len() implies c[c.len() - dj.len() + t] == dj[t] by {}
    assert(c[c.len() - di.len() - 1] == '_');
    assert(c[c.len() - dj.len() - 1] == '_');
    if di.len() < dj.len() {
        let p = c.len() - di.len() - 1;
        let t = p - (c.len() - dj.len());
        assert(is_digit_char(dj[t]));
        assert(false);
    } else if dj.len() < di.len() {
        let p = c.len() - dj.len() - 1;
        let t = p - (c.len() - di.len());
        assert(is_digit_char(di[t]));
        assert(false);
    } else {
        assert(di =~= dj);
        lemma_decimal_injective(i, j);
    }
}

/// When the candidates `1..=count` are all taken, there are at least
/// `count` taken names.
proof fn lemma_taken_candidates_bound(name: Seq<char>, existing: Seq<Seq<char>>, count: nat)
    requires
        forall|j: nat| 1 <= j <= count ==> existing.contains(#[trigger] name_candidate(name, j)),
    ensures
        count <= existing.len(),
{
    let range = set_int_range(1, count as int + 1);
    let f = |j: int| name_candidate(name, j as nat);
    lemma_int_range(1, count as int + 1);
    assert(injective_on(f, range)) by {
        assert forall|a: int, b: int|
            range.contains(a) && range.contains(b) && #[trigger] f(a) == #[trigger] f(b) implies a
            == b by {
            lemma_name_candidate_injective(name, a as nat, b as nat);
        }
    }
    let image = range.map(f);
    lemma_map_size(range, image, f);
    assert(image.subset_of(existing.to_set())) by {
        assert forall|c: Seq<char>| image.contains(c) implies existing.to_set().contains(c) by {
            let a = choose|a: int| range.contains(a) && f(a) == c;
            assert(existing.contains(name_candidate(name, a as nat)));
        }
    }
    existing.lemma_cardinality_of_set();
    lemma_len_subset(image, existing.to_set());
}

/// What `unique_sender_name` gives for `name` among the names `existing`:
/// a name not taken; `name` itself when it is free, else the candidate with
/// the smallest index that is free.
pub open spec fn is_unique_name(name: Seq<char>, existing: Seq<Seq<char>>, r: Seq<char>) -> bool {
    &&& !existing.contains(r)
    &&& !existing.contains(name) ==> r == name
    &&& existing.contains(name) ==> exists|k: nat|
        {
            &&& k >= 1
            &&& r == name_candidate(name, k)
            &&& forall|j: nat| 1 <= j < k ==> existing.contains(#[trigger] name_candidate(name, j))
        }
}

/// The name `unique_sender_name` gives is determined by the name asked for
/// and the names taken: two results that both meet its contract are equal.
pub proof fn lemma_unique_name_determined(
    name: Seq<char>,
    existing: Seq<Seq<char>>,
    a: Seq<char>,
    b: Seq<char>,
)
    requires
        is_unique_name(name, existing, a),
        is_unique_name(name, existing, b),
    ensures
        a == b,
{
    if existing.contains(name) {
        let ka = choose|k: nat|
            {
                &&& k >= 1
                &&& a == name_candidate(name, k)
                &&& forall|j: nat| 1 <= j < k ==> existing.contains(#[trigger] name_candidate(name, j))
            };
        let kb = choose|k: nat|
            {
                &&& k >= 1
                &&& b == name_candidate(name, k)
                &&& forall|j: nat| 1 <= j < k ==> existing.contains(#[trigger] name_candidate(name, j))
            };
        if ka < kb {
            assert(existing.contains(name_candidate(name, ka)));
        } else if kb < ka {
            assert(existing.contains(name_candidate(name, kb)));
        }
    }
}

/// Whether `candidate` is one of `existing`.
fn is_taken(candidate: &str, existing: &[&str]) -> (r: bool)
    ensures
        r == str_texts(existing@).contains(candidate@),
{
    let mut i: usize = 0;
    while i < existing.len()
        invariant
            i <= existing@.len(),
            forall|j: int| 0 <= j < i ==> existing@[j]@ != candidate@,
        decreases existing@.len() - i,
    {
        if str_eq(existing[i], candidate) {
            assert(str_texts(existing@)[i as int] == candidate@);
            return true;
        }
        i = i + 1;
    }
    assert forall|j: int| 0 <= j < existing@.len() implies str_texts(existing@)[j] != candidate@ by {
        assert(str_texts(existing@)[j] == existing@[j]@);
    }
    false
}

/// Produce a name that does not collide with `existing`, appending `_1`,
/// `_2`, ... like the Spout SDK does for duplicate sender names.
pub fn unique_sender_name(name: &str, existing: &[&str]) -> (r: String)
    requires
        existing@.len() < u32::MAX,
    ensures
        is_unique_name(name@, str_texts(existing@), r@),
{
    let ghost taken = str_texts(existing@);
    if !is_taken(name, existing) {
        return name.to_owned();
    }
    let mut index: u32 = 1;
    loop
        invariant
            taken == str_texts(existing@),
            taken.contains(name@),
            existing@.len() < u32::MAX,
            1 <= index <= existing@.len() + 1,
            forall|j: nat| 1 <= j < index ==> taken.contains(#[trigger] name_candidate(name@, j)),
        decreases existing@.len() + 1 - index,
    {
        let mut suffix = String::new();
        proof {
            reveal_strlit("_");
        }
        suffix.append("_");
        push_decimal(&mut suffix, index as u64);
        assert(suffix@ =~= seq!['_'] + decimal(index as nat));
        proof {
            lemma_decimal(index as nat);
            lemma_decimal_len(index as nat);
        }
        let suffix_len = suffix.as_str().unicode_len();
        let max_base = MAX_SENDER_NAME_LEN - 1 - suffix_len;
        let name_len = name.unicode_len();
        let keep = if name_len < max_base {
            name_len
        } else {
            max_base
        };
        let mut candidate = name.substring_char(0, keep).to_owned();
        candidate.append(suffix.as_str());
        assert(candidate@ =~= name_candidate(name@, index as nat));
        if !is_taken(candidate.as_str(), existing) {
            return candidate;
        }
        proof {
            assert forall|j: nat| 1 <= j <= index implies taken.contains(
                #[trigger] name_candidate(name@, j),
            ) by {}
            lemma_taken_candidates_bound(name@, taken, index as nat);
        }
        index = index + 1;
    }
}

/// The value a 32-bit handle stands for once sign extended.
pub open spec fn sign_extended(h: u32) -> int {
    if h < 0x8000_0000 {
        h as int
    } else {
        h - 0x1_0000_0000
    }
}

/// The low 32 bits of a handle, as an unsigned value.
pub open spec fn handle_low_bits(h: isize) -> int {
    (h as int) % 0x1_0000_0000
}

/// Handles that fit in 32 signed bits survive truncation and sign extension.
pub proof fn lemma_handle_round_trip(h: isize)
    requires
        -0x8000_0000 <= h < 0x8000_0000,
    ensures
        0 <= handle_low_bits(h) < 0x1_0000_0000,
        sign_extended(handle_low_bits(h) as u32) == h,
{
}

} // verus!

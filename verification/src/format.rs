//! Pixel formats that can be shared between processes, and their native
//! identifiers in Spout2 (`DXGI_FORMAT`), IOSurface and Metal.

use vstd::prelude::*;

verus! {

/// Pixel formats that can be shared between processes.
///
/// Spout2 shares any `DXGI_FORMAT`, but in practice senders use one of the
/// formats listed here. Syphon only shares 8-bit BGRA IOSurfaces; other
/// formats are rejected by the macOS backend.
#[derive(Debug, Clone, Copy, PartialEq, Eq, Structural, Hash, Default)]
#[non_exhaustive]
pub enum PixelFormat {
    /// 8-bit BGRA, unsigned normalized. Default for both Spout2 and Syphon.
    #[default]
    Bgra8Unorm,
    /// 8-bit RGBA, unsigned normalized.
    Rgba8Unorm,
    /// 8-bit BGRA, sRGB encoded.
    Bgra8UnormSrgb,
    /// 8-bit RGBA, sRGB encoded.
    Rgba8UnormSrgb,
    /// 16-bit RGBA, unsigned normalized.
    Rgba16Unorm,
    /// 16-bit RGBA, half precision floating point.
    Rgba16Float,
    /// 32-bit RGBA, single precision floating point.
    Rgba32Float,
    /// 10:10:10:2 RGBA, unsigned normalized.
    Rgb10a2Unorm,
}

/// The value of a four character code: the first character in the most
/// significant byte.
pub open spec fn fourcc_value(a: u8, b: u8, c: u8, d: u8) -> int {
    a * 0x100_0000 + b * 0x1_0000 + c * 0x100 + d
}

impl PixelFormat {
    /// All formats known to this crate, in declaration order.
    pub const ALL: [PixelFormat; 8] = [
        PixelFormat::Bgra8Unorm,
        PixelFormat::Rgba8Unorm,
        PixelFormat::Bgra8UnormSrgb,
        PixelFormat::Rgba8UnormSrgb,
        PixelFormat::Rgba16Unorm,
        PixelFormat::Rgba16Float,
        PixelFormat::Rgba32Float,
        PixelFormat::Rgb10a2Unorm,
    ];

    /// Size of one pixel in bytes.
    pub open spec fn pixel_size(self) -> nat {
        match self {
            PixelFormat::Rgba16Unorm | PixelFormat::Rgba16Float => 8,
            PixelFormat::Rgba32Float => 16,
            _ => 4,
        }
    }

    /// Width in bits of each of the four channels (red, green, blue, alpha),
    /// as the format's name gives them.
    pub open spec fn channel_bits(self) -> (nat, nat, nat, nat) {
        match self {
            PixelFormat::Bgra8Unorm
            | PixelFormat::Rgba8Unorm
            | PixelFormat::Bgra8UnormSrgb
            | PixelFormat::Rgba8UnormSrgb => (8, 8, 8, 8),
            PixelFormat::Rgba16Unorm | PixelFormat::Rgba16Float => (16, 16, 16, 16),
            PixelFormat::Rgba32Float => (32, 32, 32, 32),
            PixelFormat::Rgb10a2Unorm => (10, 10, 10, 2),
        }
    }

    /// Length of a tightly packed row of `width` pixels.
    pub open spec fn row_size(self, width: u32) -> nat {
        width as nat * self.pixel_size()
    }

    /// Length of a tightly packed `width` x `height` image.
    pub open spec fn image_size(self, width: u32, height: u32) -> nat {
        self.row_size(width) * height as nat
    }

    /// The `DXGI_FORMAT` value Spout2 stores for this format.
    pub open spec fn dxgi_code(self) -> u32 {
        match self {
            PixelFormat::Bgra8Unorm => 87,
            PixelFormat::Rgba8Unorm => 28,
            PixelFormat::Bgra8UnormSrgb => 91,
            PixelFormat::Rgba8UnormSrgb => 29,
            PixelFormat::Rgba16Unorm => 11,
            PixelFormat::Rgba16Float => 10,
            PixelFormat::Rgba32Float => 2,
            PixelFormat::Rgb10a2Unorm => 24,
        }
    }

    /// The format a `DXGI_FORMAT` value stands for. `0` (DirectX 9 and
    /// legacy senders) and `21` (`D3DFMT_A8R8G8B8`) mean BGRA8.
    pub open spec fn of_dxgi_code(value: u32) -> Option<PixelFormat> {
        if value == 0 || value == 87 || value == 21 {
            Some(PixelFormat::Bgra8Unorm)
        } else if value == 28 {
            Some(PixelFormat::Rgba8Unorm)
        } else if value == 91 {
            Some(PixelFormat::Bgra8UnormSrgb)
        } else if value == 29 {
            Some(PixelFormat::Rgba8UnormSrgb)
        } else if value == 11 {
            Some(PixelFormat::Rgba16Unorm)
        } else if value == 10 {
            Some(PixelFormat::Rgba16Float)
        } else if value == 2 {
            Some(PixelFormat::Rgba32Float)
        } else if value == 24 {
            Some(PixelFormat::Rgb10a2Unorm)
        } else {
            None
        }
    }

    /// The `kIOSurfacePixelFormat` code of this format, if IOSurface has one.
    pub open spec fn iosurface_code(self) -> Option<int> {
        match self {
            PixelFormat::Bgra8Unorm | PixelFormat::Bgra8UnormSrgb => Some(
                fourcc_value(0x42, 0x47, 0x52, 0x41),
            ),
            PixelFormat::Rgba8Unorm | PixelFormat::Rgba8UnormSrgb => Some(
                fourcc_value(0x52, 0x47, 0x42, 0x41),
            ),
            PixelFormat::Rgba16Float => Some(fourcc_value(0x52, 0x47, 0x68, 0x41)),
            PixelFormat::Rgba32Float => Some(fourcc_value(0x52, 0x47, 0x66, 0x41)),
            _ => None,
        }
    }

    /// The numeric `MTLPixelFormat` of this format.
    pub open spec fn metal_code(self) -> u64 {
        match self {
            PixelFormat::Bgra8Unorm => 80,
            PixelFormat::Rgba8Unorm => 70,
            PixelFormat::Bgra8UnormSrgb => 81,
            PixelFormat::Rgba8UnormSrgb => 71,
            PixelFormat::Rgba16Unorm => 110,
            PixelFormat::Rgba16Float => 115,
            PixelFormat::Rgba32Float => 125,
            PixelFormat::Rgb10a2Unorm => 90,
        }
    }

    /// The name of the format, as `{:?}` prints it.
    pub open spec fn debug_name(self) -> Seq<char> {
        match self {
            PixelFormat::Bgra8Unorm => "Bgra8Unorm"@,
            PixelFormat::Rgba8Unorm => "Rgba8Unorm"@,
            PixelFormat::Bgra8UnormSrgb => "Bgra8UnormSrgb"@,
            PixelFormat::Rgba8UnormSrgb => "Rgba8UnormSrgb"@,
            PixelFormat::Rgba16Unorm => "Rgba16Unorm"@,
            PixelFormat::Rgba16Float => "Rgba16Float"@,
            PixelFormat::Rgba32Float => "Rgba32Float"@,
            PixelFormat::Rgb10a2Unorm => "Rgb10a2Unorm"@,
        }
    }

    /// The name of the format, as `{:?}` prints it.
    pub fn name(self) -> (r: &'static str)
        ensures
            r@ == self.debug_name(),
    {
        match self {
            PixelFormat::Bgra8Unorm => "Bgra8Unorm",
            PixelFormat::Rgba8Unorm => "Rgba8Unorm",
            PixelFormat::Bgra8UnormSrgb => "Bgra8UnormSrgb",
            PixelFormat::Rgba8UnormSrgb => "Rgba8UnormSrgb",
            PixelFormat::Rgba16Unorm => "Rgba16Unorm",
            PixelFormat::Rgba16Float => "Rgba16Float",
            PixelFormat::Rgba32Float => "Rgba32Float",
            PixelFormat::Rgb10a2Unorm => "Rgb10a2Unorm",
        }
    }

    /// Number of bytes occupied by one pixel.
    pub fn bytes_per_pixel(self) -> (r: usize)
        ensures
            r == self.pixel_size(),
            8 * r == self.channel_bits().0 + self.channel_bits().1 + self.channel_bits().2
                + self.channel_bits().3,
    {
        proof {
            lemma_pixel_size_is_channel_bits(self);
        }
        match self {
            PixelFormat::Bgra8Unorm
            | PixelFormat::Rgba8Unorm
            | PixelFormat::Bgra8UnormSrgb
            | PixelFormat::Rgba8UnormSrgb
            | PixelFormat::Rgb10a2Unorm => 4,
            PixelFormat::Rgba16Unorm | PixelFormat::Rgba16Float => 8,
            PixelFormat::Rgba32Float => 16,
        }
    }

    /// Minimum number of bytes for a tightly packed row of `width` pixels.
    pub fn min_stride(self, width: u32) -> (r: usize)
        requires
            self.row_size(width) <= usize::MAX,
        ensures
            r == self.row_size(width),
    {
        width as usize * self.bytes_per_pixel()
    }

    /// Whether the row and image sizes of a `width` x `height` image of this
    /// format fit a `usize`.
    pub fn sizes_fit(self, width: u32, height: u32) -> (r: bool)
        ensures
            r == (self.row_size(width) <= usize::MAX && self.image_size(width, height)
                <= usize::MAX),
    {
        match (width as usize).checked_mul(self.bytes_per_pixel()) {
            None => false,
            Some(row) => row.checked_mul(height as usize).is_some(),
        }
    }

    /// Minimum number of bytes for a tightly packed `width` x `height` image.
    pub fn min_buffer_len(self, width: u32, height: u32) -> (r: usize)
        requires
            self.row_size(width) <= usize::MAX,
            self.image_size(width, height) <= usize::MAX,
        ensures
            r == self.image_size(width, height),
    {
        proof {
            lemma_image_size_bounds(self, width, height);
        }
        self.min_stride(width) * height as usize
    }

    /// Numeric `DXGI_FORMAT` value used by Spout2 in `SharedTextureInfo.format`.
    pub fn dxgi_format(self) -> (r: u32)
        ensures
            r == self.dxgi_code(),
    {
        match self {
            PixelFormat::Bgra8Unorm => 87,  // DXGI_FORMAT_B8G8R8A8_UNORM
            PixelFormat::Rgba8Unorm => 28,  // DXGI_FORMAT_R8G8B8A8_UNORM
            PixelFormat::Bgra8UnormSrgb => 91,  // DXGI_FORMAT_B8G8R8A8_UNORM_SRGB
            PixelFormat::Rgba8UnormSrgb => 29,  // DXGI_FORMAT_R8G8B8A8_UNORM_SRGB
            PixelFormat::Rgba16Unorm => 11,  // DXGI_FORMAT_R16G16B16A16_UNORM
            PixelFormat::Rgba16Float => 10,  // DXGI_FORMAT_R16G16B16A16_FLOAT
            PixelFormat::Rgba32Float => 2,  // DXGI_FORMAT_R32G32B32A32_FLOAT
            PixelFormat::Rgb10a2Unorm => 24,  // DXGI_FORMAT_R10G10B10A2_UNORM
        }
    }

    /// Map a numeric `DXGI_FORMAT` back to a [`PixelFormat`].
    ///
    /// Spout2 writes `0` for DirectX 9 senders and for some legacy senders;
    /// as the Spout SDK does, this is treated as BGRA8.
    pub fn from_dxgi_format(value: u32) -> (r: Option<PixelFormat>)
        ensures
            r == Self::of_dxgi_code(value),
    {
        match value {
            0 | 87 | 21 => Some(PixelFormat::Bgra8Unorm),  // 21 = D3DFMT_A8R8G8B8 (DX9)
            28 => Some(PixelFormat::Rgba8Unorm),
            91 => Some(PixelFormat::Bgra8UnormSrgb),
            29 => Some(PixelFormat::Rgba8UnormSrgb),
            11 => Some(PixelFormat::Rgba16Unorm),
            10 => Some(PixelFormat::Rgba16Float),
            2 => Some(PixelFormat::Rgba32Float),
            24 => Some(PixelFormat::Rgb10a2Unorm),
            _ => None,
        }
    }

    /// `kIOSurfacePixelFormat` four character code, if IOSurface can describe
    /// this format.
    pub fn iosurface_pixel_format(self) -> (r: Option<u32>)
        ensures
            r matches Some(code) ==> self.iosurface_code() == Some(code as int),
            r is None ==> self.iosurface_code() is None,
    {
        match self {
            PixelFormat::Bgra8Unorm | PixelFormat::Bgra8UnormSrgb => Some(fourcc(0x42, 0x47, 0x52, 0x41)  /* 'BGRA' */),
            PixelFormat::Rgba8Unorm | PixelFormat::Rgba8UnormSrgb => Some(fourcc(0x52, 0x47, 0x42, 0x41)  /* 'RGBA' */),
            PixelFormat::Rgba16Float => Some(fourcc(0x52, 0x47, 0x68, 0x41)  /* 'RGhA' */),
            PixelFormat::Rgba32Float => Some(fourcc(0x52, 0x47, 0x66, 0x41)  /* 'RGfA' */),
            PixelFormat::Rgba16Unorm | PixelFormat::Rgb10a2Unorm => None,
        }
    }

    /// Numeric `MTLPixelFormat` value.
    pub fn metal_pixel_format(self) -> (r: u64)
        ensures
            r == self.metal_code(),
    {
        match self {
            PixelFormat::Bgra8Unorm => 80,
            PixelFormat::Rgba8Unorm => 70,
            PixelFormat::Bgra8UnormSrgb => 81,
            PixelFormat::Rgba8UnormSrgb => 71,
            PixelFormat::Rgba16Unorm => 110,
            PixelFormat::Rgba16Float => 115,
            PixelFormat::Rgba32Float => 125,
            PixelFormat::Rgb10a2Unorm => 90,
        }
    }

    /// Whether the format is shareable through Syphon (BGRA8 only).
    pub fn is_syphon_compatible(self) -> (r: bool)
        ensures
            r <==> self == PixelFormat::Bgra8Unorm,
    {
        matches!(self, PixelFormat::Bgra8Unorm)
    }
}

/// Pack four characters into a four character code, first character in the
/// most significant byte.
fn fourcc(a: u8, b: u8, c: u8, d: u8) -> (r: u32)
    ensures
        r == fourcc_value(a, b, c, d),
{
    let v: u32 = ((a as u32) << 24) | ((b as u32) << 16) | ((c as u32) << 8) | (d as u32);
    assert(v == a * 0x100_0000 + b * 0x1_0000 + c * 0x100 + d) by (bit_vector)
        requires
            v == ((a as u32) << 24) | ((b as u32) << 16) | ((c as u32) << 8) | (d as u32),
    ;
    v
}

/// A non-empty image is at least one row long.
proof fn lemma_image_size_bounds(format: PixelFormat, width: u32, height: u32)
    ensures
        height > 0 ==> format.row_size(width) <= format.image_size(width, height),
        height == 0 ==> format.image_size(width, height) == 0,
{
    let r = format.row_size(width);
    assert(height > 0 ==> r <= r * height) by (nonlinear_arith);
}

/// Every format survives the trip through its `DXGI_FORMAT` value, and a
/// `DXGI_FORMAT` value maps to a format only when it is that format's value
/// or one of the two legacy BGRA8 values (`0`, `21`).
pub proof fn lemma_dxgi_round_trip(format: PixelFormat, value: u32)
    ensures
        PixelFormat::of_dxgi_code(format.dxgi_code()) == Some(format),
        PixelFormat::of_dxgi_code(value) == Some(format) ==> value == format.dxgi_code() || (
        format == PixelFormat::Bgra8Unorm && (value == 0 || value == 21)),
{
}

/// A pixel holds its four channels and nothing else: its size in bits is
/// the sum of its channel widths. So the 8-bit and 10:10:10:2 formats take
/// 4 bytes, the 16-bit RGBA formats 8 and the 32-bit float format 16.
pub proof fn lemma_pixel_size_is_channel_bits(format: PixelFormat)
    ensures
        8 * format.pixel_size() == format.channel_bits().0 + format.channel_bits().1
            + format.channel_bits().2 + format.channel_bits().3,
        PixelFormat::Bgra8Unorm.pixel_size() == 4,
        PixelFormat::Rgba8Unorm.pixel_size() == 4,
        PixelFormat::Bgra8UnormSrgb.pixel_size() == 4,
        PixelFormat::Rgba8UnormSrgb.pixel_size() == 4,
        PixelFormat::Rgba16Unorm.pixel_size() == 8,
        PixelFormat::Rgba16Float.pixel_size() == 8,
        PixelFormat::Rgba32Float.pixel_size() == 16,
        PixelFormat::Rgb10a2Unorm.pixel_size() == 4,
{
}

} // verus!

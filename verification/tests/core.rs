use sp2::{copy_rows, Error, PixelBuffer, PixelFormat};

#[test]
fn dxgi_round_trip() {
    for format in PixelFormat::ALL {
        assert_eq!(
            PixelFormat::from_dxgi_format(format.dxgi_format()),
            Some(format)
        );
    }
}

#[test]
fn legacy_dxgi_values_map_to_bgra() {
    assert_eq!(
        PixelFormat::from_dxgi_format(0),
        Some(PixelFormat::Bgra8Unorm)
    );
    assert_eq!(
        PixelFormat::from_dxgi_format(21),
        Some(PixelFormat::Bgra8Unorm)
    );
    assert_eq!(PixelFormat::from_dxgi_format(9999), None);
}

#[test]
fn buffer_sizes() {
    assert_eq!(
        PixelFormat::Bgra8Unorm.min_buffer_len(1920, 1080),
        1920 * 1080 * 4
    );
    assert_eq!(PixelFormat::Rgba16Float.min_stride(4), 32);
    assert_eq!(PixelFormat::Rgba32Float.bytes_per_pixel(), 16);
}

#[test]
fn iosurface_fourcc() {
    assert_eq!(
        PixelFormat::Bgra8Unorm.iosurface_pixel_format(),
        Some(0x4247_5241)
    );
    assert_eq!(PixelFormat::Rgb10a2Unorm.iosurface_pixel_format(), None);
}

#[test]
fn packed_buffer_validates_length() {
    let data = vec![0u8; 4 * 4 * 4];
    assert!(PixelBuffer::packed(&data, 4, 4, PixelFormat::Bgra8Unorm).is_ok());
    assert!(matches!(
        PixelBuffer::packed(&data, 5, 4, PixelFormat::Bgra8Unorm),
        Err(Error::SizeMismatch { .. })
    ));
    assert!(matches!(
        PixelBuffer::packed(&data, 0, 4, PixelFormat::Bgra8Unorm),
        Err(Error::InvalidArgument(_))
    ));
}

#[test]
fn strided_copy() {
    // 2x2 RGBA8 image with a 12 byte stride (4 bytes padding per row).
    let mut src = vec![0u8; 12 * 2];
    for (i, b) in src.iter_mut().enumerate() {
        *b = i as u8;
    }
    let buffer = PixelBuffer::with_stride(&src, 2, 2, 12, PixelFormat::Rgba8Unorm).unwrap();
    let mut dst = vec![0u8; 16];
    buffer.copy_to(&mut dst, 8).unwrap();
    assert_eq!(&dst[..8], &src[..8]);
    assert_eq!(&dst[8..], &src[12..20]);
}

#[test]
fn copy_rows_fast_path_and_slow_path() {
    let src: Vec<u8> = (0..16).collect();
    let mut dst = vec![0u8; 16];
    copy_rows(&src, 8, &mut dst, 8, 8, 2).unwrap();
    assert_eq!(src, dst);

    let mut dst = vec![0u8; 20];
    copy_rows(&src, 8, &mut dst, 10, 8, 2).unwrap();
    assert_eq!(&dst[..8], &src[..8]);
    assert_eq!(&dst[10..18], &src[8..16]);
}

#[test]
fn validation_messages() {
    let data = vec![0u8; 64];
    match PixelBuffer::with_stride(&data, 4, 2, 8, PixelFormat::Bgra8Unorm) {
        Err(Error::InvalidArgument(m)) => {
            assert_eq!(m, "stride 8 is smaller than the minimum 16 for width 4")
        }
        other => panic!("unexpected {other:?}"),
    }
    match PixelBuffer::packed(&data, 0, 2, PixelFormat::Bgra8Unorm) {
        Err(Error::InvalidArgument(m)) => assert_eq!(m, "zero-sized image"),
        other => panic!("unexpected {other:?}"),
    }
    let buffer = PixelBuffer::packed(&data, 4, 2, PixelFormat::Bgra8Unorm).unwrap();
    let mut dst = vec![0u8; 64];
    match buffer.copy_to(&mut dst, 10) {
        Err(Error::InvalidArgument(m)) => {
            assert_eq!(m, "destination stride 10 is smaller than row length 16")
        }
        other => panic!("unexpected {other:?}"),
    }
    assert_eq!(PixelFormat::Rgba16Float.name(), "Rgba16Float");
    assert_eq!(PixelFormat::Rgba16Float.name(), format!("{:?}", PixelFormat::Rgba16Float));
}

#[test]
fn invalid_utf8_is_decoded_lossily() {
    use_decode(&[0xff, b'A', 0, b'B'], "\u{FFFD}A");
    use_decode(b"plain\0rest", "plain");
    assert!(!sp2::spout::layout::decode_c_string(&[0xc3, 0x28, 0x80, 0]).contains('\0'));
}

fn use_decode(bytes: &[u8], expected: &str) {
    assert_eq!(sp2::spout::layout::decode_c_string(bytes), expected);
}

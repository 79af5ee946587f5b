use sp2::gpu::{
    check_upload, find_memory_type, padded_bytes_per_row, plan_readback, ReadbackBuffer,
};
use sp2::info::unpack_rows;
use sp2::{Error, PixelFormat};

#[test]
fn row_padding() {
    assert_eq!(padded_bytes_per_row(0), 0);
    assert_eq!(padded_bytes_per_row(1), 256);
    assert_eq!(padded_bytes_per_row(256), 256);
    assert_eq!(padded_bytes_per_row(640 * 4), 2560);
    assert_eq!(padded_bytes_per_row(641 * 4), 2816);
}

#[test]
fn readback_plan() {
    let plan = plan_readback(641, 3, PixelFormat::Bgra8Unorm);
    assert_eq!(plan.row_len, 2564);
    assert_eq!(plan.padded_stride, 2816);
    assert_eq!(plan.size, 2816 * 3);
    let plan = plan_readback(2, 2, PixelFormat::Rgba32Float);
    assert_eq!(plan.row_len, 32);
    assert_eq!(plan.padded_stride, 256);
}

#[test]
fn readback_buffer_is_reused() {
    let mut buffer = ReadbackBuffer::new();
    assert!(buffer.ensure(512));
    assert!(!buffer.ensure(256));
    assert!(!buffer.ensure(512));
    assert!(buffer.ensure(1024));
    assert_eq!(buffer.capacity, 1024);
}

#[test]
fn readback_unpacks_padded_rows() {
    let mut mapped = vec![0u8; 256 + 8];
    mapped[..8].copy_from_slice(&[1, 2, 3, 4, 5, 6, 7, 8]);
    mapped[256..].copy_from_slice(&[9, 10, 11, 12, 13, 14, 15, 16]);
    let mut out = vec![0xff; 3];
    unpack_rows(&mapped, 256, 8, 2, &mut out).unwrap();
    assert_eq!(out, (1..=16).collect::<Vec<u8>>());
    let mut out = Vec::new();
    match unpack_rows(&mapped[..100], 256, 8, 2, &mut out) {
        Err(Error::SizeMismatch { expected, actual }) => assert_eq!((expected, actual), (264, 100)),
        other => panic!("unexpected {other:?}"),
    }
    assert_eq!(out.len(), 16);
}

#[test]
fn upload_checks() {
    let pixels = vec![0u8; 16];
    assert_eq!(check_upload(pixels.len(), 2, 2, PixelFormat::Bgra8Unorm, 2, 2).unwrap(), 16);
    assert!(matches!(
        check_upload(15, 2, 2, PixelFormat::Bgra8Unorm, 2, 2),
        Err(Error::SizeMismatch { expected: 16, actual: 15 })
    ));
    assert!(matches!(
        check_upload(16, 2, 2, PixelFormat::Bgra8Unorm, 4, 2),
        Err(Error::InvalidArgument(_))
    ));
}

#[test]
fn memory_type_choice() {
    // Types 0 and 2 are device local; type 1 is host visible.
    let flags = [0x1, 0x6, 0x1];
    assert_eq!(find_memory_type(&flags, 0b111), Some(0));
    assert_eq!(find_memory_type(&flags, 0b110), Some(2));
    assert_eq!(find_memory_type(&flags, 0b010), Some(1));
    assert_eq!(find_memory_type(&flags, 0b1000), None);
}

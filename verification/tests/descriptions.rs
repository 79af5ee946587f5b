use sp2::traits::find_sender;
use sp2::{FrameInfo, PixelBuffer, PixelFormat, SenderInfo};

fn info(id: &str, name: &str) -> SenderInfo {
    SenderInfo {
        id: id.to_string(),
        name: name.to_string(),
        app_name: None,
        width: 10,
        height: 4,
        format: PixelFormat::Rgba16Float,
    }
}

#[test]
fn lookup_prefers_identifiers_to_names() {
    let senders = vec![info("a", "x"), info("x", "b"), info("c", "x")];
    assert_eq!(find_sender(&senders, "x").unwrap().id, "x");
    assert_eq!(find_sender(&senders, "b").unwrap().id, "x");
    assert_eq!(find_sender(&senders, "c").unwrap().id, "c");
    assert!(find_sender(&senders, "zz").is_none());
    let by_name = vec![info("a", "n"), info("b", "n")];
    assert_eq!(find_sender(&by_name, "n").unwrap().id, "a");
}

#[test]
fn frame_geometry() {
    let sender = info("a", "b");
    assert_eq!(sender.frame_len(), 10 * 8 * 4);
    let frame = FrameInfo { width: 3, height: 2, format: PixelFormat::Rgba32Float, frame_id: 0 };
    assert_eq!(frame.stride(), 48);
    assert_eq!(frame.byte_len(), 96);
}

#[test]
fn buffer_rows() {
    let data: Vec<u8> = (0..20).collect();
    let buffer = PixelBuffer::with_stride(&data, 2, 2, 12, PixelFormat::Bgra8Unorm).unwrap();
    let rows = buffer.rows();
    assert_eq!(rows.len(), 2);
    assert_eq!(rows[0], &data[0..8]);
    assert_eq!(rows[1], &data[12..20]);
    assert!(buffer.is_checkable());
    assert!(PixelFormat::Bgra8Unorm.sizes_fit(1920, 1080));
}

use sp2::spout::layout::{
    decode_sender_names, encode_c_string, encode_sender_names, unique_sender_name,
    SharedTextureInfo, MAX_SENDER_NAME_LEN, PARTNER_GLDX_COMPATIBLE, SHARED_TEXTURE_INFO_LEN,
};
use sp2::PixelFormat;

#[test]
fn shared_texture_info_round_trip() {
    let info = SharedTextureInfo {
        share_handle: 0x4000_1234,
        width: 1920,
        height: 1080,
        format: 87,
        usage: 0,
        description: "C:\\Apps\\sender.exe".into(),
        partner_id: PARTNER_GLDX_COMPATIBLE,
    };
    let bytes = info.encode();
    assert_eq!(bytes.len(), SHARED_TEXTURE_INFO_LEN);
    assert_eq!(&bytes[0..4], &0x4000_1234u32.to_le_bytes());
    assert_eq!(&bytes[4..8], &1920u32.to_le_bytes());
    assert_eq!(&bytes[276..280], &PARTNER_GLDX_COMPATIBLE.to_le_bytes());
    assert_eq!(SharedTextureInfo::decode(&bytes), Some(info));
    assert_eq!(SharedTextureInfo::decode(&bytes[..100]), None);
}

#[test]
fn description_is_truncated_and_nul_terminated() {
    let info = SharedTextureInfo {
        description: "x".repeat(400),
        ..Default::default()
    };
    let bytes = info.encode();
    assert_eq!(bytes[20 + 255], 0);
    let decoded = SharedTextureInfo::decode(&bytes).unwrap();
    assert_eq!(decoded.description.len(), 255);
}

#[test]
fn handle_truncation_matches_handletolong() {
    let handle: isize = 0x4000_1234;
    let truncated = SharedTextureInfo::truncate_handle(handle);
    let info = SharedTextureInfo {
        share_handle: truncated,
        ..Default::default()
    };
    assert_eq!(info.share_handle_ptr(), handle);

    // High bit set: sign extension must reproduce what LongToHandle does.
    let info = SharedTextureInfo {
        share_handle: 0x8000_0001,
        ..Default::default()
    };
    assert_eq!(info.share_handle_ptr(), 0x8000_0001u32 as i32 as isize);
}

#[test]
fn pixel_format_fallback() {
    let mut info = SharedTextureInfo::default();
    assert_eq!(info.pixel_format(), PixelFormat::Bgra8Unorm);
    info.format = 10;
    assert_eq!(info.pixel_format(), PixelFormat::Rgba16Float);
    info.format = 12345;
    assert_eq!(info.pixel_format(), PixelFormat::Bgra8Unorm);
}

#[test]
fn sender_names_round_trip() {
    let names = ["Spout Demo Sender", "OBS", "Resolume Arena - Output"];
    let mut buf = vec![0xffu8; MAX_SENDER_NAME_LEN * 4];
    encode_sender_names(&names, &mut buf);
    assert_eq!(&buf[..17], b"Spout Demo Sender");
    assert_eq!(buf[17], 0);
    assert_eq!(buf[MAX_SENDER_NAME_LEN * 3], 0);
    assert_eq!(decode_sender_names(&buf), names);
}

#[test]
fn sender_names_stop_at_empty_slot() {
    let mut buf = vec![0u8; MAX_SENDER_NAME_LEN * 3];
    encode_c_string("first", &mut buf[..MAX_SENDER_NAME_LEN]);
    encode_c_string("third", &mut buf[MAX_SENDER_NAME_LEN * 2..]);
    assert_eq!(decode_sender_names(&buf), ["first"]);
    assert!(decode_sender_names(&[]).is_empty());
}

#[test]
fn sender_names_drop_beyond_capacity() {
    let names = ["a", "b", "c"];
    let mut buf = vec![0u8; MAX_SENDER_NAME_LEN * 2];
    encode_sender_names(&names, &mut buf);
    assert_eq!(decode_sender_names(&buf), ["a", "b"]);
}

#[test]
fn unique_names() {
    let existing = ["Sender", "Sender_1"];
    assert_eq!(unique_sender_name("Other", &existing), "Other");
    assert_eq!(unique_sender_name("Sender", &existing), "Sender_2");
    let long = "n".repeat(255);
    let unique = unique_sender_name(&long, &[long.as_str()]);
    assert!(unique.len() < MAX_SENDER_NAME_LEN);
    assert!(unique.ends_with("_1"));
}

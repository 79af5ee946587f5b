use sp2::spout::d3d11::{
    device_attempts, feature_levels, shared_texture_spec, staging_span, staging_texture_spec,
    upload_row_pitch, DriverKind, BIND_RENDER_TARGET, BIND_SHADER_RESOURCE, CPU_ACCESS_READ,
    FEATURE_LEVEL_11_0, FEATURE_LEVEL_11_1, RESOURCE_MISC_SHARED, USAGE_STAGING,
};
use sp2::spout::layout::{SharedTextureInfo, PARTNER_CPU_SHARE, PARTNER_GLDX_COMPATIBLE};
use sp2::spout::receiver::{resolve_name, ReceiverState, TextureDesc, UpdateStep};
use sp2::spout::sender::{check_sender_params, executable_path_text, SenderState};
use sp2::{Error, FrameInfo, PixelBuffer, PixelFormat};

fn raw(handle: u32, width: u32, height: u32) -> SharedTextureInfo {
    SharedTextureInfo {
        share_handle: handle,
        width,
        height,
        format: 87,
        usage: 0,
        description: "C:\\sender.exe".into(),
        partner_id: PARTNER_GLDX_COMPATIBLE,
    }
}

fn desc(width: u32, height: u32) -> TextureDesc {
    TextureDesc { width, height, dxgi_format: 87 }
}

#[test]
fn receiver_connects_and_follows_the_sender() {
    let mut state = ReceiverState::new(Some("Cam"));
    let info = raw(0x100, 64, 32);
    assert_eq!(state.begin_update(Some("Cam"), Some(&info)), UpdateStep::Open);
    assert!(state.finish_open("Cam", info.clone(), Some(desc(64, 32)), true));
    assert!(state.is_updated());
    let connected = state.sender_info().unwrap();
    assert_eq!(connected.name, "Cam");
    assert_eq!(connected.app_name.as_deref(), Some("C:\\sender.exe"));
    assert_eq!((connected.width, connected.height), (64, 32));
    assert_eq!(connected.format, PixelFormat::Bgra8Unorm);

    // Same texture: nothing to do, the updated flag clears.
    assert_eq!(state.begin_update(Some("Cam"), Some(&info)), UpdateStep::Unchanged);
    assert!(!state.is_updated());

    // The sender resized: reopen, keeping the frame counter of the connection.
    let resized = raw(0x200, 128, 64);
    assert!(state.reuses_connection("Cam"));
    assert_eq!(state.begin_update(Some("Cam"), Some(&resized)), UpdateStep::Open);
    assert!(state.finish_open("Cam", resized, Some(desc(128, 64)), true));
    assert_eq!(state.sender_info().unwrap().width, 128);

    // The sender went away.
    assert_eq!(state.begin_update(Some("Cam"), None), UpdateStep::Gone);
    assert!(state.sender_info().is_none());
}

#[test]
fn receiver_reports_each_frame_once() {
    let mut state = ReceiverState::new(None);
    let info = raw(0x100, 4, 4);
    state.begin_update(Some("S"), Some(&info));
    state.finish_open("S", info, Some(desc(4, 4)), true);
    assert!(state.poll_frame(Some(3)));
    let frame = state.complete_frame();
    assert_eq!(frame, FrameInfo { width: 4, height: 4, format: PixelFormat::Bgra8Unorm, frame_id: 3 });
    assert!(state.is_frame_new());
    assert!(!state.poll_frame(Some(3)));
    assert!(!state.is_frame_new());
    assert!(state.poll_frame(Some(4)));
    assert_eq!(state.frame_id(), 4);
}

#[test]
fn receiver_without_frame_counting_counts_receives() {
    let mut state = ReceiverState::new(None);
    let info = raw(0x100, 4, 4);
    state.begin_update(Some("S"), Some(&info));
    state.finish_open("S", info, Some(desc(4, 4)), false);
    assert!(state.poll_frame(None));
    assert_eq!(state.complete_frame().frame_id, 1);
    assert!(state.poll_frame(None));
    assert_eq!(state.complete_frame().frame_id, 2);
}

#[test]
fn failed_handles_are_not_retried() {
    let mut state = ReceiverState::new(None);
    let info = raw(0x100, 4, 4);
    assert_eq!(state.begin_update(Some("S"), Some(&info)), UpdateStep::Open);
    assert!(!state.finish_open("S", info.clone(), None, true));
    assert_eq!(state.failed_handle, Some(0x100));
    assert_eq!(state.begin_update(Some("S"), Some(&info)), UpdateStep::Failed);
    let changed = raw(0x101, 4, 4);
    assert_eq!(state.begin_update(Some("S"), Some(&changed)), UpdateStep::Open);
}

#[test]
fn cpu_share_and_unpublished_senders() {
    let mut state = ReceiverState::new(None);
    let mut cpu = raw(0x100, 4, 4);
    cpu.partner_id = PARTNER_CPU_SHARE;
    assert_eq!(state.begin_update(Some("S"), Some(&cpu)), UpdateStep::CpuShare);
    assert_eq!(state.failed_handle, Some(0x100));
    let empty = raw(0, 0, 0);
    assert_eq!(state.begin_update(Some("S"), Some(&empty)), UpdateStep::NotReady);
    assert_eq!(state.begin_update(None, None), UpdateStep::Gone);
}

#[test]
fn destination_must_match() {
    let mut state = ReceiverState::new(None);
    let info = raw(0x100, 4, 4);
    state.begin_update(Some("S"), Some(&info));
    state.finish_open("S", info, Some(desc(4, 4)), true);
    assert!(state.check_destination(4, 4, 87).is_ok());
    assert!(matches!(state.check_destination(4, 5, 87), Err(Error::InvalidArgument(_))));
    assert!(matches!(state.check_destination(4, 4, 28), Err(Error::InvalidArgument(_))));
}

#[test]
fn new_target_disconnects() {
    let mut state = ReceiverState::new(Some("A"));
    let info = raw(0x100, 4, 4);
    state.begin_update(Some("A"), Some(&info));
    state.finish_open("A", info, Some(desc(4, 4)), true);
    state.set_target(Some("A"));
    assert!(state.sender_info().is_some());
    state.set_target(Some("B"));
    assert!(state.sender_info().is_none());
    assert_eq!(state.target.as_deref(), Some("B"));
}

#[test]
fn name_resolution() {
    assert_eq!(resolve_name(Some("T"), Some("A"), true), Some("T".to_string()));
    assert_eq!(resolve_name(None, Some("A"), true), Some("A".to_string()));
    assert_eq!(resolve_name(None, Some("A"), false), None);
    assert_eq!(resolve_name(None, None, false), None);
}

#[test]
fn sender_parameters() {
    assert!(check_sender_params("S", 1, 1).is_ok());
    assert!(matches!(check_sender_params("", 1, 1), Err(Error::InvalidArgument(m)) if m == "sender name must not be empty"));
    assert!(matches!(check_sender_params("S", 0, 1), Err(Error::InvalidArgument(m)) if m == "sender size must not be zero"));
}

#[test]
fn sender_publishes_its_texture() {
    let mut sender = SenderState::new(
        "S".to_string(),
        640,
        480,
        PixelFormat::Bgra8Unorm,
        0x1_4000_1234,
        "C:\\app.exe".to_string(),
        true,
    );
    let record = sender.info_record();
    assert_eq!(record.share_handle, 0x4000_1234);
    assert_eq!((record.width, record.height, record.format), (640, 480, 87));
    assert_eq!(record.partner_id, PARTNER_GLDX_COMPATIBLE);
    assert_eq!(record.description, "C:\\app.exe");
    let info = sender.info();
    assert_eq!(info.app_name.as_deref(), Some("C:\\app.exe"));

    assert_eq!(sender.resize_needed(640, 480).unwrap(), false);
    assert_eq!(sender.resize_needed(800, 600).unwrap(), true);
    assert!(matches!(sender.resize_needed(0, 600), Err(Error::InvalidArgument(_))));
    let record = sender.apply_resize(800, 600, 0x42);
    assert_eq!((record.width, record.height, record.share_handle), (800, 600, 0x42));
    assert_eq!(sender.width(), 800);

    assert_eq!(sender.check_texture(87, 800, 600).unwrap(), false);
    assert_eq!(sender.check_texture(87, 10, 10).unwrap(), true);
    assert!(matches!(
        sender.check_texture(28, 800, 600),
        Err(Error::InvalidArgument(m)) if m == "texture format 28 does not match sender format Bgra8Unorm"
    ));
    assert!(matches!(
        sender.check_texture(-1, 800, 600),
        Err(Error::InvalidArgument(m)) if m == "texture format -1 does not match sender format Bgra8Unorm"
    ));

    let pixels = vec![0u8; 4 * 4 * 4];
    let buffer = PixelBuffer::packed(&pixels, 4, 4, PixelFormat::Bgra8Unorm).unwrap();
    assert_eq!(sender.check_pixels(&buffer).unwrap(), true);
    let rgba = PixelBuffer::packed(&pixels, 4, 4, PixelFormat::Rgba8Unorm).unwrap();
    assert!(matches!(sender.check_pixels(&rgba), Err(Error::InvalidFormat(PixelFormat::Rgba8Unorm))));

    sender.frame_sent(Some(1));
    sender.frame_sent(None);
    assert_eq!(sender.frame_count(), 2);
    assert_eq!(sender.frame.sender_frame(), 3);
}

#[test]
fn executable_path_decoding() {
    let mut buf = [0u8; 8];
    buf[..3].copy_from_slice(b"a.e");
    assert_eq!(executable_path_text(&buf, 3), Some("a.e".to_string()));
    assert_eq!(executable_path_text(&buf, 0), None);
    assert_eq!(executable_path_text(&buf, 100).unwrap().len(), 8);
}

#[test]
fn device_and_texture_descriptions() {
    let attempts = device_attempts();
    assert_eq!(attempts.len(), 4);
    assert_eq!(attempts[0].driver, DriverKind::Hardware);
    assert!(attempts[0].with_11_1 && !attempts[1].with_11_1);
    assert_eq!(attempts[2].driver, DriverKind::Warp);
    assert_eq!(feature_levels(attempts[0])[0], FEATURE_LEVEL_11_1);
    assert_eq!(feature_levels(attempts[1]), [FEATURE_LEVEL_11_0, 0xa100, 0xa000]);

    let shared = shared_texture_spec(8, 8, PixelFormat::Rgba8Unorm);
    assert_eq!(shared.dxgi_format, 28);
    assert_eq!(shared.bind_flags, BIND_RENDER_TARGET | BIND_SHADER_RESOURCE);
    assert_eq!(shared.misc_flags, RESOURCE_MISC_SHARED);
    let staging = staging_texture_spec(8, 8, PixelFormat::Bgra8Unorm);
    assert_eq!(staging.usage, USAGE_STAGING);
    assert_eq!(staging.cpu_access_flags, CPU_ACCESS_READ);

    assert_eq!(upload_row_pitch(256).unwrap(), 256);
    assert_eq!(staging_span(PixelFormat::Bgra8Unorm, 4, 3, 32).unwrap(), 32 * 2 + 16);
    assert!(matches!(staging_span(PixelFormat::Bgra8Unorm, 4, 3, 8), Err(Error::Backend(_))));
}

#[test]
fn unpublished_texture_disconnects() {
    let mut state = ReceiverState::new(None);
    let info = raw(0x100, 4, 4);
    assert_eq!(state.begin_update(Some("S"), Some(&info)), UpdateStep::Open);
    assert!(state.finish_open("S", info, Some(desc(4, 4)), true));
    assert!(state.connection.is_some());
    let empty = raw(0, 0, 0);
    assert_eq!(state.begin_update(Some("S"), Some(&empty)), UpdateStep::NotReady);
    assert!(state.connection.is_none());
    assert!(!state.is_frame_new());
}

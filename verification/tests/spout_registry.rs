use sp2::spout::directory::{active_sender_info, check_sender_exists, list_senders, to_sender_info};
use sp2::spout::frame_count::FrameCount;
use sp2::spout::layout::{
    decode_sender_names, encode_c_string, encode_sender_names, SharedTextureInfo,
    MAX_SENDER_NAME_LEN, SHARED_TEXTURE_INFO_LEN,
};
use sp2::spout::registry::{
    cpu_share_forced, create_key_failure, dword_value, frame_count_enabled, max_senders,
    set_value_failure,
};
use sp2::spout::sender_names::{
    active_after_clean, active_after_release, active_name, clean_names, read_info, register_name,
    release_name, should_activate,
};
use sp2::spout::shared_memory::{
    access_mutex_name, check_map_size, frame_semaphore_name, is_c_name, map_mutex_name,
    wait_result, write_prefix, WAIT_ABANDONED, WAIT_OBJECT_0, WAIT_TIMEOUT,
};
use sp2::{Error, PixelFormat};

fn table(names: &[&str], slots: usize) -> Vec<u8> {
    let mut buf = vec![0u8; MAX_SENDER_NAME_LEN * slots];
    encode_sender_names(names, &mut buf);
    buf
}

#[test]
fn register_uniquifies_and_counts() {
    let mut buf = table(&["Sender"], 4);
    let (name, count) = register_name(&mut buf, "Sender", 4).unwrap();
    assert_eq!(name, "Sender_1");
    assert_eq!(count, 2);
    assert_eq!(decode_sender_names(&buf), ["Sender", "Sender_1"]);
    let (name, count) = register_name(&mut buf, "Other", 4).unwrap();
    assert_eq!(name, "Other");
    assert_eq!(count, 3);
}

#[test]
fn register_into_full_table_fails() {
    let mut buf = table(&["a", "b"], 2);
    let before = buf.clone();
    match register_name(&mut buf, "c", 2) {
        Err(Error::Backend(message)) => assert_eq!(message, "sender table is full (2 senders)"),
        other => panic!("unexpected {other:?}"),
    }
    assert_eq!(buf, before);
}

#[test]
fn first_or_orphaned_sender_becomes_active() {
    assert!(should_activate(1, "a", Some("b"), true));
    assert!(should_activate(2, "a", None, false));
    assert!(should_activate(2, "a", Some("b"), false));
    assert!(!should_activate(2, "a", Some("b"), true));
    assert!(should_activate(2, "a", Some("a"), true));
}

#[test]
fn register_then_release_restores_table() {
    let mut buf = table(&["one", "two"], 4);
    let before = decode_sender_names(&buf);
    let (name, _) = register_name(&mut buf, "three", 4).unwrap();
    let remaining = release_name(&mut buf, &name);
    assert_eq!(remaining, before);
    assert_eq!(decode_sender_names(&buf), before);
}

#[test]
fn release_of_unknown_name_leaves_table() {
    let mut buf = table(&["one"], 2);
    let before = buf.clone();
    let remaining = release_name(&mut buf, "zzz");
    assert_eq!(remaining, ["one"]);
    assert_eq!(buf, before);
}

#[test]
fn active_moves_to_first_remaining() {
    let remaining = vec!["b".to_string(), "c".to_string()];
    assert_eq!(active_after_release(Some("a"), "a", &remaining), Some("b".to_string()));
    assert_eq!(active_after_release(Some("a"), "a", &[]), Some(String::new()));
    assert_eq!(active_after_release(Some("x"), "a", &remaining), None);
    assert_eq!(active_after_release(None, "a", &remaining), None);
}

#[test]
fn clean_removes_dead_senders() {
    let mut buf = table(&["a", "b", "c"], 4);
    let removed = clean_names(&mut buf, &[true, false, true]);
    assert_eq!(removed, ["b"]);
    assert_eq!(decode_sender_names(&buf), ["a", "c"]);

    let before = buf.clone();
    assert!(clean_names(&mut buf, &[true, true]).is_empty());
    assert_eq!(buf, before);

    let names = decode_sender_names(&buf);
    assert_eq!(active_after_clean(Some("b"), &removed, &names), Some("a".to_string()));
    assert_eq!(active_after_clean(Some("a"), &removed, &names), None);
}

#[test]
fn active_name_reads_the_map() {
    let mut map = vec![0u8; MAX_SENDER_NAME_LEN];
    assert_eq!(active_name(&map), None);
    encode_c_string("Main", &mut map);
    assert_eq!(active_name(&map), Some("Main".to_string()));
}

#[test]
fn info_map_read_needs_full_record() {
    let info = SharedTextureInfo { width: 3, height: 4, ..Default::default() };
    let bytes = info.encode();
    assert_eq!(read_info(&bytes).unwrap(), info);
    match read_info(&bytes[..SHARED_TEXTURE_INFO_LEN - 1]) {
        Err(Error::Backend(message)) => assert_eq!(message, "sender info map is too small"),
        other => panic!("unexpected {other:?}"),
    }
}

#[test]
fn kernel_object_names() {
    assert_eq!(map_mutex_name("SpoutSenderNames"), "SpoutSenderNames_mutex");
    assert_eq!(frame_semaphore_name("S"), "S_Count_Semaphore");
    assert_eq!(access_mutex_name("S"), "S_SpoutAccessMutex");
    assert!(is_c_name("plain"));
    assert!(!is_c_name("nul\0inside"));
}

#[test]
fn map_sizes() {
    assert!(check_map_size(280).is_ok());
    match check_map_size(0) {
        Err(Error::InvalidArgument(message)) => assert_eq!(message, "invalid map size 0"),
        other => panic!("unexpected {other:?}"),
    }
    assert!(check_map_size(u32::MAX as usize).is_ok());
}

#[test]
fn wait_results() {
    assert_eq!(wait_result(WAIT_OBJECT_0, "m").unwrap(), true);
    assert_eq!(wait_result(WAIT_ABANDONED, "m").unwrap(), true);
    assert_eq!(wait_result(WAIT_TIMEOUT, "m").unwrap(), false);
    match wait_result(0xFFFF_FFFF, "map_mutex") {
        Err(Error::Os { code, message }) => {
            assert_eq!(code, 0xFFFF_FFFF);
            assert_eq!(message, "WaitForSingleObject(map_mutex) failed");
        }
        other => panic!("unexpected {other:?}"),
    }
}

#[test]
fn prefix_writes() {
    let mut view = vec![9u8; 6];
    write_prefix(&mut view, &[1, 2, 3]).unwrap();
    assert_eq!(view, [1, 2, 3, 9, 9, 9]);
    match write_prefix(&mut view, &[0; 7]) {
        Err(Error::SizeMismatch { expected, actual }) => {
            assert_eq!(expected, 6);
            assert_eq!(actual, 7);
        }
        other => panic!("unexpected {other:?}"),
    }
    assert_eq!(view, [1, 2, 3, 9, 9, 9]);
}

#[test]
fn registry_defaults() {
    assert_eq!(max_senders(None), 64);
    assert_eq!(max_senders(Some(0)), 64);
    assert_eq!(max_senders(Some(10)), 10);
    assert!(frame_count_enabled(None));
    assert!(!frame_count_enabled(Some(0)));
    assert!(!cpu_share_forced(None));
    assert!(cpu_share_forced(Some(1)));
}

#[test]
fn frame_counting() {
    let mut sender = FrameCount::new(true);
    sender.set_new_frame(Some(5));
    assert_eq!(sender.frame_count(), 1);
    assert_eq!(sender.sender_frame(), 7);

    let mut receiver = FrameCount::new(true);
    assert!(receiver.get_new_frame(Some(7)));
    assert!(!receiver.get_new_frame(Some(7)));
    assert!(receiver.get_new_frame(Some(8)));
    assert!(receiver.get_new_frame(Some(0)));
    assert!(receiver.get_new_frame(None));
    assert_eq!(receiver.frame_count(), 4);
    receiver.reset();
    assert!(receiver.get_new_frame(Some(0)));
    assert_eq!(receiver.sender_frame(), 0);
}

#[test]
fn directory_listing() {
    let raw = SharedTextureInfo {
        width: 640,
        height: 480,
        format: 28,
        description: "C:\\app.exe".into(),
        ..Default::default()
    };
    let info = to_sender_info("Cam", &raw);
    assert_eq!(info.id, "Cam");
    assert_eq!(info.name, "Cam");
    assert_eq!(info.app_name.as_deref(), Some("C:\\app.exe"));
    assert_eq!((info.width, info.height), (640, 480));
    assert_eq!(info.format, PixelFormat::Rgba8Unorm);

    let bare = to_sender_info("Bare", &SharedTextureInfo::default());
    assert_eq!(bare.app_name, None);
    assert_eq!(bare.format, PixelFormat::Bgra8Unorm);

    let names = vec!["Cam".to_string(), "Gone".to_string()];
    let listed = list_senders(&names, &[Some(raw.clone()), None]);
    assert_eq!(listed, vec![info.clone()]);

    assert_eq!(active_sender_info(Some("Cam"), Some(&raw)), Some(info));
    assert_eq!(active_sender_info(Some("Cam"), None), None);

    assert!(check_sender_exists("Cam", true).is_ok());
    assert!(matches!(check_sender_exists("Gone", false), Err(Error::NotFound(n)) if n == "Gone"));
}

#[test]
fn registry_values_and_errors() {
    assert_eq!(dword_value(true, &[1, 0, 0, 0], 4), Some(1));
    assert_eq!(dword_value(true, &[0x78, 0x56, 0x34, 0x12], 4), Some(0x1234_5678));
    assert_eq!(dword_value(false, &[1, 0, 0, 0], 4), None);
    assert_eq!(dword_value(true, &[1, 0, 0, 0], 2), None);
    assert!(matches!(create_key_failure(5), Error::Os { code: 5, message } if message == "RegCreateKeyExA(Spout)"));
    assert!(matches!(set_value_failure(2, "CPU"), Error::Os { code: 2, message } if message == "RegSetValueExA(CPU)"));
}

use sp2::syphon::constants::{
    is_uuid_string, uuid_string, ClientMessage, ServerMessage, DICTIONARY_VERSION,
};
use sp2::syphon::description::ServerDescription;
use sp2::PixelFormat;

#[test]
fn message_ids_round_trip() {
    for id in 0..4 {
        assert_eq!(ClientMessage::from_id(id).unwrap() as i32, id);
        assert_eq!(ServerMessage::from_id(id).unwrap() as i32, id);
    }
    assert!(ClientMessage::from_id(4).is_none());
    assert!(ServerMessage::from_id(-1).is_none());
}

#[test]
fn uuid_strings() {
    let uuid = uuid_string("6B29FC40-CA47-1067-B31D-00DD010662DA");
    assert_eq!(
        uuid,
        "info.v002.Syphon.6B29FC40-CA47-1067-B31D-00DD010662DA"
    );
    assert!(is_uuid_string(&uuid));
    assert!(!is_uuid_string("info.v002.Syphon.ServerAnnounce"));
    assert!(!is_uuid_string("6B29FC40-CA47-1067-B31D-00DD010662DA"));
    assert!(!is_uuid_string(
        "info.v002.Syphon.6B29FC40-CA47-1067-B31D-00DD010662DG"
    ));
}

#[test]
fn description_defaults() {
    let d = ServerDescription::new("info.v002.Syphon.X", "Main", "App");
    assert_eq!(d.version, DICTIONARY_VERSION);
    assert!(d.supports_iosurface());
    assert!(d.matches("Main"));
    assert!(d.matches("info.v002.Syphon.X"));
    assert!(!d.matches("Other"));
}

#[test]
fn sender_info_falls_back_to_app_name() {
    let d = ServerDescription::new("u", "", "Simple Server");
    let info = d.to_sender_info(0, 0);
    assert_eq!(info.name, "Simple Server");
    assert_eq!(info.app_name.as_deref(), Some("Simple Server"));
    assert_eq!(info.format, PixelFormat::Bgra8Unorm);

    let d = ServerDescription {
        surfaces: vec!["Other".into()],
        ..ServerDescription::new("u", "n", "a")
    };
    assert!(!d.supports_iosurface());
}

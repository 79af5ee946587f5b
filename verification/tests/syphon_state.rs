use sp2::syphon::client::{
    check_connectable, farewell, greeting, server_signal, ClientSignals, ClientState, ClientStep,
    ServerSignal,
};
use sp2::syphon::constants::{ClientMessage, ServerMessage};
use sp2::syphon::description::ServerDescription;
use sp2::syphon::directory::{find_server, retired_uuid, sender_list, DirectoryState};
use sp2::syphon::message::{
    local_port_failure, needs_unarchive, number_encoding, send_failure, Message, NumberEncoding,
    Payload,
};
use sp2::syphon::receiver::SyphonReceiverState;
use sp2::syphon::server::{check_server_format, ClientLists, ServerOptions, ServerState};
use sp2::syphon::surface::{lock_result, surface_properties, surface_span};
use sp2::{Error, FrameInfo, PixelBuffer, PixelFormat};

fn server(uuid: &str, name: &str) -> ServerDescription {
    ServerDescription::new(uuid, name, "App")
}

fn message(id: i32, payload: Payload) -> Message {
    Message { id, payload }
}

#[test]
fn server_messages_signal_the_client() {
    let mut signals = ClientSignals::new();
    signals.record(&message(ServerMessage::UpdateSurfaceId.id(), Payload::Number(77)));
    assert_eq!(signals.surface_id, 77);
    assert!(signals.new_frame);
    signals.new_frame = false;
    signals.record(&message(ServerMessage::NewFrame.id(), Payload::Empty));
    assert!(signals.new_frame);
    signals.record(&message(ServerMessage::UpdateServerName.id(), Payload::Text("x".into())));
    signals.record(&message(9, Payload::Empty));
    assert!(!signals.retired);
    signals.record(&message(ServerMessage::RetireServer.id(), Payload::Empty));
    assert!(signals.retired);
    assert_eq!(
        server_signal(&message(ServerMessage::UpdateSurfaceId.id(), Payload::Empty)),
        ServerSignal::Ignored
    );
}

#[test]
fn client_follows_the_surface() {
    let desc = server("info.v002.Syphon.A", "Main");
    assert!(check_connectable(&desc).is_ok());
    let mut client = ClientState::new(&desc);
    assert_eq!(client.begin_update(false, 0), ClientStep::Ready(false));
    assert_eq!(client.begin_update(false, 5), ClientStep::Lookup(5));
    assert!(client.finish_lookup(5, Some((320, 240))));
    assert_eq!(client.sender_info().width, 320);
    assert!(client.is_connected(false));
    assert_eq!(client.begin_update(false, 5), ClientStep::Ready(true));

    assert!(client.has_new_frame(false, 9));
    let frame = client.take_frame(9);
    assert_eq!(frame, FrameInfo { width: 320, height: 240, format: PixelFormat::Bgra8Unorm, frame_id: 1 });
    assert!(!client.has_new_frame(false, 9));
    assert!(client.has_new_frame(false, 10));
    assert!(client.has_new_frame(true, 9));

    assert!(!client.finish_lookup(6, None));
    assert!(!client.is_connected(false));
    assert_eq!(client.begin_update(true, 5), ClientStep::Retired);
}

#[test]
fn client_refuses_servers_without_iosurface() {
    let mut desc = server("info.v002.Syphon.A", "Main");
    desc.surfaces.clear();
    assert!(matches!(check_connectable(&desc), Err(Error::Unsupported(_))));
}

#[test]
fn client_hello_and_goodbye() {
    assert_eq!(greeting(), [ClientMessage::AddClientForInfo, ClientMessage::AddClientForFrames]);
    assert_eq!(farewell(false), [ClientMessage::RemoveClientForFrames, ClientMessage::RemoveClientForInfo]);
    assert!(farewell(true).is_empty());
}

#[test]
fn server_tracks_clients() {
    let mut clients = ClientLists::new();
    let hello = message(ClientMessage::AddClientForInfo.id(), Payload::Text("c1".into()));
    let reply = clients.handle_client_message(&hello, 42).unwrap();
    assert_eq!(reply.client, "c1");
    assert_eq!(reply.message, ServerMessage::UpdateSurfaceId);
    assert_eq!(reply.payload, Payload::Number(42));
    clients.handle_client_message(&hello, 42);
    assert_eq!(clients.info, ["c1"]);

    let frames = message(ClientMessage::AddClientForFrames.id(), Payload::Text("c1".into()));
    assert!(clients.handle_client_message(&frames, 0).is_none());
    assert!(clients.has_clients());
    clients.handle_client_message(
        &message(ClientMessage::AddClientForFrames.id(), Payload::Text("c2".into())),
        0,
    );
    clients.keep_delivered(true, &[false, true]);
    assert_eq!(clients.frames, ["c2"]);

    let bye = message(ClientMessage::RemoveClientForFrames.id(), Payload::Text("c2".into()));
    clients.handle_client_message(&bye, 0);
    assert!(!clients.has_clients());
    assert!(clients.handle_client_message(&message(7, Payload::Text("c3".into())), 1).is_none());
    assert!(clients.handle_client_message(&message(0, Payload::Empty), 1).is_none());
    assert_eq!(clients.info, ["c1"]);
}

#[test]
fn server_state() {
    let mut state = ServerState::new("info.v002.Syphon.S", "Main", "App", ServerOptions::default(), 3, 64, 32);
    assert!(state.is_announced());
    assert_eq!(state.info().name, "Main");
    assert_eq!(state.rename("Main"), None);
    assert_eq!(state.rename("Other"), Some(Payload::Text("Other".into())));
    assert_eq!(state.name(), "Other");
    assert!(!state.surface_change_needed(64, 32));
    assert!(state.surface_change_needed(64, 64));
    assert_eq!(state.replace_surface(4, 64, 64), Payload::Number(4));
    state.frame_published();
    assert_eq!(state.frame_count(), 1);
    assert!(!ServerState::new("u", "n", "a", ServerOptions { private: true }, 1, 1, 1).is_announced());

    let pixels = vec![0u8; 16];
    let bgra = PixelBuffer::packed(&pixels, 2, 2, PixelFormat::Bgra8Unorm).unwrap();
    assert!(ServerState::check_pixels(&bgra).is_ok());
    let rgba = PixelBuffer::packed(&pixels, 2, 2, PixelFormat::Rgba8Unorm).unwrap();
    assert!(matches!(ServerState::check_pixels(&rgba), Err(Error::InvalidFormat(_))));
    assert!(check_server_format(PixelFormat::Bgra8Unorm).is_ok());
    assert!(check_server_format(PixelFormat::Bgra8UnormSrgb).is_err());
}

#[test]
fn directory_collects_announcements() {
    let mut dir = DirectoryState::new();
    dir.request_announcements();
    dir.announce(server("info.v002.Syphon.A", "One"));
    dir.announce(server("info.v002.Syphon.B", "Two"));
    dir.announce(server("info.v002.Syphon.A", "Renamed"));
    let servers = dir.servers(false);
    assert_eq!(servers.len(), 2);
    assert_eq!(servers[0].name, "Renamed");

    dir.retire("info.v002.Syphon.B");
    assert_eq!(dir.servers(false).len(), 1);

    dir.request_announcements();
    dir.announce(server("info.v002.Syphon.C", "Three"));
    let servers = dir.servers(true);
    assert_eq!(servers.len(), 1);
    assert_eq!(servers[0].uuid, "info.v002.Syphon.C");
    assert!(!dir.pending_request);

    let list = sender_list(&servers);
    assert_eq!(list[0].id, "info.v002.Syphon.C");
    assert_eq!(find_server(&servers, "Three"), Some(0));
    assert_eq!(find_server(&servers, "None"), None);
    assert_eq!(retired_uuid(None, Some("x".into())), Some("x".to_string()));
    assert_eq!(retired_uuid(Some("y".into()), Some("x".into())), Some("y".to_string()));
}

#[test]
fn description_from_dictionary_fields() {
    let desc = ServerDescription::from_fields(
        Some("info.v002.Syphon.D".into()),
        None,
        Some("Name".into()),
        None,
        vec![Some("SyphonSurfaceTypeIOSurface".into()), None],
    )
    .unwrap();
    assert_eq!(desc.version, 0);
    assert_eq!(desc.app_name, "");
    assert_eq!(desc.surfaces, ["SyphonSurfaceTypeIOSurface"]);
    assert!(desc.supports_iosurface());
    assert!(ServerDescription::from_fields(None, Some(1), None, None, vec![]).is_none());
    assert_eq!(desc.duplicate(), desc);
}

#[test]
fn receiver_picks_its_server() {
    let servers = vec![server("info.v002.Syphon.A", "One"), server("info.v002.Syphon.B", "Two")];
    let mut receiver = SyphonReceiverState::new(None);
    assert_eq!(receiver.pick_server(&servers), Some(0));
    assert!(receiver.set_target(Some("Two")));
    assert!(!receiver.set_target(Some("Two")));
    assert_eq!(receiver.pick_server(&servers), Some(1));
    receiver.set_target(Some("info.v002.Syphon.Z"));
    assert_eq!(receiver.pick_server(&servers), None);
    receiver.received(true);
    assert!(receiver.is_frame_new());
    receiver.skip_frame();
    assert!(!receiver.is_frame_new());
}

#[test]
fn payload_encoding() {
    assert_eq!(number_encoding(7), NumberEncoding::U32(7));
    assert_eq!(number_encoding(-1), NumberEncoding::I64(-1));
    assert_eq!(number_encoding(1 << 40), NumberEncoding::I64(1 << 40));
    assert!(!Payload::Empty.has_data());
    assert!(Payload::Number(0).has_data());
}

#[test]
fn surface_rules() {
    let props = surface_properties(16, 8).unwrap();
    assert_eq!(props.bytes_per_element, 4);
    assert_eq!(props.pixel_format, u32::from_be_bytes(*b"BGRA"));
    assert!(matches!(surface_properties(0, 8), Err(Error::InvalidArgument(_))));
    assert!(lock_result(0).is_ok());
    assert!(matches!(lock_result(-5), Err(Error::Os { code: -5, .. })));
    assert_eq!(surface_span(4, 2, 64, 1000).unwrap(), 64 + 16);
    assert!(matches!(surface_span(4, 2, 64, 10), Err(Error::Backend(_))));
}

#[test]
fn messaging_errors_and_payloads() {
    assert!(matches!(send_failure(-2, "p"), Error::Os { code: -2, message } if message == "CFMessagePortSendRequest(p) failed"));
    assert!(matches!(local_port_failure("p"), Error::Backend(m) if m == "CFMessagePortCreateLocal(p) failed; name in use?"));
    assert!(!needs_unarchive(None));
    assert!(!needs_unarchive(Some(&[])));
    assert!(needs_unarchive(Some(&[1])));
}

#[test]
fn server_and_client_keep_the_application_name() {
    let state = ServerState::new("info.v002.Syphon.S", "Main", "App", ServerOptions::default(), 3, 64, 32);
    assert_eq!(state.desc.version, 0);
    assert_eq!(state.desc.surfaces, vec!["SyphonSurfaceTypeIOSurface".to_string()]);
    assert_eq!(state.info().app_name, Some("App".to_string()));
    let anonymous = ServerState::new("info.v002.Syphon.T", "Main", "", ServerOptions::default(), 3, 64, 32);
    assert_eq!(anonymous.info().app_name, None);
    let desc = ServerDescription::new("info.v002.Syphon.S", "", "App");
    let client = ClientState::new(&desc);
    assert_eq!(client.info.app_name, Some("App".to_string()));
    assert_eq!(client.info.name, "App");
}

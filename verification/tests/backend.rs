use sp2::backend::unsupported::{pump_events, Directory, Receiver, Sender, BACKEND, REASON};
use sp2::{DirectoryBackend, Error, FrameInfo, PixelBuffer, PixelFormat, ReceiverBackend, Result, SenderBackend, SenderInfo, SenderOptions};

#[test]
fn unsupported_backend_refuses_everything() {
    assert_eq!(BACKEND, "unsupported");
    let options = SenderOptions::new("x", 1, 1);
    assert!(matches!(Sender::new(&options), Err(Error::Unsupported(r)) if r == REASON));
    assert!(matches!(Receiver::new(None), Err(Error::Unsupported(_))));
    assert!(matches!(Directory::new(), Err(Error::Unsupported(_))));
    pump_events(std::time::Duration::from_millis(1));
}

struct FixedSender;

impl SenderBackend for FixedSender {
    fn name(&self) -> &str {
        "Camera"
    }
    fn id(&self) -> &str {
        "cam-1"
    }
    fn width(&self) -> u32 {
        640
    }
    fn height(&self) -> u32 {
        480
    }
    fn format(&self) -> PixelFormat {
        PixelFormat::Rgba8Unorm
    }
    fn resize(&mut self, _width: u32, _height: u32) -> Result<()> {
        Ok(())
    }
    fn send_pixels(&mut self, _pixels: PixelBuffer<'_>) -> Result<()> {
        Ok(())
    }
    fn frame_count(&self) -> u64 {
        0
    }
}

struct FixedReceiver {
    info: Option<SenderInfo>,
}

impl ReceiverBackend for FixedReceiver {
    fn sender_info(&self) -> Option<&SenderInfo> {
        self.info.as_ref()
    }
    fn receive_pixels(&mut self, _out: &mut Vec<u8>) -> Result<Option<FrameInfo>> {
        Ok(None)
    }
    fn is_frame_new(&self) -> bool {
        false
    }
    fn frame_id(&self) -> u64 {
        0
    }
    fn disconnect(&mut self) {
        self.info = None;
    }
}

struct FixedDirectory {
    listing: Option<Vec<SenderInfo>>,
}

impl DirectoryBackend for FixedDirectory {
    fn senders(&mut self) -> Result<Vec<SenderInfo>> {
        match &self.listing {
            Some(list) => Ok(list.clone()),
            None => Err(Error::Unsupported("no listing")),
        }
    }
    fn active_sender(&mut self) -> Result<Option<SenderInfo>> {
        Ok(None)
    }
    fn set_active_sender(&mut self, _id: &str) -> Result<()> {
        Ok(())
    }
}

fn described(id: &str, name: &str) -> SenderInfo {
    SenderInfo {
        id: id.to_string(),
        name: name.to_string(),
        app_name: Some("app".to_string()),
        width: 1,
        height: 1,
        format: PixelFormat::Bgra8Unorm,
    }
}

#[test]
fn default_sender_info_comes_from_the_getters() {
    let sender = FixedSender;
    let info = sender.info();
    assert_eq!(info.id, "cam-1");
    assert_eq!(info.name, "Camera");
    assert_eq!(info.app_name, None);
    assert_eq!((info.width, info.height), (640, 480));
    assert_eq!(info.format, PixelFormat::Rgba8Unorm);
    assert_eq!(sender.has_receivers(), None);
}

#[test]
fn default_is_connected_follows_sender_info() {
    let mut receiver = FixedReceiver { info: Some(described("a", "A")) };
    assert!(receiver.is_connected());
    receiver.disconnect();
    assert!(!receiver.is_connected());
}

#[test]
fn default_find_prefers_identifiers_and_hands_on_errors() {
    let mut directory = FixedDirectory {
        listing: Some(vec![described("x", "shared"), described("shared", "y")]),
    };
    let found = directory.find("shared").unwrap().unwrap();
    assert_eq!(found.id, "shared");
    let by_name = directory.find("y").unwrap().unwrap();
    assert_eq!(by_name.id, "shared");
    assert!(directory.find("missing").unwrap().is_none());
    let mut failing = FixedDirectory { listing: None };
    assert!(matches!(failing.find("x"), Err(Error::Unsupported("no listing"))));
}

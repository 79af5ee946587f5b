//! Building blocks of a Spout2 / Syphon compatible texture sharing stack:
//! pixel formats and frame geometry, the Spout2 shared memory wire formats,
//! the Syphon protocol vocabulary, and the decision logic of senders,
//! receivers and directories, each with a verified contract.

pub mod backend;
pub mod error;
pub mod format;
pub mod gpu;
pub mod info;
pub mod options;
pub mod spout;
pub mod syphon;
pub mod text;
pub mod traits;

pub use error::{Error, Result};
pub use format::PixelFormat;
pub use info::{copy_rows, FrameInfo, PixelBuffer, SenderInfo};
pub use options::SenderOptions;
pub use traits::{DirectoryBackend, ReceiverBackend, SenderBackend, TransferPath};

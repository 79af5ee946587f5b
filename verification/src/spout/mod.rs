//! The Spout2 (2.007) texture sharing protocol: shared memory wire formats,
//! registry settings, and the decisions of senders, receivers and the
//! sender directory.

pub mod layout;
pub mod registry;
pub mod frame_count;
pub mod sender_names;
pub mod receiver;
pub mod sender;
pub mod shared_memory;
pub mod directory;
pub mod d3d11;

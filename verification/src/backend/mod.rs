//! Platform backends. The one available everywhere is the fallback for
//! platforms without Spout2 or Syphon; the Spout and Syphon backends drive
//! the decision logic of [`crate::spout`] and [`crate::syphon`] from the
//! platform's own calls.

pub mod unsupported;

//! Options used to create a sender.

use vstd::prelude::*;
use vstd::utf8::encode_utf8;

use crate::error::{Error, Result};
use crate::format::PixelFormat;

verus! {

/// Options used to create a sender.
#[derive(Debug, Clone, PartialEq, Eq)]
#[non_exhaustive]
pub struct SenderOptions {
    /// Sender name shown to receivers. Spout uniquifies duplicates
    /// (`name_1`, `name_2`, ...); Syphon allows duplicates and distinguishes
    /// servers by UUID.
    pub name: String,
    /// Initial texture width.
    pub width: u32,
    /// Initial texture height.
    pub height: u32,
    /// Pixel format of the shared texture.
    pub format: PixelFormat,
    /// Do not announce the sender in the system directory. Only honoured by
    /// Syphon (`SyphonServerOptionIsPrivate`); ignored by Spout.
    pub private: bool,
    /// Register as the active Spout sender when created. Ignored by Syphon.
    pub set_active: bool,
}

impl SenderOptions {
    /// Whether the options describe a sender that can be created: a name of
    /// 1 to 255 bytes and a non-zero size.
    pub open spec fn is_valid(self) -> bool {
        &&& self.name@.len() > 0
        &&& encode_utf8(self.name@).len() < 256
        &&& self.width > 0
        &&& self.height > 0
    }

    /// Options with the default BGRA8 format.
    pub fn new(name: &str, width: u32, height: u32) -> (r: Self)
        ensures
            r.name@ == name@,
            r.width == width,
            r.height == height,
            r.format == PixelFormat::Bgra8Unorm,
            !r.private,
            !r.set_active,
    {
        SenderOptions {
            name: name.to_owned(),
            width,
            height,
            format: PixelFormat::Bgra8Unorm,
            private: false,
            set_active: false,
        }
    }

    /// Set the pixel format.
    pub fn format(self, format: PixelFormat) -> (r: Self)
        ensures
            r == (SenderOptions { format, ..self }),
    {
        SenderOptions { format, ..self }
    }

    /// Hide the sender from the system directory (Syphon only).
    pub fn private(self, private: bool) -> (r: Self)
        ensures
            r == (SenderOptions { private, ..self }),
    {
        SenderOptions { private, ..self }
    }

    /// Make this the active sender on creation (Spout only).
    pub fn set_active(self, set_active: bool) -> (r: Self)
        ensures
            r == (SenderOptions { set_active, ..self }),
    {
        SenderOptions { set_active, ..self }
    }

    /// Validate the options.
    pub fn validate(&self) -> (r: Result<()>)
        ensures
            r is Ok <==> self.is_valid(),
            r matches Err(e) ==> e is InvalidArgument,
    {
        if self.name.as_str().is_empty() {
            return Err(Error::InvalidArgument("sender name must not be empty".to_owned()));
        }
        if self.name.as_str().as_bytes().len() >= 256 {
            return Err(
                Error::InvalidArgument("sender name must be shorter than 256 bytes".to_owned()),
            );
        }
        if self.width == 0 || self.height == 0 {
            return Err(Error::InvalidArgument("sender size must not be zero".to_owned()));
        }
        Ok(())
    }
}

} // verus!

//! Messages exchanged over `CFMessagePort`s: a message id and a payload that
//! travels as a keyed archive of an `NSString` or `NSNumber`.

use vstd::prelude::*;

use crate::error::Error;

verus! {

/// Payload of a `CFMessagePort` message after keyed unarchiving.
#[derive(Debug, Clone, PartialEq, Eq)]
pub enum Payload {
    /// No data.
    Empty,
    /// An `NSString`.
    Text(String),
    /// An `NSNumber`.
    Number(i64),
}

impl Payload {
    /// Text payload, if any.
    pub fn as_text(&self) -> (r: Option<&str>)
        ensures
            match self {
                Payload::Text(s) => r matches Some(t) && t@ == s@,
                _ => r is None,
            },
    {
        match self {
            Payload::Text(s) => Some(s.as_str()),
            _ => None,
        }
    }

    /// Numeric payload, if any.
    pub fn as_number(&self) -> (r: Option<i64>)
        ensures
            match self {
                Payload::Number(n) => r == Some(*n),
                _ => r is None,
            },
    {
        match self {
            Payload::Number(n) => Some(*n),
            _ => None,
        }
    }
}

/// How a number payload is archived: as an unsigned 32-bit `NSNumber` when
/// it fits (surface ids are `u32`), else as a signed 64-bit one.
#[derive(Debug, Clone, Copy, PartialEq, Eq, Structural)]
pub enum NumberEncoding {
    /// `+[NSNumber numberWithUnsignedInt:]`.
    U32(u32),
    /// `+[NSNumber numberWithLongLong:]`.
    I64(i64),
}

/// The encoding of number `n` in an archive.
pub fn number_encoding(n: i64) -> (r: NumberEncoding)
    ensures
        r == if 0 <= n <= u32::MAX {
            NumberEncoding::U32(n as u32)
        } else {
            NumberEncoding::I64(n)
        },
{
    if n >= 0 && n <= 0xffff_ffff {
        NumberEncoding::U32(n as u32)
    } else {
        NumberEncoding::I64(n)
    }
}

impl Payload {
    /// Whether the payload travels as data: an empty payload is sent
    /// without any.
    pub fn has_data(&self) -> (r: bool)
        ensures
            r == !(self is Empty),
    {
        match self {
            Payload::Empty => false,
            _ => true,
        }
    }
}

/// A message received on a local port.
#[derive(Debug, Clone, PartialEq, Eq)]
pub struct Message {
    /// `CFMessagePort` message id (see [`crate::syphon::constants`]).
    pub id: i32,
    /// Decoded payload.
    pub payload: Payload,
}

/// The error a failed send to port `name` gives (`status` is the
/// `CFMessagePortSendRequest` result).
pub fn send_failure(status: i32, name: &str) -> (r: Error)
    ensures
        r matches Error::Os { code, message } && code == status && message@
            == "CFMessagePortSendRequest("@ + name@ + ") failed"@,
{
    let mut message = String::new();
    message.append("CFMessagePortSendRequest(");
    message.append(name);
    message.append(") failed");
    Error::Os { code: status as i64, message }
}

/// The error a failed creation of the local port `name` gives.
pub fn local_port_failure(name: &str) -> (r: Error)
    ensures
        r matches Error::Backend(m) && m@ == "CFMessagePortCreateLocal("@ + name@
            + ") failed; name in use?"@,
{
    let mut message = String::new();
    message.append("CFMessagePortCreateLocal(");
    message.append(name);
    message.append(") failed; name in use?");
    Error::Backend(message)
}

/// The payload of a message that arrived with `data` bytes (`None` when it
/// carried no data): no data or an empty archive is an empty payload; the
/// caller unarchives anything else.
pub fn needs_unarchive(data: Option<&[u8]>) -> (r: bool)
    ensures
        r == (data matches Some(d) && d@.len() > 0),
{
    match data {
        Some(d) => d.len() > 0,
        None => false,
    }
}

} // verus!

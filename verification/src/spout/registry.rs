//! Spout settings stored under `HKEY_CURRENT_USER\Software\Leading Edge\Spout`.
//!
//! Reading the registry is the caller's business; these functions turn the
//! `DWORD` values read (or `None` when the key or value is absent) into the
//! settings they stand for.

use vstd::prelude::*;

use crate::error::Error;
use crate::spout::layout::{le_u32_at, DEFAULT_MAX_SENDERS};

verus! {

/// Registry sub key used by the Spout SDK and its tools.
pub const SPOUT_KEY: &'static str = "Software\\Leading Edge\\Spout";

/// Registry value holding the capacity of the sender name table.
pub const MAX_SENDERS_VALUE: &'static str = "MaxSenders";

/// Registry value switching frame counting on or off.
pub const FRAME_COUNT_VALUE: &'static str = "Framecount";

/// Registry value forcing CPU sharing.
pub const CPU_SHARE_VALUE: &'static str = "CPU";

/// `MaxSenders`: capacity of the sender name table (default 64).
pub fn max_senders(value: Option<u32>) -> (r: usize)
    ensures
        r == match value {
            Some(n) => if n > 0 {
                n as int
            } else {
                DEFAULT_MAX_SENDERS as int
            },
            None => DEFAULT_MAX_SENDERS as int,
        },
{
    match value {
        Some(n) if n > 0 => n as usize,
        _ => DEFAULT_MAX_SENDERS,
    }
}

/// `Framecount`: whether frame counting is enabled (default true).
pub fn frame_count_enabled(value: Option<u32>) -> (r: bool)
    ensures
        r == match value {
            Some(v) => v != 0,
            None => true,
        },
{
    match value {
        Some(v) => v != 0,
        None => true,
    }
}

/// `CPU`: whether CPU sharing mode is forced (default false).
pub fn cpu_share_forced(value: Option<u32>) -> (r: bool)
    ensures
        r == match value {
            Some(v) => v != 0,
            None => false,
        },
{
    match value {
        Some(v) => v != 0,
        None => false,
    }
}

/// The `DWORD` a registry query returned: `None` unless the query
/// succeeded (`queried`) and filled exactly four bytes (`len`), which are
/// little-endian.
pub fn dword_value(queried: bool, data: &[u8; 4], len: u32) -> (r: Option<u32>)
    ensures
        match r {
            Some(v) => queried && len == 4 && v == le_u32_at(data@, 0),
            None => !(queried && len == 4),
        },
{
    if !queried || len != 4 {
        return None;
    }
    let v: u32 = (data[0] as u32) | ((data[1] as u32) << 8) | ((data[2] as u32) << 16) | ((
    data[3] as u32) << 24);
    let b0 = data[0];
    let b1 = data[1];
    let b2 = data[2];
    let b3 = data[3];
    assert(v == b0 + b1 * 0x100 + b2 * 0x1_0000 + b3 * 0x100_0000) by (bit_vector)
        requires
            v == (b0 as u32) | ((b1 as u32) << 8) | ((b2 as u32) << 16) | ((b3 as u32) << 24),
    ;
    Some(v)
}

/// The error a failed creation of the Spout key gives.
pub fn create_key_failure(status: i64) -> (r: Error)
    ensures
        r matches Error::Os { code, message } && code == status && message@
            == "RegCreateKeyExA(Spout)"@,
{
    Error::os(status, "RegCreateKeyExA(Spout)")
}

/// The error a failed write of value `value_name` gives.
pub fn set_value_failure(status: i64, value_name: &str) -> (r: Error)
    ensures
        r matches Error::Os { code, message } && code == status && message@ == "RegSetValueExA("@
            + value_name@ + ")"@,
{
    let mut message = String::new();
    message.append("RegSetValueExA(");
    message.append(value_name);
    message.append(")");
    Error::Os { code: status, message }
}

} // verus!

//! Rules of the named, page-file backed memory maps every Spout shared
//! memory object uses, and of the kernel objects that go with them.
//!
//! Creating mappings, mutexes and semaphores is the caller's business;
//! these functions name them, check sizes, interpret wait results and copy
//! into a mapped view.

use vstd::prelude::*;

use crate::error::{Error, Result};
use crate::text::{decimal, push_decimal};

verus! {

/// Timeout, in milliseconds, used by the Spout SDK when locking a map
/// mutex or the texture access mutex.
pub const LOCK_TIMEOUT_MS: u32 = 67;

/// `WaitForSingleObject`: the object was signalled.
pub const WAIT_OBJECT_0: u32 = 0;

/// `WaitForSingleObject`: the mutex was abandoned by its owner.
pub const WAIT_ABANDONED: u32 = 0x80;

/// `WaitForSingleObject`: the timeout elapsed.
pub const WAIT_TIMEOUT: u32 = 0x102;

/// Name of the mutex guarding the map `name`.
pub fn map_mutex_name(name: &str) -> (r: String)
    ensures
        r@ == name@ + "_mutex"@,
{
    let mut r = name.to_owned();
    r.append("_mutex");
    r
}

/// Name of the frame count semaphore of sender `name`.
pub fn frame_semaphore_name(name: &str) -> (r: String)
    ensures
        r@ == name@ + "_Count_Semaphore"@,
{
    let mut r = name.to_owned();
    r.append("_Count_Semaphore");
    r
}

/// Name of the texture access mutex of sender `name`.
pub fn access_mutex_name(name: &str) -> (r: String)
    ensures
        r@ == name@ + "_SpoutAccessMutex"@,
{
    let mut r = name.to_owned();
    r.append("_SpoutAccessMutex");
    r
}

/// The message of the error an unusable map size gives.
pub open spec fn invalid_size_message(size: nat) -> Seq<char> {
    "invalid map size "@ + decimal(size)
}

/// Whether a map of `size` bytes can be created: mappings are at least one
/// byte and their size is passed to the system as 32 bits.
pub fn check_map_size(size: usize) -> (r: Result<()>)
    ensures
        match r {
            Ok(()) => 0 < size <= u32::MAX,
            Err(e) => {
                &&& !(0 < size <= u32::MAX)
                &&& e matches Error::InvalidArgument(m) && m@ == invalid_size_message(size as nat)
            },
        },
{
    if size == 0 || size > 0xffff_ffff {
        let mut message = String::new();
        message.append("invalid map size ");
        push_decimal(&mut message, size as u64);
        return Err(Error::InvalidArgument(message));
    }
    Ok(())
}

/// What waiting for a mutex returned: `Ok(true)` when it is acquired
/// (abandoned mutexes included, as the Spout SDK does), `Ok(false)` on
/// timeout, an OS error naming the mutex otherwise.
pub fn wait_result(status: u32, mutex_name: &str) -> (r: Result<bool>)
    ensures
        match r {
            Ok(acquired) => {
                &&& (status == WAIT_OBJECT_0 || status == WAIT_ABANDONED || status == WAIT_TIMEOUT)
                &&& acquired == (status != WAIT_TIMEOUT)
            },
            Err(e) => {
                &&& !(status == WAIT_OBJECT_0 || status == WAIT_ABANDONED || status
                    == WAIT_TIMEOUT)
                &&& e matches Error::Os { code, message } && code == status && message@
                    == "WaitForSingleObject("@ + mutex_name@ + ") failed"@
            },
        },
{
    if status == WAIT_OBJECT_0 || status == WAIT_ABANDONED {
        Ok(true)
    } else if status == WAIT_TIMEOUT {
        Ok(false)
    } else {
        let mut message = String::new();
        message.append("WaitForSingleObject(");
        message.append(mutex_name);
        message.append(") failed");
        Err(Error::Os { code: status as i64, message })
    }
}

/// Overwrite the beginning of the mapped view `view` with `data`; data
/// larger than the map is refused and the view left unchanged.
pub fn write_prefix(view: &mut [u8], data: &[u8]) -> (r: Result<()>)
    ensures
        match r {
            Ok(()) => {
                &&& data@.len() <= old(view)@.len()
                &&& final(view)@ == data@ + old(view)@.skip(data@.len() as int)
            },
            Err(e) => {
                &&& data@.len() > old(view)@.len()
                &&& final(view)@ == old(view)@
                &&& e == Error::SizeMismatch { expected: old(view)@.len() as usize, actual: data@.len() as usize }
            },
        },
{
    if data.len() > view.len() {
        return Err(Error::SizeMismatch { expected: view.len(), actual: data.len() });
    }
    let mut i: usize = 0;
    while i < data.len()
        invariant
            data@.len() <= old(view)@.len(),
            view@.len() == old(view)@.len(),
            i <= data@.len(),
            forall|j: int| 0 <= j < i ==> view@[j] == data@[j],
            forall|j: int| i <= j < view@.len() ==> view@[j] == old(view)@[j],
        decreases data@.len() - i,
    {
        view[i] = data[i];
        i = i + 1;
    }
    assert(view@ =~= data@ + old(view)@.skip(data@.len() as int));
    Ok(())
}

/// Whether `name` can name a kernel object: the `A` functions take NUL
/// terminated names, so a name may not hold a NUL character.
pub fn is_c_name(name: &str) -> (r: bool)
    ensures
        r == !name@.contains('\0'),
{
    let n = name.unicode_len();
    let mut i: usize = 0;
    while i < n
        invariant
            n == name@.len(),
            i <= n,
            forall|j: int| 0 <= j < i ==> name@[j] != '\0',
        decreases n - i,
    {
        if name.get_char(i) == '\0' {
            return false;
        }
        i = i + 1;
    }
    true
}

} // verus!

//! Frame counting through the `<name>_Count_Semaphore` semaphore.
//!
//! The semaphore count itself is the frame number. The sender decrements by
//! one (`WaitForSingleObject` with zero timeout) and releases by two, for a
//! net increment of one; a receiver decrements and releases by one, reading
//! the previous count without changing it. The semaphore calls are made by
//! the caller; [`FrameCount`] decides what their results mean.

use vstd::prelude::*;

verus! {

/// Count a sender releases after a successful wait (net increment of one).
pub const SENDER_RELEASE_COUNT: i32 = 2;

/// Count a sender releases to restore the semaphore when the wait failed,
/// and that a receiver releases after its wait.
pub const RESTORE_RELEASE_COUNT: i32 = 1;

/// Initial count of a new frame count semaphore.
pub const INITIAL_COUNT: i32 = 1;

/// Frame counting state shared by senders and receivers.
#[derive(Debug, Clone, Copy, PartialEq, Eq, Structural)]
pub struct FrameCount {
    /// Whether the registry enables frame counting.
    pub enabled: bool,
    /// Whether the frame count semaphore is open.
    pub has_semaphore: bool,
    /// Frames counted locally (sent frames for a sender, received frames for
    /// a receiver).
    pub frame_count: u64,
    /// Latest semaphore value observed (sender frame number).
    pub last_count: Option<i32>,
}

/// `x + 1`, wrapping at `u64::MAX`.
pub open spec fn wrapping_inc(x: u64) -> u64 {
    if x == u64::MAX {
        0
    } else {
        (x + 1) as u64
    }
}

/// `x + 2` saturated at `i32::MAX`.
pub open spec fn saturating_add_two(x: i32) -> i32 {
    if x > i32::MAX - 2 {
        i32::MAX
    } else {
        (x + 2) as i32
    }
}

/// Whether a receiver poll that read `observed` from the semaphore (`None`
/// when frame counting is off or the semaphore could not be read) sees a
/// new frame, given the count seen last.
pub open spec fn is_new_frame(last: Option<i32>, observed: Option<i32>) -> bool {
    match observed {
        None => true,
        Some(c) => c == 0 || last != Some(c),
    }
}

/// The frame counting state after a receiver poll that read `observed`.
pub open spec fn after_poll(f: FrameCount, observed: Option<i32>) -> FrameCount {
    FrameCount {
        last_count: match observed {
            Some(c) => Some(c),
            None => f.last_count,
        },
        frame_count: if is_new_frame(f.last_count, observed) {
            wrapping_inc(f.frame_count)
        } else {
            f.frame_count
        },
        ..f
    }
}

impl FrameCount {
    /// The sender frame number last observed: the semaphore count, negative
    /// values read as 0, and 0 before any was observed.
    pub open spec fn observed_frame(self) -> u64 {
        match self.last_count {
            Some(c) => if c > 0 {
                c as u64
            } else {
                0
            },
            None => 0,
        }
    }


    /// Frame counting state for a sender or receiver; the semaphore is
    /// opened exactly when the registry enables frame counting.
    pub fn new(enabled: bool) -> (r: Self)
        ensures
            r == (FrameCount {
                enabled,
                has_semaphore: enabled,
                frame_count: 0,
                last_count: None,
            }),
    {
        FrameCount { enabled, has_semaphore: enabled, frame_count: 0, last_count: None }
    }

    /// Whether frame counting is active.
    pub fn is_enabled(&self) -> (r: bool)
        ensures
            r == (self.enabled && self.has_semaphore),
    {
        self.enabled && self.has_semaphore
    }

    /// Frames counted locally.
    pub fn frame_count(&self) -> (r: u64)
        ensures
            r == self.frame_count,
    {
        self.frame_count
    }

    /// Latest semaphore value observed by a receiver (sender frame number),
    /// negative values read as 0.
    pub fn sender_frame(&self) -> (r: u64)
        ensures
            r == self.observed_frame(),
    {
        match self.last_count {
            Some(c) => if c > 0 {
                c as u64
            } else {
                0
            },
            None => 0,
        }
    }

    /// Sender side: record a new frame. `released` is the previous count
    /// returned by releasing [`SENDER_RELEASE_COUNT`] after a successful
    /// wait, or `None` when there is no semaphore, the wait failed (the
    /// caller then restores the count) or the release failed.
    pub fn set_new_frame(&mut self, released: Option<i32>)
        ensures
            final(self).frame_count == wrapping_inc(old(self).frame_count),
            final(self).last_count == match released {
                Some(p) => Some(saturating_add_two(p)),
                None => old(self).last_count,
            },
            final(self).enabled == old(self).enabled,
            final(self).has_semaphore == old(self).has_semaphore,
    {
        self.frame_count = if self.frame_count == u64::MAX {
            0
        } else {
            self.frame_count + 1
        };
        if let Some(previous) = released {
            self.last_count = Some(
                if previous > i32::MAX - 2 {
                    i32::MAX
                } else {
                    previous + 2
                },
            );
        }
    }

    /// Receiver side: whether the sender produced a new frame since the last
    /// call. `observed` is the previous count returned by releasing
    /// [`RESTORE_RELEASE_COUNT`] after a successful wait, or `None` when
    /// there is no semaphore, the wait failed or the release failed; every
    /// such poll counts as new. A count of 0 means the sender does not count
    /// frames, so every poll is new as well.
    pub fn get_new_frame(&mut self, observed: Option<i32>) -> (r: bool)
        ensures
            r == is_new_frame(old(self).last_count, observed),
            *final(self) == after_poll(*old(self), observed),
    {
        let is_new = match observed {
            None => true,
            Some(current) => {
                let new = current == 0 || self.last_count != Some(current);
                self.last_count = Some(current);
                new
            },
        };
        if is_new {
            self.frame_count = if self.frame_count == u64::MAX {
                0
            } else {
                self.frame_count + 1
            };
        }
        is_new
    }

    /// Forget the last observed count so the next frame is reported as new.
    pub fn reset(&mut self)
        ensures
            *final(self) == (FrameCount { last_count: None, ..*old(self) }),
    {
        self.last_count = None;
    }
}

/// A receiver that polls the same non-zero count twice sees one new frame:
/// the second poll is not new. A count of 0, an unreadable semaphore, and
/// the first poll after a reset always are.
pub proof fn lemma_frame_is_counted_once(last: Option<i32>, c: i32)
    ensures
        c != 0 ==> !is_new_frame(Some(c), Some(c)),
        is_new_frame(last, Some(0)),
        is_new_frame(last, None),
        is_new_frame(None, Some(c)),
{
}

} // verus!

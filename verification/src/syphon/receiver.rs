//! The decisions of an auto-connecting Syphon receiver: which server to
//! follow and what a receive reports.
//!
//! The caller owns the directory and the client; a [`SyphonReceiverState`]
//! keeps the target and the frame flag and picks the server to connect to.

use vstd::prelude::*;

use crate::syphon::description::ServerDescription;
use crate::text::{same_optional_text, str_eq};

verus! {

/// What a Syphon receiver follows and reports.
#[derive(Debug)]
pub struct SyphonReceiverState {
    /// UUID or name of the server to follow; `None` follows the first
    /// server known.
    pub target: Option<String>,
    /// Whether the last receive produced a new frame.
    pub frame_new: bool,
}

/// Whether server `i` of `servers` is the one a target picks: the first
/// named by it, or the first server when there is no target.
pub open spec fn picks(servers: Seq<ServerDescription>, target: Option<String>, i: int) -> bool {
    match target {
        Some(t) => servers[i].is_named(t@) && forall|j: int| 0 <= j < i ==> !servers[j].is_named(t@),
        None => i == 0,
    }
}

impl SyphonReceiverState {
    /// A receiver following `target` (UUID or name; `None` = the first
    /// server).
    pub fn new(target: Option<&str>) -> (r: Self)
        ensures
            same_optional_text(r.target, target),
            !r.frame_new,
    {
        let target = match target {
            Some(t) => Some(t.to_owned()),
            None => None,
        };
        SyphonReceiverState { target, frame_new: false }
    }

    /// Change the server to follow. Returns whether it changed; the caller
    /// then drops its client.
    pub fn set_target(&mut self, target: Option<&str>) -> (changed: bool)
        ensures
            changed == !same_optional_text(old(self).target, target),
            same_optional_text(final(self).target, target),
            changed ==> !final(self).frame_new,
            !changed ==> final(self).frame_new == old(self).frame_new && final(self).target
                == old(self).target,
    {
        let same = match (&self.target, target) {
            (Some(t), Some(u)) => str_eq(t.as_str(), u),
            (None, None) => true,
            _ => false,
        };
        if same {
            return false;
        }
        self.target = match target {
            Some(u) => Some(u.to_owned()),
            None => None,
        };
        self.frame_new = false;
        true
    }

    /// The server to connect to among those the directory knows: the first
    /// one named by the target, or the first one when there is no target;
    /// `None` when there is no such server or it offers no IOSurface.
    pub fn pick_server(&self, servers: &[ServerDescription]) -> (r: Option<usize>)
        ensures
            match r {
                Some(i) => i < servers@.len() && picks(servers@, self.target, i as int)
                    && servers@[i as int].offers_iosurface(),
                None => forall|i: int|
                    0 <= i < servers@.len() && #[trigger] picks(servers@, self.target, i)
                        ==> !servers@[i].offers_iosurface(),
            },
    {
        let index = match &self.target {
            Some(t) => crate::syphon::directory::find_server(servers, t.as_str()),
            None => if servers.len() > 0 {
                Some(0)
            } else {
                None
            },
        };
        match index {
            Some(i) => if servers[i].supports_iosurface() {
                Some(i)
            } else {
                None
            },
            None => None,
        }
    }

    /// A receive that found no connected surface.
    pub fn skip_frame(&mut self)
        ensures
            !final(self).frame_new,
            final(self).target == old(self).target,
    {
        self.frame_new = false;
    }

    /// A receive from the client: whether it produced a frame.
    pub fn received(&mut self, got_frame: bool)
        ensures
            final(self).frame_new == got_frame,
            final(self).target == old(self).target,
    {
        self.frame_new = got_frame;
    }

    /// Whether the last receive produced a new frame.
    pub fn is_frame_new(&self) -> (r: bool)
        ensures
            r == self.frame_new,
    {
        self.frame_new
    }
}

} // verus!

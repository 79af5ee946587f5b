//! What a Syphon directory knows of the servers on the machine.
//!
//! Servers announce themselves, report updates and retire through
//! distributed notifications, which the caller observes and passes on as
//! descriptions. A directory asks every server to announce itself; servers
//! that do not answer within the announce timeout are dropped, as the
//! Syphon framework does. Measuring that timeout is the caller's
//! business.

use vstd::prelude::*;

use crate::info::SenderInfo;
use crate::syphon::description::ServerDescription;
use crate::syphon::server::{add_uuid, distinct, uuid_set};
use crate::text::str_eq;

verus! {

/// The servers of `servers` whose UUID is not `uuid`, in order.
pub open spec fn without_server(servers: Seq<ServerDescription>, uuid: Seq<char>) -> Seq<
    ServerDescription,
>
    decreases servers.len(),
{
    if servers.len() == 0 {
        seq![]
    } else {
        let rest = without_server(servers.drop_last(), uuid);
        if servers.last().uuid@ == uuid {
            rest
        } else {
            rest.push(servers.last())
        }
    }
}

/// The servers of `servers` whose UUID is in `responded`, in order.
pub open spec fn responding(servers: Seq<ServerDescription>, responded: Set<Seq<char>>) -> Seq<
    ServerDescription,
>
    decreases servers.len(),
{
    if servers.len() == 0 {
        seq![]
    } else {
        let rest = responding(servers.drop_last(), responded);
        if responded.contains(servers.last().uuid@) {
            rest.push(servers.last())
        } else {
            rest
        }
    }
}

/// The servers a directory lists as senders: those offering an IOSurface,
/// in order.
pub open spec fn iosurface_servers(servers: Seq<ServerDescription>) -> Seq<ServerDescription>
    decreases servers.len(),
{
    if servers.len() == 0 {
        seq![]
    } else {
        let rest = iosurface_servers(servers.drop_last());
        if servers.last().offers_iosurface() {
            rest.push(servers.last())
        } else {
            rest
        }
    }
}

/// Whether a server offers an IOSurface.
pub open spec fn offering_iosurface() -> spec_fn(ServerDescription) -> bool {
    |s: ServerDescription| s.offers_iosurface()
}

/// The IOSurface servers of a directory are exactly its servers that offer
/// an IOSurface, in directory order: every one of them is kept, and no other
/// server is.
pub proof fn lemma_iosurface_servers_filter(servers: Seq<ServerDescription>)
    ensures
        iosurface_servers(servers) == servers.filter(offering_iosurface()),
        forall|k: int|
            0 <= k < iosurface_servers(servers).len() ==> (#[trigger] iosurface_servers(
                servers,
            )[k]).offers_iosurface(),
        forall|j: int|
            0 <= j < servers.len() && servers[j].offers_iosurface() ==> #[trigger] iosurface_servers(
                servers,
            ).contains(servers[j]),
    decreases servers.len(),
{
    reveal(Seq::filter);
    let kept = iosurface_servers(servers);
    if servers.len() > 0 {
        let front = servers.drop_last();
        let rest = iosurface_servers(front);
        lemma_iosurface_servers_filter(front);
        assert forall|j: int| 0 <= j < servers.len() && servers[j].offers_iosurface() implies #[trigger] kept.contains(
            servers[j],
        ) by {
            if j < servers.len() - 1 {
                assert(front[j] == servers[j]);
                assert(rest.contains(front[j]));
                let k = choose|k: int| 0 <= k < rest.len() && rest[k] == front[j];
                assert(kept[k] == rest[k]);
            } else {
                assert(kept[kept.len() - 1] == servers[j]);
            }
        }
        assert forall|k: int| 0 <= k < kept.len() implies (#[trigger] kept[k]).offers_iosurface() by {
            if k < rest.len() {
                assert(kept[k] == rest[k]);
            }
        }
    }
}

/// Whether no UUID occurs twice among `servers`.
pub open spec fn distinct_servers(servers: Seq<ServerDescription>) -> bool {
    forall|i: int, j: int| 0 <= i < j < servers.len() ==> servers[i].uuid@ != servers[j].uuid@
}

/// Selecting servers among distinct ones keeps them distinct, and keeps
/// only servers of the list.
proof fn lemma_select_distinct(servers: Seq<ServerDescription>, keep: Seq<bool>)
    requires
        distinct_servers(servers),
        keep.len() == servers.len(),
    ensures
        distinct_servers(select_servers(servers, keep)),
        forall|k: int|
            0 <= k < select_servers(servers, keep).len() ==> servers.contains(
                #[trigger] select_servers(servers, keep)[k],
            ),
    decreases servers.len(),
{
    if servers.len() > 0 {
        let front = servers.drop_last();
        let flags = keep.drop_last();
        assert forall|i: int, j: int| 0 <= i < j < front.len() implies front[i].uuid@
            != front[j].uuid@ by {
            assert(front[i] == servers[i] && front[j] == servers[j]);
        }
        lemma_select_distinct(front, flags);
        let rest = select_servers(front, flags);
        assert forall|k: int| 0 <= k < rest.len() implies servers.contains(#[trigger] rest[k]) by {
            let m = choose|m: int| 0 <= m < front.len() && front[m] == rest[k];
            assert(servers[m] == rest[k]);
        }
        if keep.last() {
            let all = rest.push(servers.last());
            assert forall|i: int, j: int| 0 <= i < j < all.len() implies all[i].uuid@
                != all[j].uuid@ by {
                if j == all.len() - 1 {
                    let m = choose|m: int| 0 <= m < front.len() && front[m] == rest[i];
                    assert(servers[m] == rest[i]);
                }
            }
            assert forall|k: int| 0 <= k < all.len() implies servers.contains(#[trigger] all[k]) by {
                if k == all.len() - 1 {
                    assert(servers[servers.len() - 1] == all[k]);
                } else {
                    assert(all[k] == rest[k]);
                }
            }
        }
    }
}

/// The servers of `servers` whose flag in `keep` is set.
fn keep_servers(servers: Vec<ServerDescription>, keep: &[bool]) -> (r: Vec<ServerDescription>)
    requires
        keep@.len() == servers@.len(),
        distinct_servers(servers@),
    ensures
        r@ == select_servers(servers@, keep@),
        distinct_servers(r@),
{
    let ghost all = servers@;
    proof {
        lemma_select_distinct(all, keep@);
    }
    let mut kept: Vec<ServerDescription> = Vec::new();
    let mut rest = servers;
    let mut i: usize = 0;
    let n = rest.len();
    assert(all.skip(0) =~= all);
    while i < n
        invariant
            n == all.len(),
            keep@.len() == n,
            i <= n,
            rest@ == all.skip(i as int),
            kept@ == select_servers(all.take(i as int), keep@.take(i as int)),
        decreases n - i,
    {
        let server = rest.remove(0);
        assert(server == all[i as int]);
        assert(all.take(i + 1).drop_last() =~= all.take(i as int));
        assert(keep@.take(i + 1).drop_last() =~= keep@.take(i as int));
        assert(all.take(i + 1).last() == all[i as int]);
        assert(keep@.take(i + 1).last() == keep@[i as int]);
        if keep[i] {
            kept.push(server);
        }
        assert(rest@ =~= all.skip(i + 1));
        i = i + 1;
    }
    assert(all.take(n as int) =~= all);
    assert(keep@.take(n as int) =~= keep@);
    kept
}

/// The servers of `servers` whose flag in `keep` is set, in order.
pub open spec fn select_servers(servers: Seq<ServerDescription>, keep: Seq<bool>) -> Seq<
    ServerDescription,
>
    decreases servers.len(),
{
    if servers.len() == 0 || keep.len() == 0 {
        seq![]
    } else {
        let rest = select_servers(servers.drop_last(), keep.drop_last());
        if keep.last() {
            rest.push(servers.last())
        } else {
            rest
        }
    }
}

/// Selecting by flags that say "not this UUID" is removing the UUID.
proof fn lemma_select_without(servers: Seq<ServerDescription>, keep: Seq<bool>, uuid: Seq<char>)
    requires
        keep.len() == servers.len(),
        forall|i: int| 0 <= i < servers.len() ==> keep[i] == (servers[i].uuid@ != uuid),
    ensures
        select_servers(servers, keep) == without_server(servers, uuid),
    decreases servers.len(),
{
    if servers.len() > 0 {
        lemma_select_without(servers.drop_last(), keep.drop_last(), uuid);
    }
}

/// Selecting by flags that say "responded" keeps the servers that responded.
proof fn lemma_select_responding(
    servers: Seq<ServerDescription>,
    keep: Seq<bool>,
    responded: Set<Seq<char>>,
)
    requires
        keep.len() == servers.len(),
        forall|i: int| 0 <= i < servers.len() ==> keep[i] == responded.contains(servers[i].uuid@),
    ensures
        select_servers(servers, keep) == responding(servers, responded),
    decreases servers.len(),
{
    if servers.len() > 0 {
        lemma_select_responding(servers.drop_last(), keep.drop_last(), responded);
    }
}

/// Whether `uuid` is one of `list`.
fn contains_uuid(list: &Vec<String>, uuid: &str) -> (r: bool)
    ensures
        r == uuid_set(list@).contains(uuid@),
{
    proof {
        crate::syphon::server::lemma_uuid_set(list@, uuid@);
    }
    let mut i: usize = 0;
    while i < list.len()
        invariant
            i <= list@.len(),
            forall|j: int| 0 <= j < i ==> list@[j]@ != uuid@,
        decreases list@.len() - i,
    {
        if str_eq(list[i].as_str(), uuid) {
            assert(list@[i as int]@ == uuid@);
            proof {
                crate::syphon::server::lemma_uuid_set(list@, uuid@);
            }
            return true;
        }
        i = i + 1;
    }
    false
}

/// What a directory knows of the servers.
#[derive(Debug)]
pub struct DirectoryState {
    /// Known servers, in the order they appeared.
    pub servers: Vec<ServerDescription>,
    /// UUIDs of the servers seen since the last announce request.
    pub responded: Vec<String>,
    /// Whether an announce request awaits its timeout.
    pub pending_request: bool,
}

impl DirectoryState {
    /// Each server and each responding UUID is known once.
    pub open spec fn well_formed(&self) -> bool {
        distinct_servers(self.servers@) && distinct(self.responded@)
    }

    /// A directory that knows no server.
    pub fn new() -> (r: Self)
        ensures
            r.servers@.len() == 0,
            r.responded@.len() == 0,
            !r.pending_request,
            r.well_formed(),
    {
        DirectoryState { servers: Vec::new(), responded: Vec::new(), pending_request: false }
    }

    /// An announce request goes out: forget who responded and start the
    /// timeout.
    pub fn request_announcements(&mut self)
        ensures
            final(self).servers@ == old(self).servers@,
            final(self).responded@.len() == 0,
            final(self).pending_request,
            old(self).well_formed() ==> final(self).well_formed(),
    {
        self.responded = Vec::new();
        self.pending_request = true;
    }

    /// A server announced itself or reported an update: it responded, and
    /// its description replaces the one known under its UUID, or is added.
    pub fn announce(&mut self, desc: ServerDescription)
        requires
            old(self).well_formed(),
        ensures
            final(self).well_formed(),
            uuid_set(final(self).responded@) == uuid_set(old(self).responded@).insert(desc.uuid@),
            final(self).pending_request == old(self).pending_request,
            match known_index(old(self).servers@, desc.uuid@) {
                Some(i) => final(self).servers@ == old(self).servers@.update(i, desc),
                None => final(self).servers@ == old(self).servers@.push(desc),
            },
    {
        add_uuid(&mut self.responded, desc.uuid.as_str());
        let ghost before = self.servers@;
        let ghost responded = self.responded@;
        let mut i: usize = 0;
        while i < self.servers.len()
            invariant
                i <= self.servers@.len(),
                self.servers@ == before,
                self.responded@ == responded,
                distinct(responded),
                uuid_set(responded) == uuid_set(old(self).responded@).insert(desc.uuid@),
                distinct_servers(before),
                before == old(self).servers@,
                self.pending_request == old(self).pending_request,
                forall|j: int| 0 <= j < i ==> before[j].uuid@ != desc.uuid@,
            decreases self.servers@.len() - i,
        {
            if str_eq(self.servers[i].uuid.as_str(), desc.uuid.as_str()) {
                proof {
                    lemma_known_index(before, desc.uuid@, i as int);
                }
                let ghost replaced = before.update(i as int, desc);
                self.servers.set(i, desc);
                assert forall|a: int, b: int| 0 <= a < b < replaced.len() implies replaced[a].uuid@
                    != replaced[b].uuid@ by {
                    assert(before[a].uuid@ != before[b].uuid@);
                }
                return;
            }
            i = i + 1;
        }
        proof {
            lemma_unknown_index(before, desc);
        }
        self.servers.push(desc);
    }

    /// A server retired: it is forgotten.
    pub fn retire(&mut self, uuid: &str)
        requires
            old(self).well_formed(),
        ensures
            final(self).well_formed(),
            final(self).servers@ == without_server(old(self).servers@, uuid@),
            uuid_set(final(self).responded@) == uuid_set(old(self).responded@).remove(uuid@),
            final(self).pending_request == old(self).pending_request,
    {
        let mut keep: Vec<bool> = Vec::new();
        let mut i: usize = 0;
        while i < self.servers.len()
            invariant
                i <= self.servers@.len(),
                keep@.len() == i,
                forall|j: int| 0 <= j < i ==> keep@[j] == (self.servers@[j].uuid@ != uuid@),
            decreases self.servers@.len() - i,
        {
            keep.push(!str_eq(self.servers[i].uuid.as_str(), uuid));
            i = i + 1;
        }
        let mut servers: Vec<ServerDescription> = Vec::new();
        core::mem::swap(&mut servers, &mut self.servers);
        proof {
            lemma_select_without(servers@, keep@, uuid@);
        }
        let kept = keep_servers(servers, keep.as_slice());
        self.servers = kept;
        crate::syphon::server::remove_uuid(&mut self.responded, uuid);
    }

    /// The servers known, once the announce timeout is settled: when a
    /// request is pending and `timed_out` tells that its timeout elapsed,
    /// the servers that did not respond are dropped and the request is
    /// over.
    pub fn servers(&mut self, timed_out: bool) -> (r: Vec<ServerDescription>)
        requires
            old(self).well_formed(),
        ensures
            final(self).well_formed(),
            old(self).pending_request && timed_out ==> {
                &&& final(self).servers@ == responding(
                    old(self).servers@,
                    uuid_set(old(self).responded@),
                )
                &&& final(self).responded@.len() == 0
                &&& !final(self).pending_request
            },
            !(old(self).pending_request && timed_out) ==> {
                &&& final(self).servers@ == old(self).servers@
                &&& final(self).responded@ == old(self).responded@
                &&& final(self).pending_request == old(self).pending_request
            },
            r@.len() == final(self).servers@.len(),
            forall|k: int| 0 <= k < r@.len() ==> #[trigger] r@[k].same_as(final(self).servers@[k]),
    {
        if self.pending_request && timed_out {
            let mut keep: Vec<bool> = Vec::new();
            let mut i: usize = 0;
            while i < self.servers.len()
                invariant
                    i <= self.servers@.len(),
                    keep@.len() == i,
                    forall|j: int|
                        0 <= j < i ==> keep@[j] == uuid_set(self.responded@).contains(
                            self.servers@[j].uuid@,
                        ),
                decreases self.servers@.len() - i,
            {
                keep.push(contains_uuid(&self.responded, self.servers[i].uuid.as_str()));
                i = i + 1;
            }
            let mut servers: Vec<ServerDescription> = Vec::new();
        core::mem::swap(&mut servers, &mut self.servers);
            proof {
                lemma_select_responding(servers@, keep@, uuid_set(self.responded@));
            }
            let kept = keep_servers(servers, keep.as_slice());
            self.servers = kept;
            self.responded = Vec::new();
            self.pending_request = false;
        }
        let mut r: Vec<ServerDescription> = Vec::new();
        let mut i: usize = 0;
        while i < self.servers.len()
            invariant
                i <= self.servers@.len(),
                r@.len() == i,
                forall|k: int| 0 <= k < i ==> #[trigger] r@[k].same_as(self.servers@[k]),
            decreases self.servers@.len() - i,
        {
            r.push(self.servers[i].duplicate());
            i = i + 1;
        }
        r
    }
}

/// Position of the server known under `uuid`, if any.
pub open spec fn known_index(servers: Seq<ServerDescription>, uuid: Seq<char>) -> Option<int> {
    if exists|i: int| 0 <= i < servers.len() && #[trigger] servers[i].uuid@ == uuid {
        Some(choose|i: int| 0 <= i < servers.len() && #[trigger] servers[i].uuid@ == uuid)
    } else {
        None
    }
}

/// Among distinct UUIDs, the server found under `uuid` is the one known.
proof fn lemma_known_index(servers: Seq<ServerDescription>, uuid: Seq<char>, i: int)
    requires
        distinct_servers(servers),
        0 <= i < servers.len(),
        servers[i].uuid@ == uuid,
    ensures
        known_index(servers, uuid) == Some(i),
{
    let k = choose|k: int| 0 <= k < servers.len() && #[trigger] servers[k].uuid@ == uuid;
    if k != i {
        if k < i {
            assert(servers[k].uuid@ != servers[i].uuid@);
        } else {
            assert(servers[i].uuid@ != servers[k].uuid@);
        }
    }
}

/// A UUID no server has is not known, and a server with that UUID can join
/// them.
proof fn lemma_unknown_index(servers: Seq<ServerDescription>, desc: ServerDescription)
    requires
        forall|j: int| 0 <= j < servers.len() ==> servers[j].uuid@ != desc.uuid@,
        distinct_servers(servers),
    ensures
        known_index(servers, desc.uuid@) is None,
        distinct_servers(servers.push(desc)),
{
    let all = servers.push(desc);
    assert forall|a: int, b: int| 0 <= a < b < all.len() implies all[a].uuid@ != all[b].uuid@ by {
        if b == servers.len() {
            assert(servers[a].uuid@ != desc.uuid@);
        } else {
            assert(servers[a].uuid@ != servers[b].uuid@);
        }
    }
}

/// Whether `info` is how a directory lists server `s`: by UUID and display
/// name, without size.
pub open spec fn lists_server(info: SenderInfo, s: ServerDescription) -> bool {
    &&& info.id@ == s.uuid@
    &&& info.name@ == s.display_name()
    &&& info.width == 0
    &&& info.height == 0
}

/// The senders a directory lists: the servers offering an IOSurface, as
/// sender descriptions without size.
pub fn sender_list(servers: &[ServerDescription]) -> (r: Vec<SenderInfo>)
    ensures
        r@.len() == iosurface_servers(servers@).len(),
        forall|k: int|
            0 <= k < r@.len() ==> lists_server(#[trigger] r@[k], iosurface_servers(servers@)[k]),
        r@.len() == servers@.filter(offering_iosurface()).len(),
        forall|k: int|
            0 <= k < r@.len() ==> lists_server(
                #[trigger] r@[k],
                servers@.filter(offering_iosurface())[k],
            ),
        forall|j: int|
            0 <= j < servers@.len() && servers@[j].offers_iosurface() ==> exists|k: int|
                0 <= k < r@.len() && lists_server(#[trigger] r@[k], servers@[j]),
{
    let mut r: Vec<SenderInfo> = Vec::new();
    let mut i: usize = 0;
    while i < servers.len()
        invariant
            i <= servers@.len(),
            r@.len() == iosurface_servers(servers@.take(i as int)).len(),
            forall|k: int|
                0 <= k < r@.len() ==> lists_server(
                    #[trigger] r@[k],
                    iosurface_servers(servers@.take(i as int))[k],
                ),
        decreases servers@.len() - i,
    {
        assert(servers@.take(i + 1).drop_last() =~= servers@.take(i as int));
        assert(servers@.take(i + 1).last() == servers@[i as int]);
        if servers[i].supports_iosurface() {
            r.push(servers[i].to_sender_info(0, 0));
        }
        i = i + 1;
    }
    let ghost whole = servers@.take(i as int);
    assert(whole =~= servers@);
    proof {
        lemma_iosurface_servers_filter(servers@);
        let listed = iosurface_servers(servers@);
        assert forall|j: int| 0 <= j < servers@.len() && servers@[j].offers_iosurface() implies exists|
            k: int,
        | 0 <= k < r@.len() && lists_server(#[trigger] r@[k], servers@[j]) by {
            assert(listed.contains(servers@[j]));
            let k = choose|k: int| 0 <= k < listed.len() && listed[k] == servers@[j];
            assert(lists_server(r@[k], listed[k]));
        }
    }
    r
}

/// Position of the first server whose UUID or name is `needle`.
pub fn find_server(servers: &[ServerDescription], needle: &str) -> (r: Option<usize>)
    ensures
        match r {
            Some(i) => i < servers@.len() && servers@[i as int].is_named(needle@) && forall|j: int|
                0 <= j < i ==> !servers@[j].is_named(needle@),
            None => forall|j: int| 0 <= j < servers@.len() ==> !servers@[j].is_named(needle@),
        },
{
    let mut i: usize = 0;
    while i < servers.len()
        invariant
            i <= servers@.len(),
            forall|j: int| 0 <= j < i ==> !servers@[j].is_named(needle@),
        decreases servers@.len() - i,
    {
        if servers[i].matches(needle) {
            return Some(i);
        }
        i = i + 1;
    }
    None
}

/// The UUID a retirement notification names: the one of the description it
/// carries, else its object.
pub fn retired_uuid(from_description: Option<String>, object: Option<String>) -> (r: Option<String>)
    ensures
        r == match from_description {
            Some(u) => Some(u),
            None => object,
        },
{
    match from_description {
        Some(u) => Some(u),
        None => object,
    }
}

/// A server that retired is no longer listed: no server left by a
/// retirement has its UUID, and every other server stays.
pub proof fn lemma_retired_server_gone(servers: Seq<ServerDescription>, uuid: Seq<char>)
    ensures
        forall|k: int|
            0 <= k < without_server(servers, uuid).len() ==> (#[trigger] without_server(
                servers,
                uuid,
            )[k]).uuid@ != uuid,
        forall|i: int|
            0 <= i < servers.len() && servers[i].uuid@ != uuid ==> without_server(
                servers,
                uuid,
            ).contains(#[trigger] servers[i]),
    decreases servers.len(),
{
    if servers.len() > 0 {
        let front = servers.drop_last();
        lemma_retired_server_gone(front, uuid);
        let rest = without_server(front, uuid);
        assert forall|i: int|
            0 <= i < servers.len() && servers[i].uuid@ != uuid implies without_server(
            servers,
            uuid,
        ).contains(#[trigger] servers[i]) by {
            if i < front.len() {
                assert(front[i] == servers[i]);
                let k = choose|k: int| 0 <= k < rest.len() && rest[k] == servers[i];
                assert(without_server(servers, uuid)[k] == servers[i]);
            } else {
                assert(servers.last() == servers[i]);
                assert(without_server(servers, uuid)[rest.len() as int] == servers[i]);
            }
        }
    }
}

/// Once an announce request timed out, the servers listed are exactly
/// those that responded since: each listed server responded, and each
/// known server that responded is listed.
pub proof fn lemma_timeout_keeps_responders(
    servers: Seq<ServerDescription>,
    responded: Set<Seq<char>>,
)
    ensures
        forall|k: int|
            0 <= k < responding(servers, responded).len() ==> responded.contains(
                (#[trigger] responding(servers, responded)[k]).uuid@,
            ),
        forall|i: int|
            0 <= i < servers.len() && responded.contains(servers[i].uuid@) ==> responding(
                servers,
                responded,
            ).contains(#[trigger] servers[i]),
    decreases servers.len(),
{
    if servers.len() > 0 {
        let front = servers.drop_last();
        lemma_timeout_keeps_responders(front, responded);
        let rest = responding(front, responded);
        assert forall|i: int|
            0 <= i < servers.len() && responded.contains(servers[i].uuid@) implies responding(
            servers,
            responded,
        ).contains(#[trigger] servers[i]) by {
            if i < front.len() {
                assert(front[i] == servers[i]);
                let k = choose|k: int| 0 <= k < rest.len() && rest[k] == servers[i];
                assert(responding(servers, responded)[k] == servers[i]);
            } else {
                assert(servers.last() == servers[i]);
                assert(responding(servers, responded)[rest.len() as int] == servers[i]);
            }
        }
    }
}

} // verus!

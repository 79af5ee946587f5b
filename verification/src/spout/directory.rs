//! Enumeration of Spout senders: what the directory reports of the names
//! registered and of their information maps.

use vstd::prelude::*;

use crate::error::{Error, Result};
use crate::format::PixelFormat;
use crate::info::SenderInfo;
use crate::spout::layout::SharedTextureInfo;

verus! {

/// Whether `info` describes sender `name` with information map `raw`: the
/// name is also the id, the executable path (when there is one) the
/// application name, and the map gives size and format.
pub open spec fn is_sender_info_of(info: SenderInfo, name: Seq<char>, raw: SharedTextureInfo) -> bool {
    &&& info.id@ == name
    &&& info.name@ == name
    &&& match info.app_name {
        Some(a) => raw.description@.len() > 0 && a@ == raw.description@,
        None => raw.description@.len() == 0,
    }
    &&& info.width == raw.width
    &&& info.height == raw.height
    &&& info.format == match PixelFormat::of_dxgi_code(raw.format) {
        Some(f) => f,
        None => PixelFormat::Bgra8Unorm,
    }
}

/// The senders a directory lists: each name whose information map exists
/// (`infos[i]` is the map of `names[i]`), in table order.
pub open spec fn listed_senders(names: Seq<Seq<char>>, infos: Seq<Option<SharedTextureInfo>>) -> Seq<
    (Seq<char>, SharedTextureInfo),
>
    decreases names.len(),
{
    if names.len() == 0 || infos.len() == 0 {
        seq![]
    } else {
        let rest = listed_senders(names.drop_last(), infos.drop_last());
        match infos.last() {
            Some(raw) => rest.push((names.last(), raw)),
            None => rest,
        }
    }
}

/// Description of sender `name` from its information map.
pub fn to_sender_info(name: &str, raw: &SharedTextureInfo) -> (r: SenderInfo)
    ensures
        is_sender_info_of(r, name@, *raw),
{
    let app_name = if raw.description.as_str().unicode_len() == 0 {
        None
    } else {
        Some(raw.description.clone())
    };
    SenderInfo {
        id: name.to_owned(),
        name: name.to_owned(),
        app_name,
        width: raw.width,
        height: raw.height,
        format: raw.pixel_format(),
    }
}

/// The senders to list for the registered `names`, given the information
/// map of each (`None` when it does not exist).
pub fn list_senders(names: &[String], infos: &[Option<SharedTextureInfo>]) -> (r: Vec<SenderInfo>)
    requires
        names@.len() == infos@.len(),
    ensures
        ({
            let listed = listed_senders(names@.map_values(|s: String| s@), infos@);
            &&& r@.len() == listed.len()
            &&& forall|k: int|
                0 <= k < r@.len() ==> is_sender_info_of(#[trigger] r@[k], listed[k].0, listed[k].1)
        }),
{
    let ghost all = names@.map_values(|s: String| s@);
    let mut r: Vec<SenderInfo> = Vec::new();
    let mut i: usize = 0;
    while i < names.len()
        invariant
            i <= names@.len(),
            names@.len() == infos@.len(),
            all == names@.map_values(|s: String| s@),
            ({
                let listed = listed_senders(all.take(i as int), infos@.take(i as int));
                &&& r@.len() == listed.len()
                &&& forall|k: int|
                    0 <= k < r@.len() ==> is_sender_info_of(
                        #[trigger] r@[k],
                        listed[k].0,
                        listed[k].1,
                    )
            }),
        decreases names@.len() - i,
    {
        assert(all.take(i + 1).drop_last() =~= all.take(i as int));
        assert(infos@.take(i + 1).drop_last() =~= infos@.take(i as int));
        assert(all.take(i + 1).last() == names@[i as int]@);
        assert(infos@.take(i + 1).last() == infos@[i as int]);
        match &infos[i] {
            Some(raw) => {
                let info = to_sender_info(names[i].as_str(), raw);
                r.push(info);
            },
            None => {},
        }
        i = i + 1;
    }
    assert(all.take(names@.len() as int) =~= all);
    assert(infos@.take(names@.len() as int) =~= infos@);
    r
}

/// Description of the active sender `active` from its information map,
/// when both exist; otherwise the directory reports the first sender it
/// lists.
pub fn active_sender_info(active: Option<&str>, raw: Option<&SharedTextureInfo>) -> (r: Option<
    SenderInfo,
>)
    ensures
        match r {
            Some(info) => active matches Some(a) && raw matches Some(m) && is_sender_info_of(
                info,
                a@,
                *m,
            ),
            None => active is None || raw is None,
        },
{
    match (active, raw) {
        (Some(a), Some(m)) => Some(to_sender_info(a, m)),
        _ => None,
    }
}

/// Whether sender `id` can be made active: it must exist (`exists` tells
/// whether its information map does).
pub fn check_sender_exists(id: &str, exists: bool) -> (r: Result<()>)
    ensures
        match r {
            Ok(()) => exists,
            Err(e) => {
                &&& !exists
                &&& e matches Error::NotFound(n) && n@ == id@
            },
        },
{
    if !exists {
        return Err(Error::NotFound(id.to_owned()));
    }
    Ok(())
}

} // verus!

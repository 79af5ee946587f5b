//! The system-wide sender registry: the `SpoutSenderNames` table, the
//! `ActiveSenderName` map and the per-sender information maps.
//!
//! Opening, locking and mapping the shared memory is the caller's business.
//! These functions work on the bytes of a mapped (and locked) map and decide
//! what the registry does with them.

use vstd::prelude::*;

use crate::error::{Error, Result};
use crate::spout::layout::{
    decode_c_string, decode_sender_names, encode_sender_names, is_unique_name, sender_names_of,
    sender_table_image, unique_sender_name, SharedTextureInfo, SHARED_TEXTURE_INFO_LEN,
    decoded_info, lemma_sender_names_round_trip, name_fits_slot,
};
use crate::text::{
    c_string_image, c_string_value, decimal, lemma_c_string_round_trip, push_decimal, str_eq,
    str_texts, texts,
};
use vstd::utf8::encode_utf8;

verus! {

/// The message of the error a full sender table gives.
pub open spec fn full_table_message(max_senders: nat) -> Seq<char> {
    "sender table is full ("@ + decimal(max_senders) + " senders)"@
}

/// `names` without every occurrence of `name`, in order.
pub open spec fn without_name(names: Seq<Seq<char>>, name: Seq<char>) -> Seq<Seq<char>>
    decreases names.len(),
{
    if names.len() == 0 {
        seq![]
    } else {
        let rest = without_name(names.drop_last(), name);
        if names.last() == name {
            rest
        } else {
            rest.push(names.last())
        }
    }
}

/// Whether a name is other than `name`.
pub open spec fn other_than(name: Seq<char>) -> spec_fn(Seq<char>) -> bool {
    |n: Seq<char>| n != name
}

/// Releasing `name` keeps, in their order, exactly the names that differ
/// from it: the result is the table filtered by [`other_than`], so no name left
/// is the released one and every other name is still there.
pub proof fn lemma_release_keeps_others(names: Seq<Seq<char>>, name: Seq<char>)
    ensures
        without_name(names, name) == names.filter(other_than(name)),
        forall|i: int|
            0 <= i < without_name(names, name).len() ==> #[trigger] without_name(names, name)[i]
                != name,
        forall|j: int|
            0 <= j < names.len() && names[j] != name ==> #[trigger] without_name(
                names,
                name,
            ).contains(names[j]),
    decreases names.len(),
{
    reveal(Seq::filter);
    let kept = without_name(names, name);
    if names.len() > 0 {
        let front = names.drop_last();
        let rest = without_name(front, name);
        lemma_release_keeps_others(front, name);
        assert(names.filter(other_than(name)) == if names.last() != name {
            front.filter(other_than(name)).push(names.last())
        } else {
            front.filter(other_than(name))
        });
        assert forall|j: int| 0 <= j < names.len() && names[j] != name implies #[trigger] kept.contains(
            names[j],
        ) by {
            if j < names.len() - 1 {
                assert(front[j] == names[j]);
                assert(rest.contains(front[j]));
                let k = choose|k: int| 0 <= k < rest.len() && rest[k] == front[j];
                assert(kept[k] == rest[k]);
            } else {
                assert(kept[kept.len() - 1] == names[j]);
            }
        }
        assert forall|i: int| 0 <= i < kept.len() implies #[trigger] kept[i] != name by {
            if i < rest.len() {
                assert(kept[i] == rest[i]);
            }
        }
    }
}

/// The names whose flag in `flags` equals `want`, in order.
pub open spec fn select_names(names: Seq<Seq<char>>, flags: Seq<bool>, want: bool) -> Seq<
    Seq<char>,
>
    decreases names.len(),
{
    if names.len() == 0 || flags.len() == 0 {
        seq![]
    } else {
        let rest = select_names(names.drop_last(), flags.drop_last(), want);
        if flags.last() == want {
            rest.push(names.last())
        } else {
            rest
        }
    }
}

/// The name that becomes active in place of a sender that went away: the
/// first remaining sender, or the empty name (no active sender) when none
/// remains.
pub open spec fn successor(remaining: Seq<Seq<char>>) -> Seq<char> {
    if remaining.len() > 0 {
        remaining[0]
    } else {
        ""@
    }
}

/// The names of a table as string slices, in order.
fn name_slices(names: &Vec<String>) -> (r: Vec<&str>)
    ensures
        str_texts(r@) == texts(names@),
{
    let mut r: Vec<&str> = Vec::new();
    let mut i: usize = 0;
    while i < names.len()
        invariant
            i <= names@.len(),
            r@.len() == i,
            forall|j: int| 0 <= j < i ==> #[trigger] r@[j]@ == names@[j]@,
        decreases names@.len() - i,
    {
        r.push(names[i].as_str());
        i = i + 1;
    }
    assert(str_texts(r@) =~= texts(names@));
    r
}

/// Register `name` in the sender name table `table`, which has room for
/// `max_senders` names.
///
/// The name is made unique (`name_1`, `name_2`, ...) when it is taken.
/// Returns the name registered and the number of names the table then
/// holds; a full table is left unchanged and gives an error.
pub fn register_name(table: &mut [u8], name: &str, max_senders: usize) -> (r: Result<(String, usize)>)
    requires
        max_senders <= u32::MAX,
    ensures
        ({
            let names = sender_names_of(old(table)@);
            match r {
                Ok((unique, count)) => {
                    &&& names.len() < max_senders
                    &&& is_unique_name(name@, names, unique@)
                    &&& count == names.len() + 1
                    &&& final(table)@ == sender_table_image(names.push(unique@), old(table)@.len())
                },
                Err(e) => {
                    &&& names.len() >= max_senders
                    &&& final(table)@ == old(table)@
                    &&& e matches Error::Backend(m) && m@ == full_table_message(max_senders as nat)
                },
            }
        }),
{
    let names = decode_sender_names(table);
    if names.len() >= max_senders {
        let mut message = String::new();
        message.append("sender table is full (");
        push_decimal(&mut message, max_senders as u64);
        message.append(" senders)");
        return Err(Error::Backend(message));
    }
    let mut all = name_slices(&names);
    assert(all@.len() == str_texts(all@).len());
    let unique = unique_sender_name(name, all.as_slice());
    let ghost before = str_texts(all@);
    all.push(unique.as_str());
    assert(str_texts(all@) =~= before.push(unique@));
    let count = all.len();
    encode_sender_names(all.as_slice(), table);
    Ok((unique, count))
}

/// Whether a sender just registered becomes the active sender: it does when
/// it is the only sender, or when no other sender that still exists is
/// active. `active_exists` tells whether the information map of `active`
/// exists.
pub fn should_activate(count: usize, registered: &str, active: Option<&str>, active_exists: bool) -> (r:
    bool)
    ensures
        r == (count == 1 || !(active matches Some(a) && a@ != registered@ && active_exists)),
{
    let active_valid = match active {
        Some(a) => !str_eq(a, registered) && active_exists,
        None => false,
    };
    count == 1 || !active_valid
}

/// Remove every occurrence of `name` from the sender name table `table`.
///
/// Returns the names that remain. The table is rewritten only when the name
/// was there.
pub fn release_name(table: &mut [u8], name: &str) -> (remaining: Vec<String>)
    ensures
        texts(remaining@) == without_name(sender_names_of(old(table)@), name@),
        texts(remaining@) == sender_names_of(old(table)@).filter(other_than(name@)),
        forall|i: int| 0 <= i < remaining@.len() ==> (#[trigger] remaining@[i])@ != name@,
        forall|j: int|
            0 <= j < sender_names_of(old(table)@).len() && sender_names_of(old(table)@)[j]
                != name@ ==> texts(remaining@).contains(#[trigger] sender_names_of(old(table)@)[j]),
        final(table)@ == if remaining@.len() == sender_names_of(old(table)@).len() {
            old(table)@
        } else {
            sender_table_image(texts(remaining@), old(table)@.len())
        },
{
    let names = decode_sender_names(table);
    let ghost all = texts(names@);
    let mut remaining: Vec<String> = Vec::new();
    let mut i: usize = 0;
    while i < names.len()
        invariant
            i <= names@.len(),
            all == texts(names@),
            texts(remaining@) == without_name(all.take(i as int), name@),
            remaining@.len() <= i,
        decreases names@.len() - i,
    {
        let ghost prefix = all.take(i as int);
        assert(all.take(i + 1).drop_last() =~= prefix);
        assert(all.take(i + 1).last() == names@[i as int]@);
        if !str_eq(names[i].as_str(), name) {
            let ghost before = texts(remaining@);
            remaining.push(names[i].clone());
            assert(texts(remaining@) =~= before.push(names@[i as int]@));
        }
        i = i + 1;
    }
    assert(all.take(names@.len() as int) =~= all);
    proof {
        lemma_release_keeps_others(all, name@);
        assert forall|i: int| 0 <= i < remaining@.len() implies (#[trigger] remaining@[i])@
            != name@ by {
            assert(texts(remaining@)[i] == remaining@[i]@);
        }
    }
    if remaining.len() != names.len() {
        let slices = name_slices(&remaining);
        encode_sender_names(slices.as_slice(), table);
    }
    remaining
}

/// The name to make active after `released` left the table, given the
/// active name and the names that remain: `None` when the active sender is
/// another one (nothing changes), else the first remaining name, or the
/// empty name that clears the active sender.
pub fn active_after_release(active: Option<&str>, released: &str, remaining: &[String]) -> (r:
    Option<String>)
    ensures
        match r {
            Some(next) => active matches Some(a) && a@ == released@ && next@ == successor(
                texts(remaining@),
            ),
            None => !(active matches Some(a) && a@ == released@),
        },
{
    match active {
        Some(a) => {
            if str_eq(a, released) {
                Some(first_or_empty(remaining))
            } else {
                None
            }
        },
        None => None,
    }
}

/// The first name, or the empty name when there is none.
fn first_or_empty(names: &[String]) -> (r: String)
    ensures
        r@ == successor(texts(names@)),
{
    proof {
        reveal_strlit("");
    }
    if names.len() > 0 {
        assert(texts(names@)[0] == names@[0]@);
        names[0].clone()
    } else {
        String::new()
    }
}

/// Remove from the sender name table `table` the names whose sender is gone:
/// `alive[i]` tells whether the information map of name `i` still exists.
///
/// Returns the names removed, in table order. The table is rewritten only
/// when a name was removed, and then holds the live names.
pub fn clean_names(table: &mut [u8], alive: &[bool]) -> (removed: Vec<String>)
    requires
        alive@.len() == sender_names_of(old(table)@).len(),
    ensures
        texts(removed@) == select_names(sender_names_of(old(table)@), alive@, false),
        final(table)@ == if removed@.len() == 0 {
            old(table)@
        } else {
            sender_table_image(
                select_names(sender_names_of(old(table)@), alive@, true),
                old(table)@.len(),
            )
        },
{
    let names = decode_sender_names(table);
    let ghost all = texts(names@);
    let mut live: Vec<String> = Vec::new();
    let mut dead: Vec<String> = Vec::new();
    let mut i: usize = 0;
    while i < names.len()
        invariant
            i <= names@.len(),
            all == texts(names@),
            alive@.len() == names@.len(),
            texts(live@) == select_names(all.take(i as int), alive@.take(i as int), true),
            texts(dead@) == select_names(all.take(i as int), alive@.take(i as int), false),
        decreases names@.len() - i,
    {
        assert(all.take(i + 1).drop_last() =~= all.take(i as int));
        assert(alive@.take(i + 1).drop_last() =~= alive@.take(i as int));
        assert(all.take(i + 1).last() == names@[i as int]@);
        assert(alive@.take(i + 1).last() == alive@[i as int]);
        if alive[i] {
            let ghost before = texts(live@);
            live.push(names[i].clone());
            assert(texts(live@) =~= before.push(names@[i as int]@));
        } else {
            let ghost before = texts(dead@);
            dead.push(names[i].clone());
            assert(texts(dead@) =~= before.push(names@[i as int]@));
        }
        i = i + 1;
    }
    assert(all.take(names@.len() as int) =~= all);
    assert(alive@.take(names@.len() as int) =~= alive@);
    if dead.len() > 0 {
        let slices = name_slices(&live);
        encode_sender_names(slices.as_slice(), table);
    }
    dead
}

/// Whether `name` is one of `names`.
fn contains_name(names: &[String], name: &str) -> (r: bool)
    ensures
        r == texts(names@).contains(name@),
{
    let mut i: usize = 0;
    while i < names.len()
        invariant
            i <= names@.len(),
            forall|j: int| 0 <= j < i ==> names@[j]@ != name@,
        decreases names@.len() - i,
    {
        if str_eq(names[i].as_str(), name) {
            assert(texts(names@)[i as int] == name@);
            return true;
        }
        i = i + 1;
    }
    assert forall|j: int| 0 <= j < names@.len() implies texts(names@)[j] != name@ by {
        assert(texts(names@)[j] == names@[j]@);
    }
    false
}

/// The name to make active after a clean removed `removed`, given the active
/// name and the names the table now holds: `None` when the active sender
/// was not removed (nothing changes), else the first name of the table, or
/// the empty name that clears the active sender.
pub fn active_after_clean(active: Option<&str>, removed: &[String], names: &[String]) -> (r: Option<
    String,
>)
    ensures
        match r {
            Some(next) => active matches Some(a) && texts(removed@).contains(a@) && next@
                == successor(texts(names@)),
            None => !(active matches Some(a) && texts(removed@).contains(a@)),
        },
{
    match active {
        Some(a) => {
            if contains_name(removed, a) {
                Some(first_or_empty(names))
            } else {
                None
            }
        },
        None => None,
    }
}

/// The active sender named by the bytes of the `ActiveSenderName` map:
/// `None` when the name is empty.
pub fn active_name(bytes: &[u8]) -> (r: Option<String>)
    ensures
        match r {
            Some(name) => name@ == c_string_value(bytes@) && name@.len() > 0,
            None => c_string_value(bytes@).len() == 0,
        },
{
    let name = decode_c_string(bytes);
    if name.as_str().unicode_len() == 0 {
        None
    } else {
        Some(name)
    }
}

/// Read a sender information map from its bytes (`SenderInfoMap::read`):
/// an error when the map is shorter than 280 bytes.
pub fn read_info(bytes: &[u8]) -> (r: Result<SharedTextureInfo>)
    ensures
        match r {
            Ok(info) => bytes@.len() >= SHARED_TEXTURE_INFO_LEN && info@ == decoded_info(bytes@),
            Err(e) => {
                &&& bytes@.len() < SHARED_TEXTURE_INFO_LEN
                &&& e matches Error::Backend(m) && m@ == "sender info map is too small"@
            },
        },
{
    match SharedTextureInfo::decode(bytes) {
        Some(info) => Ok(info),
        None => Err(Error::backend("sender info map is too small")),
    }
}

/// Removing a name that is not there changes nothing.
pub proof fn lemma_without_absent(names: Seq<Seq<char>>, name: Seq<char>)
    requires
        !names.contains(name),
    ensures
        without_name(names, name) == names,
    decreases names.len(),
{
    if names.len() > 0 {
        let front = names.drop_last();
        assert(!front.contains(name)) by {
            if front.contains(name) {
                let i = choose|i: int| 0 <= i < front.len() && front[i] == name;
                assert(names[i] == name);
            }
        }
        lemma_without_absent(front, name);
        assert(names.last() != name) by {
            assert(names[names.len() - 1] == names.last());
        }
        assert(front.push(names.last()) =~= names);
    }
}

/// A sender that registers its name and later releases it leaves the table
/// as it found it: registering `unique` (a name not taken, which
/// `register_name` guarantees) into a table of names that fit their slots,
/// with room left, makes the table read as those names followed by
/// `unique`; releasing `unique` then leaves the names before, which the
/// rewritten table reads as.
pub proof fn lemma_register_then_release(names: Seq<Seq<char>>, unique: Seq<char>, n: nat)
    requires
        forall|k: int| 0 <= k < names.len() ==> name_fits_slot(#[trigger] names[k]),
        name_fits_slot(unique),
        !names.contains(unique),
        (names.len() + 1) * 256 <= n,
    ensures
        sender_names_of(sender_table_image(names.push(unique), n)) == names.push(unique),
        without_name(names.push(unique), unique) == names,
        sender_names_of(sender_table_image(names, n)) == names,
{
    let all = names.push(unique);
    assert forall|k: int| 0 <= k < all.len() implies name_fits_slot(#[trigger] all[k]) by {
        if k < names.len() {
            assert(all[k] == names[k]);
        }
    }
    lemma_sender_names_round_trip(all, n);
    assert(all.len() <= n / 256) by (nonlinear_arith)
        requires
            all.len() * 256 <= n,
    ;
    assert(all.take(all.len() as int) =~= all);
    lemma_sender_names_round_trip(names, n);
    assert(names.take(names.len() as int) =~= names);
    lemma_without_absent(names, unique);
    assert(all.drop_last() =~= names);
}

/// The active sender read back is the one set: writing a name that fits
/// the 256-byte `ActiveSenderName` map (not empty, no NUL, at most 255 bytes)
/// and reading the map gives that name.
pub proof fn lemma_active_name_round_trip(name: Seq<char>)
    requires
        name_fits_slot(name),
    ensures
        c_string_value(c_string_image(encode_utf8(name), 256)) == name,
        c_string_value(c_string_image(encode_utf8(name), 256)).len() > 0,
{
    lemma_c_string_round_trip(name, 256);
}

} // verus!

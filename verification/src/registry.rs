//! The registry of links: one table, kept by key, and two indexes over it
//! that are brought up to date with every write.
//!
//! A link is stored under a key of its own. The index by address lists, for
//! each address, the keys of its links; the index by social identity does
//! the same for each identity. A query walks one index and reads the table
//! under each key that it lists, in the ascending order of the keys' bytes.

use crate::state::{
    hits, index_address_insert, index_address_remove, index_social_insert, index_social_remove,
    is_listing, load_record, save_record, scan_by_address, scan_by_social, storage_error, Store,
    StoreState, UserInfo, UserRecord,
};
use crate::text::{byte_len, fits, key_lt, key_lt_irreflexive, key_lt_transitive, text_fits};
use cosmwasm_std::StdError;
use vstd::prelude::*;

verus! {

impl StoreState {
    /// Whether the indexes and the table agree: an index lists a key for an
    /// address, or for an identity, exactly when the table holds under that
    /// key a link of that address, or of that identity; and every link
    /// fits the indexes' keys.
    pub open spec fn well_formed(self) -> bool {
        &&& forall|a: Seq<char>, k: Seq<char>| #[trigger]
            self.by_address.contains((a, k)) <==> self.records.contains_key(k)
                && self.records[k].address == a
        &&& forall|s: (Seq<char>, Seq<char>), k: Seq<char>| #[trigger]
            self.by_social.contains((s, k)) <==> self.records.contains_key(k)
                && self.records[k].social() == s
        &&& forall|k: Seq<char>|
            self.records.contains_key(k) ==> (#[trigger] self.records[k]).fits()
    }

    /// The state after the indexes have let go of the link under `key`.
    /// A link that does not fit an index key has no entry to let go of.
    pub open spec fn unindexed(self, key: Seq<char>) -> StoreState {
        if self.records.contains_key(key) && self.records[key].fits() {
            StoreState {
                by_address: self.by_address.remove((self.records[key].address, key)),
                by_social: self.by_social.remove((self.records[key].social(), key)),
                ..self
            }
        } else {
            self
        }
    }

    /// The state after `link` has been stored under `key`: the indexes let
    /// go of what was under the key before and list the key for the new
    /// link, and the table holds the new link, which can be read.
    pub open spec fn linked(self, key: Seq<char>, link: UserRecord) -> StoreState {
        let cleared = self.unindexed(key);
        StoreState {
            records: cleared.records.insert(key, link),
            unreadable: cleared.unreadable.remove(key),
            by_address: cleared.by_address.insert((link.address, key)),
            by_social: cleared.by_social.insert((link.social(), key)),
            ..cleared
        }
    }

    /// Whether `link` can be stored under `key`: every part of the link
    /// fits an index key, the key's length fits four bytes, and what the
    /// table holds under the key, if anything, can be read.
    pub open spec fn can_link(self, key: Seq<char>, link: UserRecord) -> bool {
        link.fits() && byte_len(key) <= u32::MAX && !self.unreadable.contains(key)
    }

    /// Whether `found` lists the links of `address`: each of them once,
    /// with its key, in the ascending order of the keys' bytes.
    pub open spec fn lists_address(
        self,
        found: Seq<(Seq<char>, UserRecord)>,
        address: Seq<char>,
    ) -> bool {
        if fits(address) {
            is_listing(found, self.keys_by_address(address), self.records)
        } else {
            found.len() == 0
        }
    }

    /// Whether `found` lists the links of the identity `social`: each of
    /// them once, with its key, in the ascending order of the keys' bytes.
    pub open spec fn lists_social(
        self,
        found: Seq<(Seq<char>, UserRecord)>,
        social: (Seq<char>, Seq<char>),
    ) -> bool {
        if fits(social.0) && fits(social.1) {
            is_listing(found, self.keys_by_social(social), self.records)
        } else {
            found.len() == 0
        }
    }
}

/// The keys and links of a list of found links, as contracts see them.
pub open spec fn found_links(found: Seq<(String, UserInfo)>) -> Seq<(Seq<char>, UserRecord)> {
    found.map_values(|hit: (String, UserInfo)| (hit.0@, hit.1@))
}

/// Stores `info` under `key` and brings both indexes up to date.
///
/// The entries of the link that was under the key are taken out of the
/// indexes, the entries of the new link are put in, and the table is
/// written last. A link that does not fit an index key, or a key whose
/// length does not fit four bytes, is refused with a storage error; so is
/// a key under which the table holds bytes that cannot be read, with the
/// storage layer's error. Nothing is written where the link is refused.
pub fn save_user_info(store: &mut Store<'_>, key: &str, info: &UserInfo) -> (r: Result<
    (),
    StdError,
>)
    ensures
        r is Ok <==> old(store)@.can_link(key@, info@),
        r is Ok ==> final(store)@ == old(store)@.linked(key@, info@),
        r is Err ==> final(store)@ == old(store)@,
{
    if !text_fits(info.address.as_str()) || !text_fits(info.platform_id.as_str()) || !text_fits(
        info.profile_id.as_str(),
    ) {
        return Err(storage_error("each part of a link takes at most 65535 bytes"));
    }
    if key.as_bytes().len() as u64 > u32::MAX as u64 {
        return Err(storage_error("a link's key takes at most 4294967295 bytes"));
    }
    let before = match load_record(store, key) {
        Ok(before) => before,
        Err(e) => {
            return Err(e);
        },
    };
    if let Some(link) = before {
        if text_fits(link.address.as_str()) && text_fits(link.platform_id.as_str()) && text_fits(
            link.profile_id.as_str(),
        ) {
            match index_address_remove(store, key, &link) {
                Ok(_) => {},
                Err(e) => {
                    return Err(e);
                },
            }
            match index_social_remove(store, key, &link) {
                Ok(_) => {},
                Err(e) => {
                    return Err(e);
                },
            }
        }
    }
    assert(store@ == old(store)@.unindexed(key@));
    match index_address_insert(store, key, info) {
        Ok(_) => {},
        Err(e) => {
            return Err(e);
        },
    }
    match index_social_insert(store, key, info) {
        Ok(_) => {},
        Err(e) => {
            return Err(e);
        },
    }
    save_record(store, key, info)
}

/// Keeps the links of a scan and leaves out the entries that could not be
/// read.
fn readable(items: Vec<Result<(String, UserInfo), StdError>>) -> (found: Vec<(String, UserInfo)>)
    ensures
        found_links(found@) == hits(items@),
{
    let mut found: Vec<(String, UserInfo)> = Vec::new();
    let mut i: usize = 0;
    assert(items@.subrange(0, 0) =~= Seq::empty());
    while i < items.len()
        invariant
            i <= items.len(),
            found_links(found@) == hits(items@.subrange(0, i as int)),
        decreases items.len() - i,
    {
        let ghost upto = items@.subrange(0, i + 1);
        proof {
            assert(upto.drop_last() =~= items@.subrange(0, i as int));
            assert(upto.last() == items@[i as int]);
        }
        match &items[i] {
            Ok(hit) => {
                let ghost earlier = found@;
                found.push((hit.0.clone(), hit.1.clone()));
                assert(found_links(found@) =~= found_links(earlier).push((hit.0@, hit.1@)));
            },
            Err(_) => {},
        }
        i = i + 1;
    }
    assert(items@.subrange(0, i as int) =~= items@);
    found
}

/// The links of an address, each with its key, in the ascending order of
/// the keys' bytes. An address too long for an index key has no link.
pub fn links_by_address(store: &Store<'_>, address: &str) -> (found: Vec<(String, UserInfo)>)
    ensures
        store@.lists_address(found_links(found@), address@),
{
    if !text_fits(address) {
        return Vec::new();
    }
    readable(scan_by_address(store, address))
}

/// The links of a social identity, each with its key, in the ascending
/// order of the keys' bytes. An identity too long for an index key has no
/// link.
pub fn links_by_social(store: &Store<'_>, platform: &str, profile_id: &str) -> (found: Vec<
    (String, UserInfo),
>)
    ensures
        store@.lists_social(found_links(found@), (platform@, profile_id@)),
{
    if !text_fits(platform) || !text_fits(profile_id) {
        return Vec::new();
    }
    readable(scan_by_social(store, platform, profile_id))
}

/// A listing is determined by what it lists: two listings of the same keys
/// over the same table are equal.
pub proof fn listing_is_unique(
    a: Seq<(Seq<char>, UserRecord)>,
    b: Seq<(Seq<char>, UserRecord)>,
    wanted: Set<Seq<char>>,
    records: Map<Seq<char>, UserRecord>,
)
    requires
        is_listing(a, wanted, records),
        is_listing(b, wanted, records),
    ensures
        a == b,
    decreases a.len(),
{
    if a.len() == 0 {
        if b.len() > 0 {
            assert(wanted.contains(b[0].0));
        }
        assert(a =~= b);
    } else {
        let k = a[0].0;
        assert(wanted.contains(k));
        let j = choose|j: int| 0 <= j < b.len() && #[trigger] b[j].0 == k;
        assert(wanted.contains(b[0].0));
        let i = choose|i: int| 0 <= i < a.len() && #[trigger] a[i].0 == b[0].0;
        if j > 0 && i > 0 {
            key_lt_transitive(b[0].0, b[j].0, a[i].0);
            key_lt_irreflexive(b[0].0);
        }
        assert(b[0].0 == k);
        assert(a[0] == b[0]);
        let rest = wanted.remove(k);
        listing_of_the_rest(a, wanted, records);
        listing_of_the_rest(b, wanted, records);
        listing_is_unique(a.drop_first(), b.drop_first(), rest, records);
        assert(a =~= seq![a[0]] + a.drop_first());
        assert(b =~= seq![b[0]] + b.drop_first());
    }
}

/// Without its first link, a listing lists the other keys.
proof fn listing_of_the_rest(
    a: Seq<(Seq<char>, UserRecord)>,
    wanted: Set<Seq<char>>,
    records: Map<Seq<char>, UserRecord>,
)
    requires
        is_listing(a, wanted, records),
        a.len() > 0,
    ensures
        is_listing(a.drop_first(), wanted.remove(a[0].0), records),
{
    let t = a.drop_first();
    let rest = wanted.remove(a[0].0);
    assert forall|i: int, j: int| 0 <= i < j < t.len() implies key_lt(
        #[trigger] t[i].0,
        #[trigger] t[j].0,
    ) by {
        assert(t[i] == a[i + 1] && t[j] == a[j + 1]);
    }
    assert forall|i: int| 0 <= i < t.len() implies rest.contains(#[trigger] t[i].0) && t[i].1
        == records[t[i].0] by {
        assert(t[i] == a[i + 1]);
        assert(key_lt(a[0].0, a[i + 1].0));
        key_lt_irreflexive(a[0].0);
    }
    assert forall|k: Seq<char>| rest.contains(k) implies exists|i: int|
        0 <= i < t.len() && #[trigger] t[i].0 == k by {
        let i = choose|i: int| 0 <= i < a.len() && #[trigger] a[i].0 == k;
        assert(i > 0);
        assert(t[i - 1] == a[i]);
    }
}

} // verus!

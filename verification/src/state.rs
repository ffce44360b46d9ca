//! The registry's persistent state: what is stored, how contracts see it,
//! and the calls into the storage layer.
//!
//! The state lives in the host's key-value storage. It is written and read
//! through `cw-storage-plus`: two single values (the owner and the accepted
//! denominations), the table of links by key, and two indexes over that
//! table, by address and by social identity. The functions of this module
//! that call the storage layer are not verified: each one's contract says
//! what the call is taken to do, of a storage in which nothing but the
//! storage layer has written under these names, as the host grants a
//! contract of its own storage. Everything built on them is proved in
//! [`crate::registry`].
//!
//! A write fails only where its value cannot be encoded, and the values
//! written here (a text, a list of texts, a triple of texts, a length)
//! always can: the writes are taken to succeed. A read depends on the
//! bytes that it finds.

use crate::text::{byte_len, fits, key_lt, texts};
use cosmwasm_std::{Addr, Order, StdError, Storage};
use cw_storage_plus::{Index, Item, MultiIndex};
use vstd::prelude::*;

verus! {

/// The name of a social platform.
pub type Platform = String;

/// An account's identifier on its platform.
pub type ProfileId = String;

/// A social identity: a platform and a profile on it.
pub type SocialInfo = (Platform, ProfileId);

/// One link: an address and the social identity linked to it.
#[derive(Debug, PartialEq, Eq)]
pub struct UserInfo {
    pub address: String,
    pub platform_id: String,
    pub profile_id: String,
}

/// What a [`UserInfo`] is in contracts.
pub struct UserRecord {
    pub address: Seq<char>,
    pub platform_id: Seq<char>,
    pub profile_id: Seq<char>,
}

impl View for UserInfo {
    type V = UserRecord;

    open spec fn view(&self) -> UserRecord {
        UserRecord {
            address: self.address@,
            platform_id: self.platform_id@,
            profile_id: self.profile_id@,
        }
    }
}

impl Clone for UserInfo {
    fn clone(&self) -> (r: UserInfo)
        ensures
            r@ == self@,
    {
        UserInfo {
            address: self.address.clone(),
            platform_id: self.platform_id.clone(),
            profile_id: self.profile_id.clone(),
        }
    }
}

impl UserRecord {
    /// The social identity of the link: platform and profile.
    pub open spec fn social(self) -> (Seq<char>, Seq<char>) {
        (self.platform_id, self.profile_id)
    }

    /// Whether every part of the link can stand in an index key.
    pub open spec fn fits(self) -> bool {
        fits(self.address) && fits(self.platform_id) && fits(self.profile_id)
    }
}

/// A link in the form in which it is written to storage: address,
/// platform, profile.
pub type StoredInfo = (String, String, String);

impl UserInfo {
    /// The link in the form in which it is written to storage.
    pub fn to_stored(&self) -> (d: StoredInfo)
        ensures
            d.0@ == self@.address,
            d.1@ == self@.platform_id,
            d.2@ == self@.profile_id,
    {
        (self.address.clone(), self.platform_id.clone(), self.profile_id.clone())
    }

    /// The link that was written to storage as `d`.
    pub fn from_stored(d: StoredInfo) -> (info: UserInfo)
        ensures
            info@.address == d.0@,
            info@.platform_id == d.1@,
            info@.profile_id == d.2@,
    {
        UserInfo { address: d.0, platform_id: d.1, profile_id: d.2 }
    }
}

/// The index by address: the address of a stored link.
pub fn address_of(_pk: &[u8], d: &StoredInfo) -> (r: String)
    ensures
        r@ == d.0@,
{
    d.0.clone()
}

/// The index by social identity: the platform and profile of a stored link.
pub fn social_of(_pk: &[u8], d: &StoredInfo) -> (r: (String, String))
    ensures
        r.0@ == d.1@,
        r.1@ == d.2@,
{
    (d.1.clone(), d.2.clone())
}

/// The host's key-value storage, as handed to the contract for one call.
///
/// It holds a `&mut dyn cosmwasm_std::Storage`, a trait object that the
/// verifier cannot take. Nothing is known of it but what [`stored`] names.
#[verifier::external_body]
pub struct Store<'a> {
    pub inner: &'a mut dyn Storage,
}

/// What the storage holds, as far as the registry reads it.
pub struct StoreState {
    /// The owner's address, if one is stored and can be read.
    pub owner: Option<Seq<char>>,
    /// The accepted denominations, if a list is stored and can be read.
    pub accepted_tokens: Option<Seq<Seq<char>>>,
    /// The table of links: each key with the link that can be read under it.
    pub records: Map<Seq<char>, UserRecord>,
    /// The keys under which the table holds bytes that cannot be read as a
    /// link.
    pub unreadable: Set<Seq<char>>,
    /// The entries of the index by address: an address with a key.
    pub by_address: Set<(Seq<char>, Seq<char>)>,
    /// The entries of the index by social identity: an identity with a key.
    pub by_social: Set<((Seq<char>, Seq<char>), Seq<char>)>,
}

/// What a storage holds: the values under the keys `owner` and
/// `accepted_token`, the table `infos` with the keys under which it
/// cannot be read, and the entries of the indexes `infos__address` and
/// `infos__social_info`.
pub uninterp spec fn stored(store: Store<'_>) -> StoreState;

impl<'a> View for Store<'a> {
    type V = StoreState;

    open spec fn view(&self) -> StoreState {
        stored(*self)
    }
}

impl StoreState {
    /// The keys that the index by address lists for `address` and under
    /// which the table holds a link.
    pub open spec fn keys_by_address(self, address: Seq<char>) -> Set<Seq<char>> {
        Set::new(
            |k: Seq<char>| self.by_address.contains((address, k)) && self.records.contains_key(k),
        )
    }

    /// The keys that the index by social identity lists for `social` and
    /// under which the table holds a link.
    pub open spec fn keys_by_social(self, social: (Seq<char>, Seq<char>)) -> Set<Seq<char>> {
        Set::new(
            |k: Seq<char>| self.by_social.contains((social, k)) && self.records.contains_key(k),
        )
    }
}

/// The links among the items of a scan, in the order in which they came.
/// An index entry whose link cannot be read gives an error, which is left
/// out.
pub open spec fn hits(items: Seq<Result<(String, UserInfo), StdError>>) -> Seq<
    (Seq<char>, UserRecord),
>
    decreases items.len(),
{
    if items.len() == 0 {
        seq![]
    } else {
        let earlier = hits(items.drop_last());
        match items.last() {
            Ok(hit) => earlier.push((hit.0@, hit.1@)),
            Err(_) => earlier,
        }
    }
}

/// Whether `found` lists the links of `records` under the keys `wanted`:
/// each of them once, with its key, in the ascending order of the keys'
/// bytes.
pub open spec fn is_listing(
    found: Seq<(Seq<char>, UserRecord)>,
    wanted: Set<Seq<char>>,
    records: Map<Seq<char>, UserRecord>,
) -> bool {
    &&& forall|i: int, j: int|
        0 <= i < j < found.len() ==> key_lt(#[trigger] found[i].0, #[trigger] found[j].0)
    &&& forall|i: int|
        0 <= i < found.len() ==> wanted.contains(#[trigger] found[i].0) && found[i].1
            == records[found[i].0]
    &&& forall|k: Seq<char>|
        wanted.contains(k) ==> exists|i: int| 0 <= i < found.len() && #[trigger] found[i].0 == k
}

/// `Item::load` for the owner's address, stored under `owner`.
///
/// Taken on trust: the call gives the stored address where one is there
/// and can be read, and an error where not.
#[verifier::external_body]
pub(crate) fn load_owner(store: &Store<'_>) -> (r: Result<String, StdError>)
    ensures
        match r {
            Ok(owner) => stored(*store).owner == Some(owner@),
            Err(_) => stored(*store).owner is None,
        },
{
    Item::<Addr>::new("owner").load(&*store.inner).map(|a| a.into_string())
}

/// `Item::save` for the owner's address, stored under `owner`.
///
/// Taken on trust: the call succeeds, the owner read back is the one given
/// and nothing else has changed.
#[verifier::external_body]
pub(crate) fn save_owner(store: &mut Store<'_>, owner: &str) -> (r: Result<(), StdError>)
    ensures
        r is Ok,
        stored(*final(store)) == (StoreState { owner: Some(owner@), ..stored(*old(store)) }),
{
    Item::<Addr>::new("owner").save(&mut *store.inner, &Addr::unchecked(owner))
}

/// `Item::load` for the accepted denominations, stored under
/// `accepted_token`.
///
/// Taken on trust: the call gives the stored list where one is there and
/// can be read, and an error where not.
#[verifier::external_body]
pub(crate) fn load_accepted_tokens(store: &Store<'_>) -> (r: Result<Vec<String>, StdError>)
    ensures
        match r {
            Ok(tokens) => stored(*store).accepted_tokens == Some(texts(tokens@)),
            Err(_) => stored(*store).accepted_tokens is None,
        },
{
    Item::<Vec<String>>::new("accepted_token").load(&*store.inner)
}

/// `Item::save` for the accepted denominations, stored under
/// `accepted_token`.
///
/// Taken on trust: the call succeeds, the list read back is the one given
/// and nothing else has changed.
#[verifier::external_body]
pub(crate) fn save_accepted_tokens(store: &mut Store<'_>, tokens: &Vec<String>) -> (r: Result<
    (),
    StdError,
>)
    ensures
        r is Ok,
        stored(*final(store)) == (StoreState {
            accepted_tokens: Some(texts(tokens@)),
            ..stored(*old(store))
        }),
{
    Item::<Vec<String>>::new("accepted_token").save(&mut *store.inner, tokens)
}

/// `cw2::set_contract_version`, which writes the contract's name and
/// version under `contract_info`.
///
/// Taken on trust: the call succeeds and leaves what the registry reads as
/// it was.
#[verifier::external_body]
pub(crate) fn set_contract_version(store: &mut Store<'_>, name: &str, version: &str) -> (r: Result<
    (),
    StdError,
>)
    ensures
        r is Ok,
        stored(*final(store)) == stored(*old(store)),
{
    cw2::set_contract_version(&mut *store.inner, name, version)
}

/// `Map::may_load` on the table of links, `infos`.
///
/// Taken on trust: the call gives the link under `key` where the table
/// holds one that can be read, nothing where the table holds nothing under
/// the key, and an error where it holds bytes that cannot be read.
#[verifier::external_body]
pub(crate) fn load_record(store: &Store<'_>, key: &str) -> (r: Result<Option<UserInfo>, StdError>)
    ensures
        match r {
            Ok(Some(info)) => {
                &&& stored(*store).records.contains_key(key@)
                &&& stored(*store).records[key@] == info@
                &&& !stored(*store).unreadable.contains(key@)
            },
            Ok(None) => {
                &&& !stored(*store).records.contains_key(key@)
                &&& !stored(*store).unreadable.contains(key@)
            },
            Err(_) => {
                &&& !stored(*store).records.contains_key(key@)
                &&& stored(*store).unreadable.contains(key@)
            },
        },
{
    cw_storage_plus::Map::<&str, StoredInfo>::new("infos").may_load(&*store.inner, key).map(
        |found| found.map(UserInfo::from_stored),
    )
}

/// `Map::save` on the table of links, `infos`.
///
/// Taken on trust: the call succeeds, the table holds `info` under `key`,
/// in place of whatever was there, and nothing else has changed, the
/// indexes included.
#[verifier::external_body]
pub(crate) fn save_record(store: &mut Store<'_>, key: &str, info: &UserInfo) -> (r: Result<
    (),
    StdError,
>)
    ensures
        r is Ok,
        stored(*final(store)) == (StoreState {
            records: stored(*old(store)).records.insert(key@, info@),
            unreadable: stored(*old(store)).unreadable.remove(key@),
            ..stored(*old(store))
        }),
{
    cw_storage_plus::Map::<&str, StoredInfo>::new("infos").save(
        &mut *store.inner,
        key,
        &info.to_stored(),
    )
}

/// `MultiIndex::save` on the index by address, `infos__address`.
///
/// The call panics where the address takes more than 65535 bytes, and
/// writes the key's length as a `u32`: both are left out by `requires`.
/// Taken on trust: the call succeeds, the index lists `key` for the link's
/// address and nothing else has changed.
#[verifier::external_body]
pub(crate) fn index_address_insert(store: &mut Store<'_>, key: &str, info: &UserInfo) -> (r: Result<
    (),
    StdError,
>)
    requires
        fits(info@.address),
        byte_len(key@) <= u32::MAX,
    ensures
        r is Ok,
        stored(*final(store)) == (StoreState {
            by_address: stored(*old(store)).by_address.insert((info@.address, key@)),
            ..stored(*old(store))
        }),
{
    MultiIndex::<String, StoredInfo, String>::new(address_of, "infos", "infos__address").save(
        &mut *store.inner,
        key.as_bytes(),
        &info.to_stored(),
    )
}

/// `MultiIndex::remove` on the index by address, `infos__address`.
///
/// The call panics where the address takes more than 65535 bytes: that is
/// left out by `requires`. Taken on trust: the call succeeds, the index no
/// longer lists `key` for the link's address, and nothing else has changed.
#[verifier::external_body]
pub(crate) fn index_address_remove(store: &mut Store<'_>, key: &str, info: &UserInfo) -> (r: Result<
    (),
    StdError,
>)
    requires
        fits(info@.address),
    ensures
        r is Ok,
        stored(*final(store)) == (StoreState {
            by_address: stored(*old(store)).by_address.remove((info@.address, key@)),
            ..stored(*old(store))
        }),
{
    MultiIndex::<String, StoredInfo, String>::new(address_of, "infos", "infos__address").remove(
        &mut *store.inner,
        key.as_bytes(),
        &info.to_stored(),
    )
}

/// `MultiIndex::save` on the index by social identity,
/// `infos__social_info`.
///
/// The call panics where the platform or the profile takes more than 65535
/// bytes, and writes the key's length as a `u32`: both are left out by
/// `requires`. Taken on trust: the call succeeds, the index lists `key`
/// for the link's identity and nothing else has changed.
#[verifier::external_body]
pub(crate) fn index_social_insert(store: &mut Store<'_>, key: &str, info: &UserInfo) -> (r: Result<
    (),
    StdError,
>)
    requires
        fits(info@.platform_id),
        fits(info@.profile_id),
        byte_len(key@) <= u32::MAX,
    ensures
        r is Ok,
        stored(*final(store)) == (StoreState {
            by_social: stored(*old(store)).by_social.insert((info@.social(), key@)),
            ..stored(*old(store))
        }),
{
    MultiIndex::<(String, String), StoredInfo, String>::new(
        social_of,
        "infos",
        "infos__social_info",
    ).save(
        &mut *store.inner,
        key.as_bytes(),
        &info.to_stored(),
    )
}

/// `MultiIndex::remove` on the index by social identity,
/// `infos__social_info`.
///
/// The call panics where the platform or the profile takes more than 65535
/// bytes: that is left out by `requires`. Taken on trust: the call
/// succeeds, the index no longer lists `key` for the link's identity, and
/// nothing else has changed.
#[verifier::external_body]
pub(crate) fn index_social_remove(store: &mut Store<'_>, key: &str, info: &UserInfo) -> (r: Result<
    (),
    StdError,
>)
    requires
        fits(info@.platform_id),
        fits(info@.profile_id),
    ensures
        r is Ok,
        stored(*final(store)) == (StoreState {
            by_social: stored(*old(store)).by_social.remove((info@.social(), key@)),
            ..stored(*old(store))
        }),
{
    MultiIndex::<(String, String), StoredInfo, String>::new(
        social_of,
        "infos",
        "infos__social_info",
    ).remove(
        &mut *store.inner,
        key.as_bytes(),
        &info.to_stored(),
    )
}

/// `MultiIndex::prefix` and `Prefix::range` on the index by address,
/// ascending and without bounds.
///
/// The call panics where the address takes more than 65535 bytes: that is
/// left out by `requires`. Taken on trust: the items come in the ascending
/// order of the keys' bytes, one for each key that the index lists for the
/// address; an item is the key with the table's link under it, or an error
/// where the table holds none that can be read.
#[verifier::external_body]
pub(crate) fn scan_by_address(store: &Store<'_>, address: &str) -> (r: Vec<
    Result<(String, UserInfo), StdError>,
>)
    requires
        fits(address@),
    ensures
        is_listing(hits(r@), stored(*store).keys_by_address(address@), stored(*store).records),
{
    MultiIndex::<String, StoredInfo, String>::new(address_of, "infos", "infos__address")
        .prefix(address.to_string())
        .range(&*store.inner, None, None, Order::Ascending)
        .map(|item| item.map(|(k, d)| (k, UserInfo::from_stored(d))))
        .collect()
}

/// `MultiIndex::prefix` and `Prefix::range` on the index by social
/// identity, ascending and without bounds.
///
/// The call panics where the platform or the profile takes more than 65535
/// bytes: that is left out by `requires`. Taken on trust: the items come
/// in the ascending order of the keys' bytes, one for each key that the
/// index lists for the identity; an item is the key with the table's link
/// under it, or an error where the table holds none that can be read.
#[verifier::external_body]
pub(crate) fn scan_by_social(store: &Store<'_>, platform: &str, profile_id: &str) -> (r: Vec<
    Result<(String, UserInfo), StdError>,
>)
    requires
        fits(platform@),
        fits(profile_id@),
    ensures
        is_listing(
            hits(r@),
            stored(*store).keys_by_social((platform@, profile_id@)),
            stored(*store).records,
        ),
{
    MultiIndex::<(String, String), StoredInfo, String>::new(
        social_of,
        "infos",
        "infos__social_info",
    )
        .prefix((platform.to_string(), profile_id.to_string()))
        .range(&*store.inner, None, None, Order::Ascending)
        .map(|item| item.map(|(k, d)| (k, UserInfo::from_stored(d))))
        .collect()
}

/// `StdError::generic_err`: an error of the storage layer's kind, with a
/// message.
#[verifier::external_body]
pub(crate) fn storage_error(message: &str) -> StdError {
    StdError::generic_err(message)
}

} // verus!

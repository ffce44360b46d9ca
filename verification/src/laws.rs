//! What holds of the registry as a whole: laws that relate its operations
//! to one another, proved from their contracts.

use crate::chain::Response;
use crate::contract::{addresses_of, link_of, link_outcome, socials_of};
use crate::error::ContractError;
use crate::payment::fee_of;
use crate::registry::listing_is_unique;
use crate::state::{StoreState, UserRecord};
use crate::text::{
    fits, key_lt, key_lt_irreflexive, key_lt_transitive, link_key, link_key_tells_addresses_apart,
    link_key_tells_platforms_apart,
};
use vstd::prelude::*;

verus! {

/// Storing a link keeps the indexes and the table in agreement: from a
/// well-formed state, a link that fits leads to a well-formed state.
pub proof fn linking_keeps_well_formed(state: StoreState, key: Seq<char>, link: UserRecord)
    requires
        state.well_formed(),
        link.fits(),
    ensures
        state.linked(key, link).well_formed(),
{
    let after = state.linked(key, link);
    assert forall|a: Seq<char>, k: Seq<char>| #[trigger]
        after.by_address.contains((a, k)) <==> after.records.contains_key(k)
            && after.records[k].address == a by {
        assert(state.by_address.contains((a, k)) <==> state.records.contains_key(k)
            && state.records[k].address == a);
    }
    assert forall|s: (Seq<char>, Seq<char>), k: Seq<char>| #[trigger]
        after.by_social.contains((s, k)) <==> after.records.contains_key(k)
            && after.records[k].social() == s by {
        assert(state.by_social.contains((s, k)) <==> state.records.contains_key(k)
            && state.records[k].social() == s);
    }
}

/// A registry without links is well-formed: a state whose table and
/// indexes are empty has them in agreement.
pub proof fn an_empty_registry_is_well_formed(state: StoreState)
    requires
        state.records == Map::<Seq<char>, UserRecord>::empty(),
        state.by_address == Set::<(Seq<char>, Seq<char>)>::empty(),
        state.by_social == Set::<((Seq<char>, Seq<char>), Seq<char>)>::empty(),
    ensures
        state.well_formed(),
{
}

/// A request to link keeps the registry well-formed, whether it is carried
/// out or refused.
pub proof fn a_link_request_keeps_well_formed(
    before: StoreState,
    after: StoreState,
    sender: Seq<char>,
    social: (Seq<char>, Seq<char>),
    address: Seq<char>,
    r: Result<Response, ContractError>,
)
    requires
        before.well_formed(),
        link_outcome(before, after, sender, social, address, r),
    ensures
        after.well_formed(),
{
    if r is Ok {
        linking_keeps_well_formed(before, link_key(address, social.0), link_of(social, address));
    }
}

/// A request to link keeps every link under its key: where each stored link
/// stands under the key made of its address and its platform, it still
/// does after the request, whether it is carried out or refused.
pub proof fn a_link_request_keeps_links_under_their_keys(
    before: StoreState,
    after: StoreState,
    sender: Seq<char>,
    social: (Seq<char>, Seq<char>),
    address: Seq<char>,
    r: Result<Response, ContractError>,
)
    requires
        before.keyed_by_link(),
        link_outcome(before, after, sender, social, address, r),
    ensures
        after.keyed_by_link(),
{
    if r is Ok {
        let key = link_key(address, social.0);
        assert forall|k: Seq<char>| after.records.contains_key(k) implies k == link_key(
            (#[trigger] after.records[k]).address,
            after.records[k].platform_id,
        ) by {
            if k != key {
                assert(before.records.contains_key(k));
                assert(after.records[k] == before.records[k]);
            }
        }
    }
}

/// A refused request changes nothing: whenever a request to link is
/// answered with an error, the state is afterwards what it was.
pub proof fn a_refused_link_changes_nothing(
    before: StoreState,
    after: StoreState,
    sender: Seq<char>,
    social: (Seq<char>, Seq<char>),
    address: Seq<char>,
    r: Result<Response, ContractError>,
)
    requires
        link_outcome(before, after, sender, social, address, r),
        r is Err,
    ensures
        after == before,
{
}

/// The owner's request is carried out: a request by the owner to link what
/// fits the index keys, under a key where the table holds nothing that
/// cannot be read, succeeds and stores the link.
pub proof fn the_owner_links_what_can_be_linked(
    before: StoreState,
    after: StoreState,
    social: (Seq<char>, Seq<char>),
    address: Seq<char>,
    r: Result<Response, ContractError>,
)
    requires
        before.owner is Some,
        link_outcome(before, after, before.owner->0, social, address, r),
        link_of(social, address).fits(),
        !before.unreadable.contains(link_key(address, social.0)),
    ensures
        r is Ok,
        after == before.linked(link_key(address, social.0), link_of(social, address)),
{
}

/// In a well-formed state the indexes are exact: the keys listed for an
/// address are those of the links of that address and no others, and the
/// keys listed for an identity are those of the links of that identity
/// and no others.
pub proof fn the_indexes_are_exact(
    state: StoreState,
    address: Seq<char>,
    social: (Seq<char>, Seq<char>),
)
    requires
        state.well_formed(),
    ensures
        state.keys_by_address(address) == Set::new(
            |k: Seq<char>| state.records.contains_key(k) && state.records[k].address == address,
        ),
        state.keys_by_social(social) == Set::new(
            |k: Seq<char>| state.records.contains_key(k) && state.records[k].social() == social,
        ),
{
    assert forall|k: Seq<char>|
        state.keys_by_address(address).contains(k) <==> state.records.contains_key(k)
            && state.records[k].address == address by {
        assert(state.by_address.contains((address, k)) <==> state.records.contains_key(k)
            && state.records[k].address == address);
    }
    assert forall|k: Seq<char>|
        state.keys_by_social(social).contains(k) <==> state.records.contains_key(k)
            && state.records[k].social() == social by {
        assert(state.by_social.contains((social, k)) <==> state.records.contains_key(k)
            && state.records[k].social() == social);
    }
    assert(state.keys_by_address(address) =~= Set::new(
        |k: Seq<char>| state.records.contains_key(k) && state.records[k].address == address,
    ));
    assert(state.keys_by_social(social) =~= Set::new(
        |k: Seq<char>| state.records.contains_key(k) && state.records[k].social() == social,
    ));
}

/// In a well-formed state a stored link is listed for its address and for
/// its identity, under its key.
pub proof fn a_stored_link_is_listed(
    state: StoreState,
    key: Seq<char>,
    by_address: Seq<(Seq<char>, UserRecord)>,
    by_social: Seq<(Seq<char>, UserRecord)>,
)
    requires
        state.well_formed(),
        state.records.contains_key(key),
        state.lists_address(by_address, state.records[key].address),
        state.lists_social(by_social, state.records[key].social()),
    ensures
        by_address.contains((key, state.records[key])),
        by_social.contains((key, state.records[key])),
{
    let link = state.records[key];
    assert(link.fits());
    assert(state.by_address.contains((link.address, key)));
    assert(state.by_social.contains((link.social(), key)));
    assert(state.keys_by_address(link.address).contains(key));
    assert(state.keys_by_social(link.social()).contains(key));
    let i = choose|i: int| 0 <= i < by_address.len() && #[trigger] by_address[i].0 == key;
    assert(by_address[i] == (key, link));
    let j = choose|j: int| 0 <= j < by_social.len() && #[trigger] by_social[j].0 == key;
    assert(by_social[j] == (key, link));
}

/// A link is seen from both sides: once an identity has been linked to an
/// address, the query by the address answers with the identity, and the
/// query by the identity answers with the address.
pub proof fn a_link_is_seen_from_both_sides(
    state: StoreState,
    social: (Seq<char>, Seq<char>),
    address: Seq<char>,
    socials: Seq<(Seq<char>, Seq<char>)>,
    addresses: Seq<Seq<char>>,
)
    requires
        state.well_formed(),
        link_of(social, address).fits(),
        state.linked(link_key(address, social.0), link_of(social, address)).answers_by_address(
            socials,
            address,
        ),
        state.linked(link_key(address, social.0), link_of(social, address)).answers_by_social(
            addresses,
            social,
        ),
    ensures
        socials.contains(social),
        addresses.contains(address),
{
    let key = link_key(address, social.0);
    let link = link_of(social, address);
    let after = state.linked(key, link);
    linking_keeps_well_formed(state, key, link);
    let by_address = choose|found: Seq<(Seq<char>, UserRecord)>| #[trigger]
        after.lists_address(found, address) && socials == socials_of(found);
    let by_social = choose|found: Seq<(Seq<char>, UserRecord)>| #[trigger]
        after.lists_social(found, social) && addresses == addresses_of(found);
    a_stored_link_is_listed(after, key, by_address, by_social);
    let i = choose|i: int| 0 <= i < by_address.len() && by_address[i] == (key, link);
    assert(socials[i] == social);
    let j = choose|j: int| 0 <= j < by_social.len() && by_social[j] == (key, link);
    assert(addresses[j] == address);
}

/// A first link is a bijection: once an identity without a link has been
/// linked to an address without a link, the identity answers with that
/// address alone and the address with that identity alone, so that each
/// leads to the other and back.
pub proof fn a_first_link_is_a_bijection(
    state: StoreState,
    social: (Seq<char>, Seq<char>),
    address: Seq<char>,
    socials: Seq<(Seq<char>, Seq<char>)>,
    addresses: Seq<Seq<char>>,
)
    requires
        state.well_formed(),
        link_of(social, address).fits(),
        forall|k: Seq<char>|
            state.records.contains_key(k) ==> (#[trigger] state.records[k]).social() != social
                && state.records[k].address != address,
        state.linked(link_key(address, social.0), link_of(social, address)).answers_by_address(
            socials,
            address,
        ),
        state.linked(link_key(address, social.0), link_of(social, address)).answers_by_social(
            addresses,
            social,
        ),
    ensures
        socials == seq![social],
        addresses == seq![address],
{
    let key = link_key(address, social.0);
    let link = link_of(social, address);
    let after = state.linked(key, link);
    linking_keeps_well_formed(state, key, link);
    let by_address = choose|found: Seq<(Seq<char>, UserRecord)>| #[trigger]
        after.lists_address(found, address) && socials == socials_of(found);
    let by_social = choose|found: Seq<(Seq<char>, UserRecord)>| #[trigger]
        after.lists_social(found, social) && addresses == addresses_of(found);
    a_stored_link_is_listed(after, key, by_address, by_social);
    key_lt_irreflexive(key);
    assert forall|i: int| 0 <= i < by_address.len() implies (#[trigger] by_address[i]).0 == key by {
        let k = by_address[i].0;
        assert(after.keys_by_address(address).contains(k));
        assert(after.by_address.contains((address, k)));
        if k != key {
            assert(state.records.contains_key(k) && state.records[k].address == address);
        }
    }
    assert forall|i: int| 0 <= i < by_social.len() implies (#[trigger] by_social[i]).0 == key by {
        let k = by_social[i].0;
        assert(after.keys_by_social(social).contains(k));
        assert(after.by_social.contains((social, k)));
        if k != key {
            assert(state.records.contains_key(k) && state.records[k].social() == social);
        }
    }
    if by_address.len() > 1 {
        assert(key_lt(by_address[0].0, by_address[1].0));
    }
    if by_social.len() > 1 {
        assert(key_lt(by_social[0].0, by_social[1].0));
    }
    assert(by_address.len() == 1);
    assert(by_social.len() == 1);
    assert(by_address[0] == (key, link));
    assert(by_social[0] == (key, link));
    assert(socials =~= seq![social]);
    assert(addresses =~= seq![address]);
}

/// The links of one address accumulate: after the identity `x` and then
/// the identity `y`, on another platform, have been linked to one address,
/// a listing of the address's links holds both, the one with the smaller
/// key first.
pub proof fn links_of_one_address_accumulate(
    state: StoreState,
    address: Seq<char>,
    x: (Seq<char>, Seq<char>),
    y: (Seq<char>, Seq<char>),
    found: Seq<(Seq<char>, UserRecord)>,
) -> (at: (int, int))
    requires
        state.well_formed(),
        link_of(x, address).fits(),
        link_of(y, address).fits(),
        x.0 != y.0,
        state.linked(link_key(address, x.0), link_of(x, address)).linked(
            link_key(address, y.0),
            link_of(y, address),
        ).lists_address(found, address),
    ensures
        0 <= at.0 < found.len(),
        0 <= at.1 < found.len(),
        found[at.0] == (link_key(address, x.0), link_of(x, address)),
        found[at.1] == (link_key(address, y.0), link_of(y, address)),
        at.0 < at.1 <==> key_lt(link_key(address, x.0), link_key(address, y.0)),
{
    let kx = link_key(address, x.0);
    let ky = link_key(address, y.0);
    let first = state.linked(kx, link_of(x, address));
    let second = first.linked(ky, link_of(y, address));
    link_key_tells_platforms_apart(address, x.0, y.0);
    linking_keeps_well_formed(state, kx, link_of(x, address));
    linking_keeps_well_formed(first, ky, link_of(y, address));
    assert(second.records[kx] == link_of(x, address));
    assert(second.records[ky] == link_of(y, address));
    assert(second.keys_by_address(address).contains(kx));
    assert(second.keys_by_address(address).contains(ky));
    let i = choose|i: int| 0 <= i < found.len() && #[trigger] found[i].0 == kx;
    let j = choose|j: int| 0 <= j < found.len() && #[trigger] found[j].0 == ky;
    if i < j {
        assert(key_lt(found[i].0, found[j].0));
    } else {
        assert(key_lt(found[j].0, found[i].0));
        if key_lt(kx, ky) {
            key_lt_transitive(kx, ky, kx);
            key_lt_irreflexive(kx);
        }
    }
    (i, j)
}

/// The answer for an address to which `x` and then `y`, on another
/// platform, have been linked holds both identities.
pub proof fn an_address_answers_with_all_its_identities(
    state: StoreState,
    address: Seq<char>,
    x: (Seq<char>, Seq<char>),
    y: (Seq<char>, Seq<char>),
    socials: Seq<(Seq<char>, Seq<char>)>,
)
    requires
        state.well_formed(),
        link_of(x, address).fits(),
        link_of(y, address).fits(),
        x.0 != y.0,
        state.linked(link_key(address, x.0), link_of(x, address)).linked(
            link_key(address, y.0),
            link_of(y, address),
        ).answers_by_address(socials, address),
    ensures
        socials.contains(x),
        socials.contains(y),
{
    let after = state.linked(link_key(address, x.0), link_of(x, address)).linked(
        link_key(address, y.0),
        link_of(y, address),
    );
    let found = choose|found: Seq<(Seq<char>, UserRecord)>| #[trigger]
        after.lists_address(found, address) && socials == socials_of(found);
    let at = links_of_one_address_accumulate(state, address, x, y, found);
    assert(socials[at.0] == x);
    assert(socials[at.1] == y);
}

/// One identity may have many addresses: after an identity has been linked
/// to the address `a` and then to another address `b`, the answer for the
/// identity holds both.
pub proof fn an_identity_answers_with_all_its_addresses(
    state: StoreState,
    social: (Seq<char>, Seq<char>),
    a: Seq<char>,
    b: Seq<char>,
    addresses: Seq<Seq<char>>,
)
    requires
        state.well_formed(),
        link_of(social, a).fits(),
        link_of(social, b).fits(),
        a != b,
        state.linked(link_key(a, social.0), link_of(social, a)).linked(
            link_key(b, social.0),
            link_of(social, b),
        ).answers_by_social(addresses, social),
    ensures
        addresses.contains(a),
        addresses.contains(b),
{
    let ka = link_key(a, social.0);
    let kb = link_key(b, social.0);
    let first = state.linked(ka, link_of(social, a));
    let second = first.linked(kb, link_of(social, b));
    link_key_tells_addresses_apart(a, b, social.0);
    linking_keeps_well_formed(state, ka, link_of(social, a));
    linking_keeps_well_formed(first, kb, link_of(social, b));
    let found = choose|found: Seq<(Seq<char>, UserRecord)>| #[trigger]
        second.lists_social(found, social) && addresses == addresses_of(found);
    assert(second.records[ka] == link_of(social, a));
    assert(second.records[kb] == link_of(social, b));
    assert(second.keys_by_social(social).contains(ka));
    assert(second.keys_by_social(social).contains(kb));
    let i = choose|i: int| 0 <= i < found.len() && #[trigger] found[i].0 == ka;
    let j = choose|j: int| 0 <= j < found.len() && #[trigger] found[j].0 == kb;
    assert(addresses[i] == a);
    assert(addresses[j] == b);
}

/// An identity has no address twice: where each link stands under the key
/// made of its address and its platform, the answer for an identity holds
/// each address once.
pub proof fn an_identity_answers_with_no_address_twice(
    state: StoreState,
    social: (Seq<char>, Seq<char>),
    addresses: Seq<Seq<char>>,
    i: int,
    j: int,
)
    requires
        state.well_formed(),
        state.keyed_by_link(),
        state.answers_by_social(addresses, social),
        0 <= i < j < addresses.len(),
    ensures
        addresses[i] != addresses[j],
{
    let found = choose|found: Seq<(Seq<char>, UserRecord)>| #[trigger]
        state.lists_social(found, social) && addresses == addresses_of(found);
    let ki = found[i].0;
    let kj = found[j].0;
    assert(key_lt(ki, kj));
    key_lt_irreflexive(ki);
    assert(state.keys_by_social(social).contains(ki));
    assert(state.keys_by_social(social).contains(kj));
    assert(state.by_social.contains((social, ki)));
    assert(state.by_social.contains((social, kj)));
    assert(ki == link_key(state.records[ki].address, state.records[ki].platform_id));
    assert(kj == link_key(state.records[kj].address, state.records[kj].platform_id));
}

/// An address has no platform twice: where each link stands under the key
/// made of its address and its platform, the identities in the answer for
/// an address are on platforms that differ.
pub proof fn an_address_answers_with_no_platform_twice(
    state: StoreState,
    address: Seq<char>,
    socials: Seq<(Seq<char>, Seq<char>)>,
    i: int,
    j: int,
)
    requires
        state.well_formed(),
        state.keyed_by_link(),
        state.answers_by_address(socials, address),
        0 <= i < j < socials.len(),
    ensures
        socials[i].0 != socials[j].0,
{
    let found = choose|found: Seq<(Seq<char>, UserRecord)>| #[trigger]
        state.lists_address(found, address) && socials == socials_of(found);
    let ki = found[i].0;
    let kj = found[j].0;
    assert(key_lt(ki, kj));
    key_lt_irreflexive(ki);
    assert(state.keys_by_address(address).contains(ki));
    assert(state.keys_by_address(address).contains(kj));
    assert(state.by_address.contains((address, ki)));
    assert(state.by_address.contains((address, kj)));
    assert(ki == link_key(state.records[ki].address, state.records[ki].platform_id));
    assert(kj == link_key(state.records[kj].address, state.records[kj].platform_id));
}

/// An identity without a link has no address: in a well-formed state the
/// answer for an identity that no stored link has is empty.
pub proof fn an_unlinked_identity_has_no_address(
    state: StoreState,
    social: (Seq<char>, Seq<char>),
    addresses: Seq<Seq<char>>,
)
    requires
        state.well_formed(),
        forall|k: Seq<char>|
            state.records.contains_key(k) ==> (#[trigger] state.records[k]).social() != social,
        state.answers_by_social(addresses, social),
    ensures
        addresses.len() == 0,
{
    let found = choose|found: Seq<(Seq<char>, UserRecord)>| #[trigger]
        state.lists_social(found, social) && addresses == addresses_of(found);
    if found.len() > 0 {
        let k = found[0].0;
        assert(state.keys_by_social(social).contains(k));
        assert(state.by_social.contains((social, k)));
        assert(state.records[k].social() == social);
    }
}

/// An address without a link has no identity: in a well-formed state the
/// answer for an address that no stored link has is empty.
pub proof fn an_unlinked_address_has_no_identity(
    state: StoreState,
    address: Seq<char>,
    socials: Seq<(Seq<char>, Seq<char>)>,
)
    requires
        state.well_formed(),
        forall|k: Seq<char>|
            state.records.contains_key(k) ==> (#[trigger] state.records[k]).address != address,
        state.answers_by_address(socials, address),
    ensures
        socials.len() == 0,
{
    let found = choose|found: Seq<(Seq<char>, UserRecord)>| #[trigger]
        state.lists_address(found, address) && socials == socials_of(found);
    if found.len() > 0 {
        let k = found[0].0;
        assert(state.keys_by_address(address).contains(k));
        assert(state.by_address.contains((address, k)));
        assert(state.records[k].address == address);
    }
}

/// Every answered address is linked: in a well-formed state each address
/// in the answer for an identity is the address of a stored link of that
/// identity.
pub proof fn an_answered_address_is_linked(
    state: StoreState,
    social: (Seq<char>, Seq<char>),
    addresses: Seq<Seq<char>>,
    i: int,
) -> (key: Seq<char>)
    requires
        state.well_formed(),
        state.answers_by_social(addresses, social),
        0 <= i < addresses.len(),
    ensures
        state.records.contains_key(key),
        state.records[key] == link_of(social, addresses[i]),
{
    let found = choose|found: Seq<(Seq<char>, UserRecord)>| #[trigger]
        state.lists_social(found, social) && addresses == addresses_of(found);
    let key = found[i].0;
    assert(state.keys_by_social(social).contains(key));
    assert(state.by_social.contains((social, key)));
    key
}

/// A query has one answer: two answers for the same identity in the same
/// state are equal.
pub proof fn the_answer_by_social_is_determined(
    state: StoreState,
    social: (Seq<char>, Seq<char>),
    one: Seq<Seq<char>>,
    other: Seq<Seq<char>>,
)
    requires
        state.answers_by_social(one, social),
        state.answers_by_social(other, social),
    ensures
        one == other,
{
    let a = choose|found: Seq<(Seq<char>, UserRecord)>| #[trigger]
        state.lists_social(found, social) && one == addresses_of(found);
    let b = choose|found: Seq<(Seq<char>, UserRecord)>| #[trigger]
        state.lists_social(found, social) && other == addresses_of(found);
    if fits(social.0) && fits(social.1) {
        listing_is_unique(a, b, state.keys_by_social(social), state.records);
    } else {
        assert(a =~= b);
    }
}

/// A query has one answer: two answers for the same address in the same
/// state are equal.
pub proof fn the_answer_by_address_is_determined(
    state: StoreState,
    address: Seq<char>,
    one: Seq<(Seq<char>, Seq<char>)>,
    other: Seq<(Seq<char>, Seq<char>)>,
)
    requires
        state.answers_by_address(one, address),
        state.answers_by_address(other, address),
    ensures
        one == other,
{
    let a = choose|found: Seq<(Seq<char>, UserRecord)>| #[trigger]
        state.lists_address(found, address) && one == socials_of(found);
    let b = choose|found: Seq<(Seq<char>, UserRecord)>| #[trigger]
        state.lists_address(found, address) && other == socials_of(found);
    if fits(address) {
        listing_is_unique(a, b, state.keys_by_address(address), state.records);
    } else {
        assert(a =~= b);
    }
}

/// Linking again changes nothing: storing the same link under the same key
/// a second time leaves the state as the first time left it.
pub proof fn linking_again_changes_nothing(state: StoreState, key: Seq<char>, link: UserRecord)
    requires
        link.fits(),
    ensures
        state.linked(key, link).linked(key, link) == state.linked(key, link),
{
    let once = state.linked(key, link);
    let twice = once.linked(key, link);
    assert(twice.records =~= once.records);
    assert(twice.unreadable =~= once.unreadable);
    assert(twice.by_address =~= once.by_address);
    assert(twice.by_social =~= once.by_social);
}

/// The fee is exact: it is five percent of the amount rounded down, it is
/// never more than the amount, and fee and remainder add up to the amount.
pub proof fn the_fee_split_is_exact(amount: nat)
    ensures
        fee_of(amount) == amount * 5 / 100,
        fee_of(amount) <= amount,
        fee_of(amount) + (amount - fee_of(amount)) == amount,
        20 * fee_of(amount) <= amount < 20 * fee_of(amount) + 20,
{
}

/// Links leave the owner and the accepted denominations alone: whatever a
/// request to link comes to, both are afterwards what they were.
pub proof fn a_link_request_leaves_owner_and_tokens(
    before: StoreState,
    after: StoreState,
    sender: Seq<char>,
    social: (Seq<char>, Seq<char>),
    address: Seq<char>,
    r: Result<Response, ContractError>,
)
    requires
        link_outcome(before, after, sender, social, address, r),
    ensures
        after.owner == before.owner,
        after.accepted_tokens == before.accepted_tokens,
{
}

/// Only the owner links: a request to link from any other sender is
/// refused as unauthorized and changes nothing.
pub proof fn only_the_owner_links(
    before: StoreState,
    after: StoreState,
    sender: Seq<char>,
    social: (Seq<char>, Seq<char>),
    address: Seq<char>,
    r: Result<Response, ContractError>,
)
    requires
        link_outcome(before, after, sender, social, address, r),
        before.owner is Some,
        before.owner != Some(sender),
    ensures
        r == Err::<Response, ContractError>(ContractError::Unauthorized {  }),
        after == before,
{
}

} // verus!

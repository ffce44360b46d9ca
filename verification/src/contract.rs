//! The registry's operations: creating it, linking a social identity to an
//! address, looking links up from either side, and donating.

use crate::chain::{MessageInfo, MessageInfoView, Response, ResponseView, TransferView};
use crate::error::ContractError;
use crate::msg::{
    ExecuteMsg, GetAddressesBySocialResponse, GetSocialsByAddressResponse, InstantiateMsg, QueryMsg,
    QueryResponse,
};
use crate::payment::{donation_response, is_accepted, must_pay, payable, respond_to_donation};
use crate::registry::{found_links, links_by_address, links_by_social, save_user_info};
use crate::state::{
    load_accepted_tokens, load_owner, save_accepted_tokens, save_owner, set_contract_version,
    Platform, ProfileId, SocialInfo, Store, StoreState, UserInfo, UserRecord,
};
use crate::text::{join_key, link_key, link_key_is_short, texts};
use cosmwasm_std::{Env, StdError};
use vstd::prelude::*;

verus! {

/// The name under which the contract records itself in storage.
pub const CONTRACT_NAME: &'static str = "cosmos:donex-sm";

/// The version under which the contract records itself in storage.
pub const CONTRACT_VERSION: &'static str = "0.1.0";

/// The texts of a list of social identities.
pub open spec fn social_texts(v: Seq<(Platform, ProfileId)>) -> Seq<(Seq<char>, Seq<char>)> {
    v.map_values(|s: (Platform, ProfileId)| (s.0@, s.1@))
}

/// The addresses of a list of found links, in its order.
pub open spec fn addresses_of(found: Seq<(Seq<char>, UserRecord)>) -> Seq<Seq<char>> {
    found.map_values(|hit: (Seq<char>, UserRecord)| hit.1.address)
}

/// The social identities of a list of found links, in its order.
pub open spec fn socials_of(found: Seq<(Seq<char>, UserRecord)>) -> Seq<(Seq<char>, Seq<char>)> {
    found.map_values(|hit: (Seq<char>, UserRecord)| hit.1.social())
}

impl StoreState {
    /// Whether `addresses` answers the query for the addresses of the
    /// identity `social`: the addresses of its links, in the ascending
    /// order of the links' keys.
    pub open spec fn answers_by_social(
        self,
        addresses: Seq<Seq<char>>,
        social: (Seq<char>, Seq<char>),
    ) -> bool {
        exists|found: Seq<(Seq<char>, UserRecord)>| #[trigger]
            self.lists_social(found, social) && addresses == addresses_of(found)
    }

    /// Whether every stored link stands under the key made of its address
    /// and its platform, as the links that `submit_social_link` stores do.
    pub open spec fn keyed_by_link(self) -> bool {
        forall|k: Seq<char>|
            self.records.contains_key(k) ==> k == link_key(
                (#[trigger] self.records[k]).address,
                self.records[k].platform_id,
            )
    }

    /// Whether `socials` answers the query for the identities of
    /// `address`: the identities of its links, in the ascending order of
    /// the links' keys.
    pub open spec fn answers_by_address(
        self,
        socials: Seq<(Seq<char>, Seq<char>)>,
        address: Seq<char>,
    ) -> bool {
        exists|found: Seq<(Seq<char>, UserRecord)>| #[trigger]
            self.lists_address(found, address) && socials == socials_of(found)
    }
}

/// What creating the registry hands back: the method and the owner.
pub open spec fn instantiate_response(owner: Seq<char>) -> ResponseView {
    ResponseView {
        messages: Seq::<TransferView>::empty(),
        attributes: seq![("method"@, "instantiate"@), ("owner"@, owner)],
    }
}

/// What a link hands back: the method.
pub open spec fn link_response() -> ResponseView {
    ResponseView {
        messages: Seq::<TransferView>::empty(),
        attributes: seq![("method"@, "submit_social_link"@)],
    }
}

/// The link of `address` to the identity `social`.
pub open spec fn link_of(social: (Seq<char>, Seq<char>), address: Seq<char>) -> UserRecord {
    UserRecord { address, platform_id: social.0, profile_id: social.1 }
}

/// What a request to link `social` to `address` by `sender` comes to,
/// from the state `before` to the state `after` with the result `r`.
///
/// Only the owner may link: with no owner stored the storage error is
/// handed back, and any other sender is refused as unauthorized. An
/// address, platform or profile too long for an index key is refused with
/// a storage error, and so is a link under whose key the table holds
/// bytes that cannot be read. Wherever the request is refused nothing
/// changes. Else the link is stored under the key made of address and
/// platform, in place of what was there.
pub open spec fn link_outcome(
    before: StoreState,
    after: StoreState,
    sender: Seq<char>,
    social: (Seq<char>, Seq<char>),
    address: Seq<char>,
    r: Result<Response, ContractError>,
) -> bool {
    if before.owner != Some(sender) {
        &&& after == before
        &&& if before.owner is None {
            r matches Err(ContractError::Std(_))
        } else {
            r == Err::<Response, ContractError>(ContractError::Unauthorized {  })
        }
    } else if !link_of(social, address).fits() || before.unreadable.contains(
        link_key(address, social.0),
    ) {
        &&& after == before
        &&& r matches Err(ContractError::Std(_))
    } else {
        &&& after == before.linked(link_key(address, social.0), link_of(social, address))
        &&& r matches Ok(response) && response@ == link_response()
    }
}

/// What a donation to `recipient` with the message information `info`
/// comes to in the state `state`, with the result `r`.
///
/// With no accepted denominations or no owner stored, the storage error is
/// handed back. Funds that are not exactly one coin of an accepted
/// denomination, or nothing of it, are refused as an invalid denomination.
/// Else the donation is split between the recipient and the owner.
pub open spec fn donation_outcome(
    state: StoreState,
    info: MessageInfoView,
    recipient: Seq<char>,
    r: Result<Response, ContractError>,
) -> bool {
    match (state.accepted_tokens, state.owner) {
        (Some(accepted), Some(owner)) => {
            if payable(accepted, info.funds) {
                r matches Ok(response) && response@ == donation_response(
                    info.funds[0].amount,
                    info.funds[0].denom,
                    recipient,
                    owner,
                    info.sender,
                )
            } else {
                r == Err::<Response, ContractError>(ContractError::InvalidDenom {  })
            }
        },
        _ => r matches Err(ContractError::Std(_)),
    }
}

/// Creates the registry: records the contract's name and version, makes
/// the sender the owner and stores the accepted denominations.
///
/// The call succeeds: afterwards the owner and the denominations are the
/// ones given, the links are as they were, and the response names the
/// method and the owner.
pub fn instantiate(store: &mut Store<'_>, _env: Env, info: MessageInfo, msg: InstantiateMsg) -> (r:
    Result<Response, ContractError>)
    ensures
        r matches Ok(response) && response@ == instantiate_response(info@.sender),
        final(store)@ == (StoreState {
            owner: Some(info@.sender),
            accepted_tokens: Some(texts(msg.accepted_token@)),
            ..old(store)@
        }),
{
    let saved = match set_contract_version(store, CONTRACT_NAME, CONTRACT_VERSION) {
        Ok(_) => match save_owner(store, info.sender.as_str()) {
            Ok(_) => save_accepted_tokens(store, &msg.accepted_token),
            Err(e) => Err(e),
        },
        Err(e) => Err(e),
    };
    answer_to_instantiate(saved, info.sender)
}

/// The answer to the creation of the registry by `owner`, once the storage
/// layer has written everything or has failed: the response that names
/// the method and the owner, or the storage layer's error.
pub fn answer_to_instantiate(saved: Result<(), StdError>, owner: String) -> (r: Result<
    Response,
    ContractError,
>)
    ensures
        match saved {
            Ok(_) => r matches Ok(response) && response@ == instantiate_response(owner@),
            Err(e) => r == Err::<Response, ContractError>(ContractError::Std(e)),
        },
{
    match saved {
        Ok(_) => {
            let response = Response::new().add_attribute(
                "method",
                "instantiate".to_owned(),
            ).add_attribute("owner", owner);
            assert(response@.attributes =~= instantiate_response(owner@).attributes);
            Ok(response)
        },
        Err(e) => Err(ContractError::Std(e)),
    }
}

/// Carries out a message: a link or a donation. Where the message is
/// refused, nothing stored changes.
pub fn execute(store: &mut Store<'_>, env: Env, info: MessageInfo, msg: ExecuteMsg) -> (r: Result<
    Response,
    ContractError,
>)
    ensures
        match msg {
            ExecuteMsg::SubmitSocial { social_info, address } => link_outcome(
                old(store)@,
                final(store)@,
                info@.sender,
                (social_info.0@, social_info.1@),
                address@,
                r,
            ),
            ExecuteMsg::Donate { recipient } => {
                &&& donation_outcome(old(store)@, info@, recipient@, r)
                &&& final(store)@ == old(store)@
            },
        },
        r is Err ==> final(store)@ == old(store)@,
{
    match msg {
        ExecuteMsg::SubmitSocial { social_info, address } => submit_social_link(
            store,
            info,
            social_info,
            address,
        ),
        ExecuteMsg::Donate { recipient } => donate(store, env, info, recipient),
    }
}

/// Answers a query: the addresses of an identity, or the identities of an
/// address. A query changes nothing and always has an answer, which may be
/// empty.
pub fn query(store: &Store<'_>, _env: Env, msg: QueryMsg) -> (r: Result<QueryResponse, StdError>)
    ensures
        match msg {
            QueryMsg::GetAddressesBySocial { profile_id, platform } => {
                &&& r matches Ok(QueryResponse::AddressesBySocial(answer))
                &&& store@.answers_by_social(texts(answer.address@), (platform@, profile_id@))
            },
            QueryMsg::GetSocialsByAddress { address } => {
                &&& r matches Ok(QueryResponse::SocialsByAddress(answer))
                &&& store@.answers_by_address(social_texts(answer.social_infos@), address@)
            },
        },
{
    match msg {
        QueryMsg::GetAddressesBySocial { profile_id, platform } => {
            match query_by_social_link(store, profile_id, platform) {
                Ok(answer) => Ok(QueryResponse::AddressesBySocial(answer)),
                Err(e) => Err(e),
            }
        },
        QueryMsg::GetSocialsByAddress { address } => {
            match query_by_address(store, address) {
                Ok(answer) => Ok(QueryResponse::SocialsByAddress(answer)),
                Err(e) => Err(e),
            }
        },
    }
}

/// Links a social identity to an address, on the owner's request.
///
/// The link is stored under the key made of the address and the platform:
/// a second link of the same address on the same platform takes the place
/// of the first. Any address may be linked, the owner's own too, and an
/// identity may be linked to more than one address.
pub fn submit_social_link(
    store: &mut Store<'_>,
    info: MessageInfo,
    social_info: SocialInfo,
    address: String,
) -> (r: Result<Response, ContractError>)
    ensures
        link_outcome(
            old(store)@,
            final(store)@,
            info@.sender,
            (social_info.0@, social_info.1@),
            address@,
            r,
        ),
        r is Err ==> final(store)@ == old(store)@,
{
    let owner = match load_owner(store) {
        Ok(owner) => owner,
        Err(e) => {
            return Err(ContractError::Std(e));
        },
    };
    if info.sender != owner {
        return Err(ContractError::Unauthorized {  });
    }
    let (platform_id, profile_id) = social_info;
    let key = join_key(address.as_str(), platform_id.as_str());
    let user_info = UserInfo { address, platform_id, profile_id };
    proof {
        if user_info@.fits() {
            link_key_is_short(user_info@.address, user_info@.platform_id);
        }
    }
    answer_to_link(save_user_info(store, key.as_str(), &user_info))
}

/// The answer to a request to link, once the link has been stored or the
/// storage layer has failed: the response that names the method, or the
/// storage layer's error.
pub fn answer_to_link(saved: Result<(), StdError>) -> (r: Result<Response, ContractError>)
    ensures
        match saved {
            Ok(_) => r matches Ok(response) && response@ == link_response(),
            Err(e) => r == Err::<Response, ContractError>(ContractError::Std(e)),
        },
{
    match saved {
        Ok(_) => {
            let response = Response::new().add_attribute("method", "submit_social_link".to_owned());
            Ok(response)
        },
        Err(e) => Err(ContractError::Std(e)),
    }
}

/// Forwards the attached funds to `recipient`, less the owner's fee.
///
/// The funds must be exactly one coin of an accepted denomination, and
/// more than nothing of it. Anyone may donate, and nothing stored changes.
pub fn donate(store: &mut Store<'_>, _env: Env, info: MessageInfo, recipient: String) -> (r: Result<
    Response,
    ContractError,
>)
    ensures
        donation_outcome(old(store)@, info@, recipient@, r),
        final(store)@ == old(store)@,
{
    let accepted_tokens = match load_accepted_tokens(store) {
        Ok(tokens) => tokens,
        Err(e) => {
            return Err(ContractError::Std(e));
        },
    };
    let owner = match load_owner(store) {
        Ok(owner) => owner,
        Err(e) => {
            return Err(ContractError::Std(e));
        },
    };
    if info.funds.len() != 1 {
        return Err(ContractError::InvalidDenom {  });
    }
    let denom = info.funds[0].denom.clone();
    if !is_accepted(&accepted_tokens, &denom) {
        return Err(ContractError::InvalidDenom {  });
    }
    let donation: u128 = match must_pay(&info, denom.as_str()) {
        Ok(amount) => amount,
        Err(_) => {
            return Err(ContractError::InvalidDenom {  });
        },
    };
    Ok(respond_to_donation(donation, denom.as_str(), recipient, owner, info.sender))
}

/// The addresses linked to a social identity, in the ascending order of
/// the links' keys; none where the identity has no link.
pub fn query_by_social_link(store: &Store<'_>, profile_id: ProfileId, platform: Platform) -> (r:
    Result<GetAddressesBySocialResponse, StdError>)
    ensures
        r matches Ok(answer) && store@.answers_by_social(
            texts(answer.address@),
            (platform@, profile_id@),
        ),
{
    let user_infos = links_by_social(store, platform.as_str(), profile_id.as_str());
    let mut addresses: Vec<String> = Vec::new();
    let mut i: usize = 0;
    while i < user_infos.len()
        invariant
            i <= user_infos.len(),
            texts(addresses@) == addresses_of(found_links(user_infos@)).subrange(0, i as int),
        decreases user_infos.len() - i,
    {
        let ghost earlier = addresses@;
        addresses.push(user_infos[i].1.address.clone());
        assert(texts(addresses@) =~= texts(earlier).push(user_infos@[i as int].1@.address));
        i = i + 1;
    }
    assert(texts(addresses@) =~= addresses_of(found_links(user_infos@)));
    Ok(GetAddressesBySocialResponse { address: addresses })
}

/// The social identities linked to an address, in the ascending order of
/// the links' keys; none where the address has no link.
pub fn query_by_address(store: &Store<'_>, address: String) -> (r: Result<
    GetSocialsByAddressResponse,
    StdError,
>)
    ensures
        r matches Ok(answer) && store@.answers_by_address(
            social_texts(answer.social_infos@),
            address@,
        ),
{
    let user_infos = links_by_address(store, address.as_str());
    let mut social_infos: Vec<(Platform, ProfileId)> = Vec::new();
    let mut i: usize = 0;
    while i < user_infos.len()
        invariant
            i <= user_infos.len(),
            social_texts(social_infos@) == socials_of(found_links(user_infos@)).subrange(
                0,
                i as int,
            ),
        decreases user_infos.len() - i,
    {
        let ghost earlier = social_infos@;
        let link = &user_infos[i].1;
        social_infos.push((link.platform_id.clone(), link.profile_id.clone()));
        assert(social_texts(social_infos@) =~= social_texts(earlier).push(
            user_infos@[i as int].1@.social(),
        ));
        i = i + 1;
    }
    assert(social_texts(social_infos@) =~= socials_of(found_links(user_infos@)));
    Ok(GetSocialsByAddressResponse { social_infos })
}

} // verus!

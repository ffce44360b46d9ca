//! The messages that the registry accepts and the answers to its queries.

use crate::state::{Platform, ProfileId, SocialInfo};
use vstd::prelude::*;

verus! {

/// Creates the registry; the sender becomes its owner.
#[derive(Debug, PartialEq, Eq)]
pub struct InstantiateMsg {
    /// The denominations in which donations are accepted.
    pub accepted_token: Vec<String>,
}

/// The operations that change state or move funds.
#[derive(Debug, PartialEq, Eq)]
pub enum ExecuteMsg {
    /// Link a social identity to an address. Owner only.
    SubmitSocial { social_info: SocialInfo, address: String },
    /// Forward the attached funds to `recipient`, less the owner's fee.
    Donate { recipient: String },
}

/// The read-only lookups.
#[derive(Debug, PartialEq, Eq)]
pub enum QueryMsg {
    /// The addresses linked to an identity.
    GetAddressesBySocial { profile_id: ProfileId, platform: Platform },
    /// The identities linked to an address.
    GetSocialsByAddress { address: String },
}

/// The answer to [`QueryMsg::GetAddressesBySocial`].
#[derive(Debug, PartialEq, Eq)]
pub struct GetAddressesBySocialResponse {
    pub address: Vec<String>,
}

/// The answer to [`QueryMsg::GetSocialsByAddress`].
#[derive(Debug, PartialEq, Eq)]
pub struct GetSocialsByAddressResponse {
    pub social_infos: Vec<(Platform, ProfileId)>,
}

/// The answer to a [`QueryMsg`], by the kind of query.
#[derive(Debug, PartialEq, Eq)]
pub enum QueryResponse {
    AddressesBySocial(GetAddressesBySocialResponse),
    SocialsByAddress(GetSocialsByAddressResponse),
}

} // verus!

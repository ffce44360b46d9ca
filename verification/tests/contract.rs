use cosmwasm_std::testing::{mock_env, MockStorage};
use cosmwasm_std::{
    coin, coins, from_json, to_json_binary, Addr, Binary, Deps, DepsMut, Env, Order, Record,
    StdError, StdResult, Storage,
};
use cw_multi_test::{App, ContractWrapper, Executor};
use cw_storage_plus::{Index, IndexList, IndexedMap, Item, MultiIndex};
use donex_sm::chain::{Attribute, BankMsg, Coin, MessageInfo, Response};
use donex_sm::contract;
use donex_sm::contract::{
    answer_to_instantiate, answer_to_link, donate, execute, instantiate, query,
    query_by_social_link, submit_social_link, CONTRACT_NAME, CONTRACT_VERSION,
};
use donex_sm::error::ContractError;
use donex_sm::msg::{
    ExecuteMsg, GetAddressesBySocialResponse, GetSocialsByAddressResponse, InstantiateMsg, QueryMsg,
    QueryResponse,
};
use donex_sm::registry::{links_by_address, links_by_social, save_user_info};
use donex_sm::state::{address_of, social_of, Store, StoredInfo, UserInfo};

// ---- helpers ---------------------------------------------------------------

fn info(sender: &str, funds: Vec<Coin>) -> MessageInfo {
    MessageInfo { sender: sender.to_string(), funds }
}

fn paid(amount: u128, denom: &str) -> Vec<Coin> {
    vec![Coin { denom: denom.to_string(), amount }]
}

fn attribute(key: &str, value: &str) -> Attribute {
    Attribute { key: key.to_string(), value: value.to_string() }
}

fn send(to: &str, amount: u128, denom: &str) -> BankMsg {
    BankMsg::Send { to_address: to.to_string(), amount: paid(amount, denom) }
}

fn social(platform: &str, profile_id: &str) -> (String, String) {
    (platform.to_string(), profile_id.to_string())
}

fn link(address: &str, platform: &str, profile_id: &str) -> UserInfo {
    UserInfo {
        address: address.to_string(),
        platform_id: platform.to_string(),
        profile_id: profile_id.to_string(),
    }
}

/// A storage on which the registry has been created by `owner`.
fn created(owner: &str, accepted: &[&str]) -> MockStorage {
    let mut storage = MockStorage::new();
    let mut store = Store { inner: &mut storage };
    instantiate(
        &mut store,
        mock_env(),
        info(owner, vec![]),
        InstantiateMsg { accepted_token: accepted.iter().map(|t| t.to_string()).collect() },
    )
    .unwrap();
    storage
}

fn submit(
    store: &mut Store,
    sender: &str,
    platform: &str,
    profile_id: &str,
    address: &str,
) -> Result<Response, ContractError> {
    execute(
        store,
        mock_env(),
        info(sender, vec![]),
        ExecuteMsg::SubmitSocial {
            social_info: social(platform, profile_id),
            address: address.to_string(),
        },
    )
}

fn give(
    store: &mut Store,
    donor: &str,
    funds: Vec<Coin>,
    recipient: &str,
) -> Result<Response, ContractError> {
    donate(store, mock_env(), info(donor, funds), recipient.to_string())
}

fn is_storage_error<T>(result: &Result<T, ContractError>) -> bool {
    matches!(result, Err(ContractError::Std(_)))
}

fn addresses_by_social(store: &Store, platform: &str, profile_id: &str) -> Vec<String> {
    match query(
        store,
        mock_env(),
        QueryMsg::GetAddressesBySocial {
            profile_id: profile_id.to_string(),
            platform: platform.to_string(),
        },
    ) {
        Ok(QueryResponse::AddressesBySocial(answer)) => answer.address,
        other => panic!("unexpected answer: {:?}", other),
    }
}

fn socials_by_address(store: &Store, address: &str) -> Vec<(String, String)> {
    match query(store, mock_env(), QueryMsg::GetSocialsByAddress { address: address.to_string() }) {
        Ok(QueryResponse::SocialsByAddress(answer)) => answer.social_infos,
        other => panic!("unexpected answer: {:?}", other),
    }
}

/// Every entry of a storage, in order.
fn dump(storage: &MockStorage) -> Vec<Record> {
    storage.range(None, None, Order::Ascending).collect()
}

// ---- the registry as a contract on a simulated chain -------------------------

/// A storage that can only be read, for queries.
struct Frozen<'a>(&'a dyn Storage);

impl<'a> Storage for Frozen<'a> {
    fn get(&self, key: &[u8]) -> Option<Vec<u8>> {
        self.0.get(key)
    }

    fn range<'b>(
        &'b self,
        start: Option<&[u8]>,
        end: Option<&[u8]>,
        order: Order,
    ) -> Box<dyn Iterator<Item = Record> + 'b> {
        self.0.range(start, end, order)
    }

    fn set(&mut self, _key: &[u8], _value: &[u8]) {
        panic!("a query does not write")
    }

    fn remove(&mut self, _key: &[u8]) {
        panic!("a query does not write")
    }
}

fn from_chain(sent: cosmwasm_std::MessageInfo) -> MessageInfo {
    MessageInfo {
        sender: sent.sender.into_string(),
        funds: sent.funds.into_iter().map(
            |c| Coin { denom: c.denom, amount: c.amount.u128() },
        ).collect(),
    }
}

fn to_chain(result: Result<Response, ContractError>) -> StdResult<cosmwasm_std::Response> {
    let response = result.map_err(|e| StdError::generic_err(format!("{:?}", e)))?;
    let mut out = cosmwasm_std::Response::new();
    for message in response.messages {
        let BankMsg::Send { to_address, amount } = message;
        out = out.add_message(cosmwasm_std::BankMsg::Send {
            to_address,
            amount: amount.into_iter().map(|c| coin(c.amount, c.denom)).collect(),
        });
    }
    for a in response.attributes {
        out = out.add_attribute(a.key, a.value);
    }
    Ok(out)
}

/// On the simulated chain messages travel as lists of strings: the
/// accepted denominations to create the registry; `submit_social`,
/// platform, profile, address or `donate`, recipient to execute;
/// `by_social`, profile, platform or `by_address`, address to query.
fn chain_instantiate(
    deps: DepsMut,
    env: Env,
    sent: cosmwasm_std::MessageInfo,
    msg: Vec<String>,
) -> StdResult<cosmwasm_std::Response> {
    let mut store = Store { inner: deps.storage };
    to_chain(instantiate(&mut store, env, from_chain(sent), InstantiateMsg { accepted_token: msg }))
}

fn chain_execute(
    deps: DepsMut,
    env: Env,
    sent: cosmwasm_std::MessageInfo,
    msg: Vec<String>,
) -> StdResult<cosmwasm_std::Response> {
    let msg = if msg[0] == "submit_social" {
        ExecuteMsg::SubmitSocial {
            social_info: (msg[1].clone(), msg[2].clone()),
            address: msg[3].clone(),
        }
    } else {
        ExecuteMsg::Donate { recipient: msg[1].clone() }
    };
    let mut store = Store { inner: deps.storage };
    to_chain(execute(&mut store, env, from_chain(sent), msg))
}

fn chain_query(deps: Deps, env: Env, msg: Vec<String>) -> StdResult<Binary> {
    let msg = if msg[0] == "by_social" {
        QueryMsg::GetAddressesBySocial { profile_id: msg[1].clone(), platform: msg[2].clone() }
    } else {
        QueryMsg::GetSocialsByAddress { address: msg[1].clone() }
    };
    let mut frozen = Frozen(deps.storage);
    let store = Store { inner: &mut frozen };
    match query(&store, env, msg)? {
        QueryResponse::AddressesBySocial(answer) => to_json_binary(&answer.address),
        QueryResponse::SocialsByAddress(answer) => to_json_binary(&answer.social_infos),
    }
}

fn words(list: &[&str]) -> Vec<String> {
    list.iter().map(|w| w.to_string()).collect()
}

fn balance(app: &App, address: &str, denom: &str) -> u128 {
    app.wrap().query_balance(address, denom).unwrap().amount.u128()
}

#[test]
fn submit_social() {
    let mut app = App::default();

    let code = ContractWrapper::new(chain_execute, chain_instantiate, chain_query);
    let code_id = app.store_code(Box::new(code));

    let addr = app
        .instantiate_contract(
            code_id,
            Addr::unchecked("owner"),
            &words(&["ucmst"]),
            &[],
            "Contract",
            None,
        )
        .unwrap();
    let resp = app
        .execute_contract(
            Addr::unchecked("owner"),
            addr,
            &words(&["submit_social", "twitter", "123", "abc"]),
            &[],
        )
        .unwrap();
    let wasm = resp.events.iter().find(|ev| ev.ty == "wasm").unwrap();
    assert_eq!(
        wasm.attributes.iter().find(|attr| attr.key == "method").unwrap().value,
        "submit_social_link"
    );
}

#[test]
fn query_by_social() {
    let mut storage = MockStorage::new();
    let mut store = Store { inner: &mut storage };
    let env = mock_env();

    instantiate(
        &mut store,
        env.clone(),
        info("sender", vec![]),
        InstantiateMsg { accepted_token: vec!["ucmst".to_string()] },
    )
    .unwrap();
    let resp = query(
        &store,
        env.clone(),
        QueryMsg::GetAddressesBySocial {
            profile_id: "1".to_string(),
            platform: "twitter".to_string(),
        },
    );
    assert!(resp.is_ok());
    assert_eq!(
        resp.unwrap(),
        QueryResponse::AddressesBySocial(GetAddressesBySocialResponse { address: vec![] })
    );
    // execute
    let resp = execute(
        &mut store,
        env.clone(),
        info("sender", vec![]),
        ExecuteMsg::SubmitSocial {
            social_info: ("twitter".to_string(), "123".to_string()),
            address: "abc".to_string(),
        },
    );
    assert!(resp.is_ok());
    // query again
    let resp = query(
        &store,
        env.clone(),
        QueryMsg::GetAddressesBySocial {
            platform: "twitter".to_string(),
            profile_id: "123".to_string(),
        },
    )
    .unwrap();
    assert_eq!(
        resp,
        QueryResponse::AddressesBySocial(
            GetAddressesBySocialResponse { address: vec!["abc".to_string()] },
        )
    );
    // execute
    let resp = execute(
        &mut store,
        env.clone(),
        info("sender", vec![]),
        ExecuteMsg::SubmitSocial {
            social_info: ("facebook".to_string(), "456".to_string()),
            address: "abc".to_string(),
        },
    );
    assert!(resp.is_ok());
    let resp = query(
        &store,
        env.clone(),
        QueryMsg::GetAddressesBySocial {
            platform: "facebook".to_string(),
            profile_id: "456".to_string(),
        },
    )
    .unwrap();
    assert_eq!(
        resp,
        QueryResponse::AddressesBySocial(
            GetAddressesBySocialResponse { address: vec!["abc".to_string()] },
        )
    );
}

#[test]
fn query_by_address() {
    let mut storage = MockStorage::new();
    let mut store = Store { inner: &mut storage };
    let env = mock_env();

    instantiate(
        &mut store,
        env.clone(),
        info("sender", vec![]),
        InstantiateMsg { accepted_token: vec!["ucmst".to_string()] },
    )
    .unwrap();
    let resp = query(
        &store,
        env.clone(),
        QueryMsg::GetSocialsByAddress { address: "owner".to_string() },
    );
    assert!(resp.is_ok());
    assert_eq!(
        resp.unwrap(),
        QueryResponse::SocialsByAddress(GetSocialsByAddressResponse { social_infos: vec![] })
    );
    // execute
    let resp = execute(
        &mut store,
        env.clone(),
        info("sender", vec![]),
        ExecuteMsg::SubmitSocial {
            social_info: ("twitter".to_string(), "123".to_string()),
            address: "user".to_string(),
        },
    );
    assert!(resp.is_ok());
    // query again
    let resp =
        query(
            &store,
            env.clone(),
            QueryMsg::GetSocialsByAddress { address: "user".to_string() },
        ).unwrap();
    assert_eq!(
        resp,
        QueryResponse::SocialsByAddress(GetSocialsByAddressResponse {
            social_infos: vec![("twitter".to_string(), "123".to_string())]
        })
    );
    // execute
    let resp = execute(
        &mut store,
        env.clone(),
        info("sender", vec![]),
        ExecuteMsg::SubmitSocial {
            social_info: ("facebook".to_string(), "456".to_string()),
            address: "user".to_string(),
        },
    );
    assert!(resp.is_ok());
    // query again
    let resp =
        query(
            &store,
            env.clone(),
            QueryMsg::GetSocialsByAddress { address: "user".to_string() },
        ).unwrap();
    assert_eq!(
        resp,
        QueryResponse::SocialsByAddress(GetSocialsByAddressResponse {
            social_infos: vec![
                ("facebook".to_string(), "456".to_string()),
                ("twitter".to_string(), "123".to_string()),
            ]
        })
    );
}

#[test]
fn donations() {
    let mut app = App::new(|router, _, storage| {
        router.bank.init_balance(storage, &Addr::unchecked("user"), coins(100, "ucmst")).unwrap()
    });

    let code = ContractWrapper::new(chain_execute, chain_instantiate, chain_query);
    let code_id = app.store_code(Box::new(code));

    let addr = app
        .instantiate_contract(
            code_id,
            Addr::unchecked("owner"),
            &words(&["ucmst", "eth"]),
            &[],
            "Contract",
            None,
        )
        .unwrap();
    app.execute_contract(
        Addr::unchecked("user"),
        addr.clone(),
        &words(&["donate", "admin1"]),
        &coins(100, "ucmst"),
    )
    .unwrap();
    assert_eq!(app.wrap().query_balance("user", "ucmst").unwrap().amount.u128(), 0);
    // Verify that the fees and recipient amounts have been sent accurately.
    assert_eq!(app.wrap().query_balance("admin1", "ucmst").unwrap().amount.u128(), 95);
    assert_eq!(app.wrap().query_balance("owner", "ucmst").unwrap().amount.u128(), 5);
}

#[test]
fn link_then_query_then_donate_on_chain() {
    let mut app = App::new(|router, _, storage| {
        router.bank.init_balance(storage, &Addr::unchecked("donor"), coins(100, "ucmst")).unwrap()
    });
    let code_id = app.store_code(
        Box::new(ContractWrapper::new(chain_execute, chain_instantiate, chain_query)),
    );
    let addr = app
        .instantiate_contract(
            code_id,
            Addr::unchecked("owner"),
            &words(&["ucmst"]),
            &[],
            "Contract",
            None,
        )
        .unwrap();
    app.execute_contract(
        Addr::unchecked("owner"),
        addr.clone(),
        &words(&["submit_social", "twitter", "123", "abc"]),
        &[],
    )
    .unwrap();
    let answer: Vec<String> =
        app.wrap().query_wasm_smart(
            addr.clone(),
            &words(&["by_social", "123", "twitter"]),
        ).unwrap();
    assert_eq!(answer, vec!["abc".to_string()]);
    let answer: Vec<(String, String)> =
        app.wrap().query_wasm_smart(addr.clone(), &words(&["by_address", "abc"])).unwrap();
    assert_eq!(answer, vec![social("twitter", "123")]);

    app.execute_contract(
        Addr::unchecked("donor"),
        addr.clone(),
        &words(&["donate", "admin1"]),
        &coins(100, "ucmst"),
    )
        .unwrap();
    assert_eq!(balance(&app, "admin1", "ucmst"), 95);
    assert_eq!(balance(&app, "owner", "ucmst"), 5);
    assert_eq!(balance(&app, "donor", "ucmst"), 0);
    assert_eq!(balance(&app, addr.as_str(), "ucmst"), 0);
}

#[test]
fn donating_two_denominations_moves_nothing() {
    let mut app = App::new(|router, _, storage| {
        router
            .bank
            .init_balance(
                storage,
                &Addr::unchecked("user"),
                vec![coin(70, "eth"), coin(100, "ucmst")],
            )
            .unwrap()
    });
    let code_id = app.store_code(
        Box::new(ContractWrapper::new(chain_execute, chain_instantiate, chain_query)),
    );
    let addr = app
        .instantiate_contract(
            code_id,
            Addr::unchecked("owner"),
            &words(&["ucmst", "eth"]),
            &[],
            "Contract",
            None,
        )
        .unwrap();
    let refused = app.execute_contract(
        Addr::unchecked("user"),
        addr.clone(),
        &words(&["donate", "admin1"]),
        &[coin(30, "eth"), coin(40, "ucmst")],
    );
    assert!(refused.is_err());
    assert!(format!("{:?}", refused.unwrap_err().root_cause()).contains("InvalidDenom"));
    assert_eq!(balance(&app, "user", "ucmst"), 100);
    assert_eq!(balance(&app, "user", "eth"), 70);
    assert_eq!(balance(&app, "admin1", "ucmst"), 0);
    assert_eq!(balance(&app, "admin1", "eth"), 0);
    assert_eq!(balance(&app, "owner", "ucmst"), 0);
    assert_eq!(balance(&app, "owner", "eth"), 0);
}

// ---- creating the registry ---------------------------------------------------

#[test]
fn instantiate_names_the_method_and_the_owner() {
    let mut storage = MockStorage::new();
    let mut store = Store { inner: &mut storage };
    let response = instantiate(
        &mut store,
        mock_env(),
        info("creator", vec![]),
        InstantiateMsg { accepted_token: vec!["ucmst".to_string()] },
    )
    .unwrap();
    assert_eq!(
        response,
        Response {
            messages: vec![],
            attributes: vec![attribute("method", "instantiate"), attribute("owner", "creator")],
        }
    );
}

#[test]
fn instantiate_stores_owner_tokens_and_version() {
    let storage = created("creator", &["ucmst", "eth"]);
    assert_eq!(Item::<Addr>::new("owner").load(&storage).unwrap(), Addr::unchecked("creator"));
    assert_eq!(
        Item::<Vec<String>>::new("accepted_token").load(&storage).unwrap(),
        vec!["ucmst".to_string(), "eth".to_string()]
    );
    let version = cw2::get_contract_version(&storage).unwrap();
    assert_eq!(version.contract, CONTRACT_NAME);
    assert_eq!(version.contract, "cosmos:donex-sm");
    assert_eq!(version.version, CONTRACT_VERSION);
    assert_eq!(dump(&storage).len(), 3);
}

#[test]
fn instantiate_leaves_the_links_alone() {
    let mut storage = created("owner", &["ucmst"]);
    let mut store = Store { inner: &mut storage };
    submit(&mut store, "owner", "twitter", "123", "abc").unwrap();
    instantiate(
        &mut store,
        mock_env(),
        info("other", vec![]),
        InstantiateMsg { accepted_token: vec![] },
    ).unwrap();
    assert_eq!(addresses_by_social(&store, "twitter", "123"), vec!["abc".to_string()]);
    // the owner is now the other sender
    assert_eq!(submit(&mut store, "owner", "x", "y", "z"), Err(ContractError::Unauthorized {}));
    assert!(submit(&mut store, "other", "x", "y", "z").is_ok());
}

#[test]
fn a_storage_failure_is_the_answer_to_instantiate() {
    assert_eq!(
        answer_to_instantiate(Ok(()), "creator".to_string()),
        Ok(Response {
            messages: vec![],
            attributes: vec![attribute("method", "instantiate"), attribute("owner", "creator")],
        })
    );
    assert_eq!(
        answer_to_instantiate(Err(StdError::generic_err("disk")), "creator".to_string()),
        Err(ContractError::Std(StdError::generic_err("disk")))
    );
}

// ---- linking -----------------------------------------------------------------

#[test]
fn a_storage_failure_is_the_answer_to_a_link() {
    assert_eq!(
        answer_to_link(Ok(())),
        Ok(
            Response {
                messages: vec![],
                attributes: vec![attribute("method", "submit_social_link")],
            },
        )
    );
    assert_eq!(
        answer_to_link(Err(StdError::generic_err("disk"))),
        Err(ContractError::Std(StdError::generic_err("disk")))
    );
}

#[test]
fn submit_social_link_names_the_method() {
    let mut storage = created("owner", &["ucmst"]);
    let mut store = Store { inner: &mut storage };
    let response =
        submit_social_link(
            &mut store,
            info("owner", vec![]),
            social("twitter", "123"),
            "abc".to_string(),
        )
            .unwrap();
    assert_eq!(
        response,
        Response { messages: vec![], attributes: vec![attribute("method", "submit_social_link")] }
    );
}

#[test]
fn a_link_from_another_sender_is_unauthorized_and_changes_nothing() {
    let mut storage = created("owner", &["ucmst"]);
    let before = dump(&storage);
    let mut store = Store { inner: &mut storage };
    let refused = submit(&mut store, "intruder", "twitter", "123", "abc");
    assert_eq!(refused, Err(ContractError::Unauthorized {}));
    assert_eq!(addresses_by_social(&store, "twitter", "123"), Vec::<String>::new());
    assert_eq!(socials_by_address(&store, "abc"), Vec::<(String, String)>::new());
    assert_eq!(dump(&storage), before);
}

#[test]
fn a_link_is_unauthorized_even_when_it_does_not_fit() {
    let mut storage = created("owner", &["ucmst"]);
    let mut store = Store { inner: &mut storage };
    let long = "a".repeat(65536);
    assert_eq!(
        submit(&mut store, "intruder", "twitter", "123", &long),
        Err(ContractError::Unauthorized {}),
    );
}

#[test]
fn a_link_without_an_owner_is_a_storage_error() {
    let mut storage = MockStorage::new();
    let mut store = Store { inner: &mut storage };
    let refused = submit(&mut store, "owner", "twitter", "123", "abc");
    assert!(is_storage_error(&refused));
    assert!(dump(&storage).is_empty());
}

#[test]
fn a_link_too_long_for_an_index_key_is_refused() {
    let mut storage = created("owner", &["ucmst"]);
    let before = dump(&storage);
    let mut store = Store { inner: &mut storage };
    let long = "a".repeat(65536);
    assert!(is_storage_error(&submit(&mut store, "owner", "twitter", "123", &long)));
    assert!(is_storage_error(&submit(&mut store, "owner", &long, "123", "abc")));
    assert!(is_storage_error(&submit(&mut store, "owner", "twitter", &long, "abc")));
    assert_eq!(dump(&storage), before);
}

#[test]
fn a_link_of_the_longest_parts_is_stored() {
    let mut storage = created("owner", &["ucmst"]);
    let mut store = Store { inner: &mut storage };
    let longest = "a".repeat(65535);
    // two bytes each: the limit counts bytes, not characters
    let wide = "é".repeat(32767);
    assert!(submit(&mut store, "owner", &longest, &wide, &longest).is_ok());
    assert_eq!(addresses_by_social(&store, &longest, &wide), vec![longest.clone()]);
    assert_eq!(socials_by_address(&store, &longest), vec![(longest.clone(), wide.clone())]);
    let too_wide = "é".repeat(32768);
    assert!(is_storage_error(&submit(&mut store, "owner", "t", &too_wide, "abc")));
}

#[test]
fn a_query_too_long_for_an_index_key_finds_nothing() {
    let mut storage = created("owner", &["ucmst"]);
    let mut store = Store { inner: &mut storage };
    submit(&mut store, "owner", "twitter", "123", "abc").unwrap();
    let long = "a".repeat(65536);
    assert_eq!(socials_by_address(&store, &long), Vec::<(String, String)>::new());
    assert_eq!(addresses_by_social(&store, &long, "123"), Vec::<String>::new());
    assert_eq!(addresses_by_social(&store, "twitter", &long), Vec::<String>::new());
}

#[test]
fn a_link_is_seen_from_both_sides() {
    let mut storage = created("owner", &["ucmst"]);
    let mut store = Store { inner: &mut storage };
    submit(&mut store, "owner", "twitter", "123", "abc").unwrap();
    assert_eq!(addresses_by_social(&store, "twitter", "123"), vec!["abc".to_string()]);
    assert_eq!(socials_by_address(&store, "abc"), vec![social("twitter", "123")]);
}

#[test]
fn identities_of_one_address_accumulate_in_key_order() {
    let mut storage = created("owner", &["ucmst"]);
    let mut store = Store { inner: &mut storage };
    submit(&mut store, "owner", "twitter", "1", "A").unwrap();
    submit(&mut store, "owner", "github", "2", "A").unwrap();
    submit(&mut store, "owner", "linkedin", "3", "A").unwrap();
    submit(&mut store, "owner", "twitter", "9", "B").unwrap();
    // keys A_github < A_linkedin < A_twitter: not the order of linking
    assert_eq!(
        socials_by_address(&store, "A"),
        vec![social("github", "2"), social("linkedin", "3"), social("twitter", "1")]
    );
    assert_eq!(socials_by_address(&store, "B"), vec![social("twitter", "9")]);
}

#[test]
fn one_identity_may_have_many_addresses() {
    let mut storage = created("owner", &["ucmst"]);
    let mut store = Store { inner: &mut storage };
    submit(&mut store, "owner", "twitter", "123", "zed").unwrap();
    submit(&mut store, "owner", "twitter", "123", "abc").unwrap();
    submit(&mut store, "owner", "twitter", "124", "mid").unwrap();
    assert_eq!(
        addresses_by_social(&store, "twitter", "123"),
        vec!["abc".to_string(), "zed".to_string()],
    );
    assert_eq!(addresses_by_social(&store, "twitter", "124"), vec!["mid".to_string()]);
}

#[test]
fn keys_are_ordered_by_their_bytes() {
    let mut storage = created("owner", &["ucmst"]);
    let mut store = Store { inner: &mut storage };
    // the keys are a_t, a__t, B_t, é_t: in bytes B < a__ < a_t < é
    for address in ["a", "a_", "B", "é"] {
        submit(&mut store, "owner", "t", "1", address).unwrap();
    }
    assert_eq!(
        addresses_by_social(&store, "t", "1"),
        vec!["B".to_string(), "a_".to_string(), "a".to_string(), "é".to_string()]
    );
}

#[test]
fn a_second_link_on_the_same_platform_takes_the_place_of_the_first() {
    let mut storage = created("owner", &["ucmst"]);
    let mut store = Store { inner: &mut storage };
    submit(&mut store, "owner", "twitter", "123", "abc").unwrap();
    submit(&mut store, "owner", "twitter", "456", "abc").unwrap();
    assert_eq!(socials_by_address(&store, "abc"), vec![social("twitter", "456")]);
    assert_eq!(addresses_by_social(&store, "twitter", "456"), vec!["abc".to_string()]);
    // the index by identity has let go of the first link
    assert_eq!(addresses_by_social(&store, "twitter", "123"), Vec::<String>::new());
}

#[test]
fn linking_again_changes_nothing() {
    let mut storage = created("owner", &["ucmst"]);
    {
        let mut store = Store { inner: &mut storage };
        submit(&mut store, "owner", "twitter", "123", "abc").unwrap();
    }
    let once = dump(&storage);
    {
        let mut store = Store { inner: &mut storage };
        submit(&mut store, "owner", "twitter", "123", "abc").unwrap();
    }
    assert_eq!(dump(&storage), once);
}

#[test]
fn an_answer_holds_no_address_and_no_platform_twice() {
    let mut storage = created("owner", &["ucmst"]);
    let mut store = Store { inner: &mut storage };
    submit(&mut store, "owner", "twitter", "123", "abc").unwrap();
    submit(&mut store, "owner", "twitter", "123", "abc").unwrap();
    submit(&mut store, "owner", "twitter", "123", "xyz").unwrap();
    submit(&mut store, "owner", "twitter", "456", "abc").unwrap();
    submit(&mut store, "owner", "twitter", "123", "abc").unwrap();
    assert_eq!(
        addresses_by_social(&store, "twitter", "123"),
        vec!["abc".to_string(), "xyz".to_string()],
    );
    assert_eq!(socials_by_address(&store, "abc"), vec![social("twitter", "123")]);
}

#[test]
fn a_refused_link_leaves_the_storage_as_it_was() {
    let mut storage = created("owner", &["ucmst"]);
    {
        let mut store = Store { inner: &mut storage };
        submit(&mut store, "owner", "twitter", "123", "abc").unwrap();
    }
    cw_storage_plus::Map::<&str, u32>::new("infos").save(&mut storage, "xyz_twitter", &7).unwrap();
    let before = dump(&storage);
    let long = "a".repeat(65536);
    let mut store = Store { inner: &mut storage };
    assert!(submit(&mut store, "intruder", "twitter", "9", "abc").is_err());
    assert!(submit(&mut store, "owner", "twitter", &long, "abc").is_err());
    assert!(submit(&mut store, "owner", "twitter", "9", "xyz").is_err());
    assert_eq!(dump(&storage), before);
}

#[test]
fn keys_that_coincide_overwrite() {
    let mut storage = created("owner", &["ucmst"]);
    let mut store = Store { inner: &mut storage };
    // both links have the key a_b_c
    submit(&mut store, "owner", "b_c", "1", "a").unwrap();
    submit(&mut store, "owner", "c", "2", "a_b").unwrap();
    assert_eq!(socials_by_address(&store, "a"), Vec::<(String, String)>::new());
    assert_eq!(addresses_by_social(&store, "b_c", "1"), Vec::<String>::new());
    assert_eq!(socials_by_address(&store, "a_b"), vec![social("c", "2")]);
}

#[test]
fn an_unlinked_identity_has_no_address() {
    let mut storage = created("owner", &["ucmst"]);
    let mut store = Store { inner: &mut storage };
    submit(&mut store, "owner", "twitter", "123", "abc").unwrap();
    assert_eq!(addresses_by_social(&store, "twitter", "12"), Vec::<String>::new());
    assert_eq!(addresses_by_social(&store, "twitte", "r123"), Vec::<String>::new());
    assert_eq!(addresses_by_social(&store, "123", "twitter"), Vec::<String>::new());
    assert_eq!(socials_by_address(&store, "ab"), Vec::<(String, String)>::new());
    assert_eq!(socials_by_address(&store, "abcd"), Vec::<(String, String)>::new());
}

#[test]
fn queries_answer_before_the_registry_is_created() {
    let mut storage = MockStorage::new();
    let store = Store { inner: &mut storage };
    assert_eq!(
        query_by_social_link(&store, "123".to_string(), "twitter".to_string()).unwrap(),
        GetAddressesBySocialResponse { address: vec![] }
    );
    assert_eq!(
        contract::query_by_address(&store, "abc".to_string()).unwrap(),
        GetSocialsByAddressResponse { social_infos: vec![] }
    );
}

#[test]
fn links_come_with_their_keys() {
    let mut storage = created("owner", &["ucmst"]);
    let mut store = Store { inner: &mut storage };
    submit(&mut store, "owner", "twitter", "123", "abc").unwrap();
    submit(&mut store, "owner", "github", "7", "abc").unwrap();
    assert_eq!(
        links_by_address(&store, "abc"),
        vec![
            ("abc_github".to_string(), link("abc", "github", "7")),
            ("abc_twitter".to_string(), link("abc", "twitter", "123")),
        ]
    );
    assert_eq!(
        links_by_social(&store, "twitter", "123"),
        vec![("abc_twitter".to_string(), link("abc", "twitter", "123"))]
    );
}

#[test]
fn save_user_info_keeps_both_indexes_up_to_date() {
    let mut storage = MockStorage::new();
    let mut store = Store { inner: &mut storage };
    save_user_info(&mut store, "k1", &link("a", "p", "1")).unwrap();
    save_user_info(&mut store, "k2", &link("a", "q", "2")).unwrap();
    save_user_info(&mut store, "k1", &link("b", "q", "2")).unwrap();
    assert_eq!(links_by_address(&store, "a"), vec![("k2".to_string(), link("a", "q", "2"))]);
    assert_eq!(links_by_address(&store, "b"), vec![("k1".to_string(), link("b", "q", "2"))]);
    assert_eq!(links_by_social(&store, "p", "1"), vec![]);
    assert_eq!(
        links_by_social(&store, "q", "2"),
        vec![("k1".to_string(), link("b", "q", "2")), ("k2".to_string(), link("a", "q", "2"))]
    );
    // the table holds two links, each index two entries
    assert_eq!(dump(&storage).len(), 6);
}

#[test]
fn save_user_info_refuses_what_does_not_fit() {
    let mut storage = MockStorage::new();
    let mut store = Store { inner: &mut storage };
    let long = "a".repeat(65536);
    assert!(save_user_info(&mut store, "k", &link(&long, "p", "1")).is_err());
    assert!(save_user_info(&mut store, "k", &link("a", &long, "1")).is_err());
    assert!(save_user_info(&mut store, "k", &link("a", "p", &long)).is_err());
    assert!(dump(&storage).is_empty());
    // the key has no such limit
    let mut store = Store { inner: &mut storage };
    assert!(save_user_info(&mut store, &long, &link("a", "p", "1")).is_ok());
    assert_eq!(links_by_address(&store, "a"), vec![(long.clone(), link("a", "p", "1"))]);
}

#[test]
fn texts_survive_storage() {
    let odd = "q\"uote \\ back\nline\ttab \u{1}\u{7f} é 漢字 🦀 {}[],:_";
    let mut storage = created(odd, &[odd, "ucmst"]);
    let mut store = Store { inner: &mut storage };
    assert!(submit(&mut store, odd, odd, odd, odd).is_ok());
    assert_eq!(submit(&mut store, "q", "t", "1", "a"), Err(ContractError::Unauthorized {}));
    assert_eq!(addresses_by_social(&store, odd, odd), vec![odd.to_string()]);
    assert_eq!(socials_by_address(&store, odd), vec![social(odd, odd)]);
    assert_eq!(
        links_by_address(&store, odd),
        vec![(format!("{}_{}", odd, odd), link(odd, odd, odd))]
    );
    let response = give(&mut store, odd, paid(100, odd), odd).unwrap();
    assert_eq!(response.messages, vec![send(odd, 95, odd), send(odd, 5, odd)]);
}

#[test]
fn a_link_goes_to_its_stored_form_and_back() {
    let d = link("abc", "twitter", "123").to_stored();
    assert_eq!(d, stored("abc", "twitter", "123"));
    assert_eq!(UserInfo::from_stored(d), link("abc", "twitter", "123"));
    assert_eq!(link("a", "b", "c").clone(), link("a", "b", "c"));
}

#[test]
fn index_functions_pick_address_and_identity() {
    let stored: StoredInfo = ("abc".to_string(), "twitter".to_string(), "123".to_string());
    assert_eq!(address_of(b"abc_twitter", &stored), "abc");
    assert_eq!(social_of(b"abc_twitter", &stored), social("twitter", "123"));
}

// ---- the same table through the storage layer's own indexed map --------------

struct Indexes<'a> {
    address: MultiIndex<'a, String, StoredInfo, String>,
    social_info: MultiIndex<'a, (String, String), StoredInfo, String>,
}

impl<'a> IndexList<StoredInfo> for Indexes<'a> {
    fn get_indexes(&'_ self) -> Box<dyn Iterator<Item = &'_ dyn Index<StoredInfo>> + '_> {
        let v: Vec<&dyn Index<StoredInfo>> = vec![&self.address, &self.social_info];
        Box::new(v.into_iter())
    }
}

fn indexed_map<'a>() -> IndexedMap<'a, &'a str, StoredInfo, Indexes<'a>> {
    IndexedMap::new(
        "infos",
        Indexes {
            address: MultiIndex::new(address_of, "infos", "infos__address"),
            social_info: MultiIndex::new(social_of, "infos", "infos__social_info"),
        },
    )
}

fn stored(address: &str, platform: &str, profile_id: &str) -> StoredInfo {
    (address.to_string(), platform.to_string(), profile_id.to_string())
}

#[test]
fn the_registry_writes_what_an_indexed_map_writes() {
    let mut ours = created("owner", &["ucmst"]);
    let mut theirs = created("owner", &["ucmst"]);
    let steps = [
        ("abc", "twitter", "123"),
        ("abc", "facebook", "456"),
        ("xyz", "twitter", "123"),
        ("abc", "twitter", "789"),
        ("abc", "facebook", "456"),
        ("", "", ""),
    ];
    for (address, platform, profile_id) in steps {
        {
            let mut store = Store { inner: &mut ours };
            submit(&mut store, "owner", platform, profile_id, address).unwrap();
        }
        let key = format!("{}_{}", address, platform);
        indexed_map().save(
            &mut theirs,
            key.as_str(),
            &stored(address, platform, profile_id),
        ).unwrap();
        assert_eq!(dump(&ours), dump(&theirs));
    }
}

#[test]
fn the_registry_reads_what_an_indexed_map_wrote() {
    let mut storage = created("owner", &["ucmst"]);
    indexed_map().save(&mut storage, "user_twitter", &stored("user", "twitter", "123")).unwrap();
    indexed_map().save(&mut storage, "user_facebook", &stored("user", "facebook", "456")).unwrap();
    let store = Store { inner: &mut storage };
    assert_eq!(
        socials_by_address(&store, "user"),
        vec![social("facebook", "456"), social("twitter", "123")],
    );
    assert_eq!(addresses_by_social(&store, "twitter", "123"), vec!["user".to_string()]);
}

#[test]
fn an_indexed_map_reads_what_the_registry_wrote() {
    let mut storage = created("owner", &["ucmst"]);
    {
        let mut store = Store { inner: &mut storage };
        submit(&mut store, "owner", "twitter", "123", "user").unwrap();
        submit(&mut store, "owner", "facebook", "456", "user").unwrap();
    }
    let found: Vec<(String, StoredInfo)> = indexed_map()
        .idx
        .address
        .prefix("user".to_string())
        .range(&storage, None, None, Order::Ascending)
        .map(|item| item.unwrap())
        .collect();
    assert_eq!(
        found,
        vec![
            ("user_facebook".to_string(), stored("user", "facebook", "456")),
            ("user_twitter".to_string(), stored("user", "twitter", "123")),
        ]
    );
    assert_eq!(
        indexed_map().load(&storage, "user_twitter").unwrap(),
        stored("user", "twitter", "123"),
    );
}

#[test]
fn an_index_entry_without_a_link_is_left_out() {
    let mut storage = created("owner", &["ucmst"]);
    {
        let mut store = Store { inner: &mut storage };
        submit(&mut store, "owner", "twitter", "123", "abc").unwrap();
        submit(&mut store, "owner", "github", "7", "abc").unwrap();
    }
    // take a link out of the table behind the indexes' back
    cw_storage_plus::Map::<&str, StoredInfo>::new("infos").remove(&mut storage, "abc_github");
    let store = Store { inner: &mut storage };
    assert_eq!(socials_by_address(&store, "abc"), vec![social("twitter", "123")]);
    assert_eq!(addresses_by_social(&store, "github", "7"), Vec::<String>::new());
}

#[test]
fn a_link_over_an_unreadable_entry_is_a_storage_error() {
    let mut storage = created("owner", &["ucmst"]);
    // under the key of the link to come stands something that is no link
    cw_storage_plus::Map::<&str, u32>::new("infos").save(&mut storage, "abc_twitter", &7).unwrap();
    let before = dump(&storage);
    let mut store = Store { inner: &mut storage };
    let refused = submit(&mut store, "owner", "twitter", "123", "abc");
    assert!(is_storage_error(&refused));
    assert_eq!(dump(&storage), before);
}

#[test]
fn an_unreadable_link_is_left_out() {
    let mut storage = created("owner", &["ucmst"]);
    {
        let mut store = Store { inner: &mut storage };
        submit(&mut store, "owner", "twitter", "123", "abc").unwrap();
        submit(&mut store, "owner", "github", "7", "abc").unwrap();
    }
    cw_storage_plus::Map::<&str, u32>::new("infos").save(&mut storage, "abc_github", &7).unwrap();
    let store = Store { inner: &mut storage };
    assert_eq!(socials_by_address(&store, "abc"), vec![social("twitter", "123")]);
    assert_eq!(addresses_by_social(&store, "github", "7"), Vec::<String>::new());
}

#[test]
fn an_unreadable_owner_is_a_storage_error() {
    let mut storage = created("owner", &["ucmst"]);
    Item::<u32>::new("owner").save(&mut storage, &7).unwrap();
    let mut store = Store { inner: &mut storage };
    assert!(is_storage_error(&submit(&mut store, "owner", "twitter", "123", "abc")));
    assert!(matches!(
        give(&mut store, "donor", paid(100, "ucmst"), "admin1"),
        Err(ContractError::Std(_))
    ));
}

#[test]
fn unreadable_denominations_are_a_storage_error() {
    let mut storage = created("owner", &["ucmst"]);
    Item::<u32>::new("accepted_token").save(&mut storage, &7).unwrap();
    let mut store = Store { inner: &mut storage };
    assert!(matches!(
        give(&mut store, "donor", paid(100, "ucmst"), "admin1"),
        Err(ContractError::Std(_))
    ));
}

// ---- donating ----------------------------------------------------------------

#[test]
fn a_donation_is_split_between_recipient_and_owner() {
    let mut storage = created("owner", &["ucmst"]);
    let before = dump(&storage);
    let mut store = Store { inner: &mut storage };
    let response =
        give(&mut store, "donor", paid(100, "ucmst"), "admin1").unwrap();
    assert_eq!(
        response,
        Response {
            messages: vec![send("admin1", 95, "ucmst"), send("owner", 5, "ucmst")],
            attributes: vec![
                attribute("action", "donate"),
                attribute("amount", "95"),
                attribute("sender", "donor"),
            ],
        }
    );
    assert_eq!(dump(&storage), before);
}

#[test]
fn a_donation_through_execute_is_the_same() {
    let mut storage = created("owner", &["ucmst", "eth"]);
    let mut store = Store { inner: &mut storage };
    let through = execute(
        &mut store,
        mock_env(),
        info("donor", paid(1234, "eth")),
        ExecuteMsg::Donate { recipient: "admin1".to_string() },
    );
    let direct = give(&mut store, "donor", paid(1234, "eth"), "admin1");
    assert_eq!(through, direct);
    assert_eq!(
        direct.unwrap().messages,
        vec![send("admin1", 1173, "eth"), send("owner", 61, "eth")]
    );
}

#[test]
fn the_fee_rounds_down() {
    let mut storage = created("owner", &["ucmst"]);
    let mut store = Store { inner: &mut storage };
    for (amount, rest, fee) in [
        (1u128, 1u128, 0u128),
        (19, 19, 0),
        (20, 19, 1),
        (39, 38, 1),
        (99, 95, 4),
        (101, 96, 5),
    ] {
        let response =
            give(&mut store, "donor", paid(amount, "ucmst"), "admin1")
                .unwrap();
        assert_eq!(
            response.messages,
            vec![send("admin1", rest, "ucmst"), send("owner", fee, "ucmst")],
        );
        assert_eq!(response.attributes[1], attribute("amount", &rest.to_string()));
    }
}

#[test]
fn the_largest_donation_is_split_without_overflow() {
    let mut storage = created("owner", &["ucmst"]);
    let mut store = Store { inner: &mut storage };
    let response =
        give(&mut store, "donor", paid(u128::MAX, "ucmst"), "admin1")
            .unwrap();
    let fee = u128::MAX / 20;
    assert_eq!(fee, 17014118346046923173168730371588410572);
    assert_eq!(
        response.messages,
        vec![send("admin1", u128::MAX - fee, "ucmst"), send("owner", fee, "ucmst")]
    );
    assert_eq!(
        response.attributes[1],
        attribute("amount", "323268248574891540290205877060179800883"),
    );
}

#[test]
fn a_donation_without_funds_is_an_invalid_denomination() {
    let mut storage = created("owner", &["ucmst"]);
    let mut store = Store { inner: &mut storage };
    let refused = give(&mut store, "donor", vec![], "admin1");
    assert_eq!(refused, Err(ContractError::InvalidDenom {}));
}

#[test]
fn a_donation_of_two_denominations_is_an_invalid_denomination() {
    let mut storage = created("owner", &["ucmst", "eth"]);
    let before = dump(&storage);
    let mut store = Store { inner: &mut storage };
    let funds = vec![
        Coin { denom: "eth".to_string(), amount: 30 },
        Coin { denom: "ucmst".to_string(), amount: 40 },
    ];
    let refused = give(&mut store, "donor", funds, "admin1");
    assert_eq!(refused, Err(ContractError::InvalidDenom {}));
    let twice = vec![
        Coin { denom: "ucmst".to_string(), amount: 30 },
        Coin { denom: "ucmst".to_string(), amount: 40 },
    ];
    let refused = give(&mut store, "donor", twice, "admin1");
    assert_eq!(refused, Err(ContractError::InvalidDenom {}));
    assert_eq!(dump(&storage), before);
}

#[test]
fn a_donation_in_another_denomination_is_an_invalid_denomination() {
    let mut storage = created("owner", &["ucmst", "eth"]);
    let mut store = Store { inner: &mut storage };
    for denom in ["uatom", "ucms", "ucmstt", "", "ETH"] {
        let refused = give(&mut store, "donor", paid(100, denom), "admin1");
        assert_eq!(refused, Err(ContractError::InvalidDenom {}));
    }
    assert!(give(&mut store, "donor", paid(100, "eth"), "admin1").is_ok());
}

#[test]
fn a_donation_of_nothing_is_an_invalid_denomination() {
    let mut storage = created("owner", &["ucmst"]);
    let mut store = Store { inner: &mut storage };
    let refused = give(&mut store, "donor", paid(0, "ucmst"), "admin1");
    assert_eq!(refused, Err(ContractError::InvalidDenom {}));
}

#[test]
fn a_donation_before_the_registry_is_created_is_a_storage_error() {
    let mut storage = MockStorage::new();
    let mut store = Store { inner: &mut storage };
    let refused = give(&mut store, "donor", paid(100, "ucmst"), "admin1");
    assert!(is_storage_error(&refused));
    // a storage error comes before any look at the funds
    let refused = give(&mut store, "donor", vec![], "admin1");
    assert!(is_storage_error(&refused));
}

#[test]
fn anyone_may_donate_and_the_owner_too() {
    let mut storage = created("owner", &["ucmst"]);
    let mut store = Store { inner: &mut storage };
    let response =
        give(&mut store, "owner", paid(200, "ucmst"), "owner").unwrap();
    assert_eq!(response.messages, vec![send("owner", 190, "ucmst"), send("owner", 10, "ucmst")]);
    assert_eq!(response.attributes[2], attribute("sender", "owner"));
}

#[test]
fn answers_travel_as_plain_lists() {
    let answer: Vec<String> = from_json(to_json_binary(&vec!["abc".to_string()]).unwrap()).unwrap();
    assert_eq!(answer, vec!["abc".to_string()]);
}

use torram_contracts::decimal::Price;
use torram_contracts::error::ContractError;
use torram_contracts::oracle::contract::{
    execute, instantiate, oracle_contacts_request, oracle_prices_event, query, try_update_prices,
    QueryStep,
};
use torram_contracts::oracle::msg::{
    CwTemplateContract, ExecuteMsg, InstantiateMsg, PriceData, QueryMsg,
};
use torram_contracts::oracle::state::Storage;
use torram_contracts::response::{Attribute, Event, Response};

fn whole(n: u128) -> Price {
    Price::from_atomics(n, 0).unwrap()
}

fn sample() -> PriceData {
    PriceData {
        btc: whole(50000),
        eth: whole(3000),
        usdc: Price::parse("1.01").unwrap(),
        usdt: Price::parse("0.99").unwrap(),
        dai: whole(1),
    }
}

fn zero_record() -> PriceData {
    let zero = Price { atomics: 0 };
    PriceData { btc: zero, eth: zero, usdc: zero, usdt: zero, dai: zero }
}

fn set_up(admin: &str) -> Storage {
    let mut storage = Storage::new();
    instantiate(&mut storage, InstantiateMsg { admin: admin.to_string() }).unwrap();
    storage
}

fn update_msg(p: PriceData) -> ExecuteMsg {
    ExecuteMsg::UpdatePrices { btc: p.btc, eth: p.eth, usdc: p.usdc, usdt: p.usdt, dai: p.dai }
}

fn attribute(key: &str, value: &str) -> Attribute {
    Attribute { key: key.to_string(), value: value.to_string() }
}

#[test]
fn set_up_stores_the_admin_and_a_zero_record() {
    let mut storage = Storage::new();
    assert_eq!(storage, Storage { admin: None, prices: None });
    let res = instantiate(&mut storage, InstantiateMsg { admin: "admin".to_string() }).unwrap();
    assert_eq!(storage, Storage { admin: Some("admin".to_string()), prices: Some(zero_record()) });
    assert_eq!(
        res,
        Response {
            messages: vec![],
            attributes: vec![attribute("method", "instantiate"), attribute("admin", "admin")],
            events: vec![],
        }
    );
}

#[test]
fn prices_are_zero_after_set_up() {
    let storage = set_up("admin");
    assert_eq!(query(&storage, QueryMsg::GetPrices {}), Ok(QueryStep::Reply(zero_record())));
}

#[test]
fn update_by_the_admin_then_get_returns_the_record() {
    let mut storage = set_up("admin");
    execute(&mut storage, "admin", update_msg(sample())).unwrap();
    assert_eq!(query(&storage, QueryMsg::GetPrices {}), Ok(QueryStep::Reply(sample())));
    assert_eq!(storage.load_prices(), Ok(sample()));
    assert_eq!(storage.load_admin(), Ok(&"admin".to_string()));
}

#[test]
fn a_later_update_replaces_the_record() {
    let mut storage = set_up("admin");
    execute(&mut storage, "admin", update_msg(sample())).unwrap();
    let mut next = sample();
    next.btc = whole(60000);
    next.dai = Price { atomics: 7 };
    execute(&mut storage, "admin", update_msg(next)).unwrap();
    assert_eq!(query(&storage, QueryMsg::GetPrices {}), Ok(QueryStep::Reply(next)));
}

#[test]
fn update_by_anyone_else_is_unauthorized_and_changes_nothing() {
    let mut storage = set_up("admin");
    execute(&mut storage, "admin", update_msg(sample())).unwrap();
    let before = storage.clone();
    for sender in ["eve", "", "Admin", "admin ", " admin", "admi", "adminadmin"] {
        let res = execute(&mut storage, sender, update_msg(zero_record()));
        assert_eq!(res, Err(ContractError::Unauthorized {}), "{:?}", sender);
        assert_eq!(storage, before);
    }
}

#[test]
fn unauthorized_update_may_carry_any_record() {
    let mut storage = set_up("admin");
    let max = Price { atomics: u128::MAX };
    let record = PriceData { btc: max, eth: max, usdc: max, usdt: max, dai: max };
    let res = try_update_prices(&mut storage, "eve", max, max, max, max, max);
    assert_eq!(res, Err(ContractError::Unauthorized {}));
    assert!(!record.is_averageable());
    assert_eq!(storage.load_prices(), Ok(zero_record()));
}

#[test]
fn nothing_can_be_read_or_updated_before_set_up() {
    let mut storage = Storage::new();
    assert_eq!(query(&storage, QueryMsg::GetPrices {}), Err(ContractError::NotInitialized));
    assert_eq!(storage.load_admin(), Err(ContractError::NotInitialized));
    assert_eq!(
        execute(&mut storage, "admin", update_msg(sample())),
        Err(ContractError::NotInitialized)
    );
    assert_eq!(storage, Storage::new());
}

#[test]
fn update_reports_the_stablecoins_and_their_average() {
    let mut storage = set_up("torram1admin");
    let record = PriceData {
        btc: whole(50000),
        eth: whole(3000),
        usdc: whole(1),
        usdt: Price::parse("1.5").unwrap(),
        dai: Price::parse("0.5").unwrap(),
    };
    let res = execute(&mut storage, "torram1admin", update_msg(record)).unwrap();
    assert_eq!(
        res,
        Response {
            messages: vec![],
            attributes: vec![
                attribute("action", "update_prices"),
                attribute("sender", "torram1admin"),
            ],
            events: vec![Event {
                ty: "oracle_prices".to_string(),
                attributes: vec![
                    attribute("usdc", "1"),
                    attribute("usdt", "1.5"),
                    attribute("dai", "0.5"),
                    attribute("average", "1"),
                ],
            }],
        }
    );
}

#[test]
fn update_reports_a_cut_off_average() {
    let mut storage = set_up("admin");
    let record =
        PriceData { btc: whole(1), eth: whole(1), usdc: whole(1), usdt: whole(1), dai: whole(2) };
    let res = execute(&mut storage, "admin", update_msg(record)).unwrap();
    assert_eq!(res.events[0].attributes[3], attribute("average", "1.333333333333333333"));
}

#[test]
fn the_event_keeps_the_order_of_its_attributes() {
    let e = oracle_prices_event("a".into(), "b".into(), "c".into(), "d".into());
    assert_eq!(e.ty, "oracle_prices");
    let keys: Vec<&str> = e.attributes.iter().map(|a| a.key.as_str()).collect();
    let values: Vec<&str> = e.attributes.iter().map(|a| a.value.as_str()).collect();
    assert_eq!(keys, vec!["usdc", "usdt", "dai", "average"]);
    assert_eq!(values, vec!["a", "b", "c", "d"]);
}

#[test]
fn fetch_asks_for_all_contacts() {
    let storage = Storage::new();
    let step = query(&storage, QueryMsg::FetchFromOracle {}).unwrap();
    assert_eq!(step, QueryStep::Lookup(oracle_contacts_request()));
    let request = oracle_contacts_request();
    assert_eq!(request.method, "get_all_contacts");
    assert_eq!(request.args, "{}");
}

#[test]
fn fetch_does_not_touch_the_stored_record() {
    let mut storage = set_up("admin");
    execute(&mut storage, "admin", update_msg(sample())).unwrap();
    let before = storage.clone();
    query(&storage, QueryMsg::FetchFromOracle {}).unwrap();
    assert_eq!(storage, before);
}

#[test]
fn response_builders_append_in_order() {
    let r = Response::new()
        .add_attribute("k1", "v1".to_string())
        .add_event(Event::new("first").add_attribute("a", "1".to_string()))
        .add_attribute("k2", "v2".to_string())
        .add_event(Event::new("second"));
    assert_eq!(r.attributes, vec![attribute("k1", "v1"), attribute("k2", "v2")]);
    assert_eq!(
        r.events,
        vec![
            Event { ty: "first".to_string(), attributes: vec![attribute("a", "1")] },
            Event { ty: "second".to_string(), attributes: vec![] },
        ]
    );
    assert!(r.messages.is_empty());
}

#[test]
fn a_contract_handle_addresses_its_calls() {
    let contract = CwTemplateContract("torram1oracle".to_string());
    assert_eq!(contract.addr(), "torram1oracle");
    let call = contract.call(update_msg(sample()));
    assert_eq!(call.contract_addr, "torram1oracle");
    assert_eq!(call.msg, update_msg(sample()));
}

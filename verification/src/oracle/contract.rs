//! The oracle's operations: set-up, the admin-gated price update with its
//! average, and the reading of quotations out of an oracle contact's text.

use crate::decimal::{
    decimal_add, decimal_div, decimal_from_atomics, decimal_parse, decimal_text,
    lemma_quotient_by_three, lemma_three_scaled, parsed_decimal, Price,
};
use crate::error::{outcome_view, ContractError, ErrorView};
use crate::oracle::field::{field_text, locate_field, FieldSpan, FieldText};
use crate::oracle::msg::{
    ContactsResponse, ExecuteMsg, InstantiateMsg, PriceData, QueryMsg, TorramQueryWrapper,
};
use crate::oracle::state::{Storage, StorageView};
use crate::response::{response_view, Event, EventView, Response, ResponseView};
use crate::text::chars_of;
use vstd::prelude::*;
use vstd::string::{StrSliceExecFns, StringExecFns};

verus! {

/// The record that the oracle starts with: every quotation is 0.
pub open spec fn zero_prices() -> PriceData {
    PriceData {
        btc: Price { atomics: 0 },
        eth: Price { atomics: 0 },
        usdc: Price { atomics: 0 },
        usdt: Price { atomics: 0 },
        dai: Price { atomics: 0 },
    }
}

/// The record of the five quotations of an update request.
pub open spec fn record_of(msg: ExecuteMsg) -> PriceData {
    match msg {
        ExecuteMsg::UpdatePrices { btc, eth, usdc, usdt, dai } => PriceData {
            btc,
            eth,
            usdc,
            usdt,
            dai,
        },
    }
}

/// What a set-up reports: the method and the admin it stored.
pub open spec fn instantiate_response(admin: Seq<char>) -> ResponseView {
    ResponseView {
        messages: Seq::empty(),
        attributes: seq![("method"@, "instantiate"@), ("admin"@, admin)],
        events: Seq::empty(),
    }
}

/// The event of a price update: the three stablecoin quotations and their
/// average, each by its decimal literal.
pub open spec fn prices_event(usdc: Seq<char>, usdt: Seq<char>, dai: Seq<char>, average: Seq<char>)
    -> EventView {
    EventView {
        ty: "oracle_prices"@,
        attributes: seq![("usdc"@, usdc), ("usdt"@, usdt), ("dai"@, dai), ("average"@, average)],
    }
}

/// What an accepted update reports: the action, its sender, and the event of
/// the stablecoin quotations with their average.
pub open spec fn update_response(sender: Seq<char>, record: PriceData) -> ResponseView {
    ResponseView {
        messages: Seq::empty(),
        attributes: seq![("action"@, "update_prices"@), ("sender"@, sender)],
        events: seq![
            prices_event(
                decimal_text(record.usdc.atomics),
                decimal_text(record.usdt.atomics),
                decimal_text(record.dai.atomics),
                decimal_text(record.average() as u128),
            ),
        ],
    }
}

/// Whether an update from `sender` is let through, and why not.
pub open spec fn update_allowed(state: StorageView, sender: Seq<char>) -> Result<(), ErrorView> {
    match state.stored_admin() {
        Err(e) => Err(e),
        Ok(admin) => if sender == admin {
            Ok(())
        } else {
            Err(ErrorView::Unauthorized)
        },
    }
}

/// The state after `sender` asked to store `record`: the record replaces the
/// stored one if the update is allowed, and nothing changes otherwise.
pub open spec fn after_update(state: StorageView, sender: Seq<char>, record: PriceData)
    -> StorageView {
    if update_allowed(state, sender) is Ok {
        StorageView { admin: state.admin, prices: Some(record) }
    } else {
        state
    }
}

/// What `sender`'s request to store `record` returns.
pub open spec fn update_outcome(state: StorageView, sender: Seq<char>, record: PriceData) -> Result<
    ResponseView,
    ErrorView,
> {
    match update_allowed(state, sender) {
        Err(e) => Err(e),
        Ok(_) => Ok(update_response(sender, record)),
    }
}

/// Sets the oracle up: stores `msg.admin` as the admin and a record of zero
/// quotations.
pub fn instantiate(storage: &mut Storage, msg: InstantiateMsg) -> (r: Result<
    Response,
    ContractError,
>)
    ensures
        final(storage)@ == (StorageView { admin: Some(msg.admin@), prices: Some(zero_prices()) }),
        response_view(r) == Ok::<ResponseView, ErrorView>(instantiate_response(msg.admin@)),
{
    let zero = Price::zero();
    storage.save_admin(msg.admin.clone());
    storage.save_prices(PriceData { btc: zero, eth: zero, usdc: zero, usdt: zero, dai: zero });
    let response = Response::new().add_attribute(
        "method",
        String::from_str("instantiate"),
    ).add_attribute("admin", msg.admin);
    assert(response@.attributes =~= instantiate_response(msg.admin@).attributes);
    Ok(response)
}

/// Carries out a state-changing request of `sender`. Where the update is
/// allowed, the sum of the three stablecoin quotations must be representable,
/// for their average is taken from it.
pub fn execute(storage: &mut Storage, sender: &str, msg: ExecuteMsg) -> (r: Result<
    Response,
    ContractError,
>)
    requires
        update_allowed(old(storage)@, sender@) is Ok ==> record_of(msg).averageable(),
    ensures
        final(storage)@ == after_update(old(storage)@, sender@, record_of(msg)),
        response_view(r) == update_outcome(old(storage)@, sender@, record_of(msg)),
{
    match msg {
        ExecuteMsg::UpdatePrices { btc, eth, usdc, usdt, dai } => try_update_prices(
            storage,
            sender,
            btc,
            eth,
            usdc,
            usdt,
            dai,
        ),
    }
}

/// Stores the five quotations if `sender` is the admin, and reports the
/// stablecoin quotations with their average. An update by anyone else fails
/// with `Unauthorized` and changes nothing. Where the update is allowed, the
/// sum of the three stablecoin quotations must be representable.
pub fn try_update_prices(
    storage: &mut Storage,
    sender: &str,
    btc: Price,
    eth: Price,
    usdc: Price,
    usdt: Price,
    dai: Price,
) -> (r: Result<Response, ContractError>)
    requires
        update_allowed(old(storage)@, sender@) is Ok ==> (PriceData {
            btc,
            eth,
            usdc,
            usdt,
            dai,
        }).averageable(),
    ensures
        final(storage)@ == after_update(
            old(storage)@,
            sender@,
            PriceData { btc, eth, usdc, usdt, dai },
        ),
        response_view(r) == update_outcome(
            old(storage)@,
            sender@,
            PriceData { btc, eth, usdc, usdt, dai },
        ),
{
    let sender_addr = String::from_str(sender);
    match storage.load_admin() {
        Err(e) => {
            return Err(e);
        },
        Ok(admin) => {
            if !(sender_addr == *admin) {
                return Err(ContractError::Unauthorized {  });
            }
        },
    }
    let data = PriceData { btc, eth, usdc, usdt, dai };
    storage.save_prices(data);
    let avg = average_price(&data);
    let event = oracle_prices_event(
        data.usdc.text(),
        data.usdt.text(),
        data.dai.text(),
        avg.text(),
    );
    let response = Response::new().add_attribute(
        "action",
        String::from_str("update_prices"),
    ).add_attribute("sender", sender_addr).add_event(event);
    assert(response@.attributes =~= update_response(sender@, data).attributes);
    assert(response@.events =~= update_response(sender@, data).events);
    Ok(response)
}

/// The event of a price update, from the decimal literals of the three
/// stablecoin quotations and of their average.
pub fn oracle_prices_event(usdc: String, usdt: String, dai: String, average: String) -> (e: Event)
    ensures
        e@ == prices_event(usdc@, usdt@, dai@, average@),
{
    let e = Event::new("oracle_prices").add_attribute("usdc", usdc).add_attribute(
        "usdt",
        usdt,
    ).add_attribute("dai", dai).add_attribute("average", average);
    assert(e@.attributes =~= prices_event(usdc@, usdt@, dai@, average@).attributes);
    e
}

/// The average of the three stablecoin quotations: their sum divided by
/// three, cut off after the eighteenth fractional digit.
pub fn average_price(prices: &PriceData) -> (avg: Price)
    requires
        prices.averageable(),
    ensures
        avg@ == prices.average(),
{
    proof {
        lemma_three_scaled();
    }
    let three = decimal_from_atomics(3, 0).unwrap();
    let sum = decimal_add(
        decimal_add(prices.usdc.atomics, prices.usdt.atomics),
        prices.dai.atomics,
    );
    proof {
        lemma_quotient_by_three(sum);
    }
    Price { atomics: decimal_div(sum, three) }
}

/// The quotation that a parse of the value of `key` stands for.
pub open spec fn price_of_parsed(key: Seq<char>, parsed: Option<u128>) -> Result<Price, ErrorView> {
    match parsed {
        Some(atomics) => Ok(Price { atomics }),
        None => Err(ErrorView::FieldUnparseable { key }),
    }
}

/// The quotation of `key` in the oracle text `s`.
pub open spec fn extracted_price(s: Seq<char>, key: Seq<char>) -> Result<Price, ErrorView> {
    match field_text(s, key) {
        FieldText::Missing => Err(ErrorView::FieldNotFound { key }),
        FieldText::Malformed => Err(ErrorView::FieldMalformed { key }),
        FieldText::Value(text) => price_of_parsed(key, parsed_decimal(text)),
    }
}

/// The five quotations in the oracle text `s`. They are read in the order
/// BTC, ETH, USDC, USDT, DAI, and the first that fails decides the failure.
pub open spec fn oracle_prices(s: Seq<char>) -> Result<PriceData, ErrorView> {
    match extracted_price(s, "BTC"@) {
        Err(e) => Err(e),
        Ok(btc) => match extracted_price(s, "ETH"@) {
            Err(e) => Err(e),
            Ok(eth) => match extracted_price(s, "USDC"@) {
                Err(e) => Err(e),
                Ok(usdc) => match extracted_price(s, "USDT"@) {
                    Err(e) => Err(e),
                    Ok(usdt) => match extracted_price(s, "DAI"@) {
                        Err(e) => Err(e),
                        Ok(dai) => Ok(PriceData { btc, eth, usdc, usdt, dai }),
                    },
                },
            },
        },
    }
}

/// What a fetch from the oracle returns for the outcome of its contacts
/// lookup: the lookup's failure, `NoOracleContact` for an empty list, and
/// otherwise the quotations in the first contact's text.
pub open spec fn fetched_prices(lookup: Result<ContactsResponse, String>) -> Result<
    PriceData,
    ErrorView,
> {
    match lookup {
        Err(message) => Err(ErrorView::UpstreamQueryFailed { message: message@ }),
        Ok(response) => if response.contacts@.len() == 0 {
            Err(ErrorView::NoOracleContact)
        } else {
            oracle_prices(response.contacts@[0].contact@)
        },
    }
}

/// The quotation that a parse of the value of `key` stands for.
pub fn price_from_parsed(key: &str, parsed: Option<u128>) -> (r: Result<Price, ContractError>)
    ensures
        outcome_view(r) == price_of_parsed(key@, parsed),
{
    match parsed {
        Some(atomics) => Ok(Price { atomics }),
        None => Err(ContractError::FieldUnparseable { key: String::from_str(key) }),
    }
}

/// Reads the quotation of `key` out of the oracle text `s`.
pub fn extract_price(s: &str, key: &str) -> (r: Result<Price, ContractError>)
    ensures
        outcome_view(r) == extracted_price(s@, key@),
{
    let chars = chars_of(s);
    match locate_field(&chars, key) {
        FieldSpan::Missing => Err(ContractError::FieldNotFound { key: String::from_str(key) }),
        FieldSpan::Malformed => Err(ContractError::FieldMalformed { key: String::from_str(key) }),
        FieldSpan::Value { from, to } => {
            let text = s.substring_char(from, to);
            price_from_parsed(key, decimal_parse(text))
        },
    }
}

/// Reads the five quotations out of the oracle text `s`.
pub fn parse_oracle_prices(s: &str) -> (r: Result<PriceData, ContractError>)
    ensures
        outcome_view(r) == oracle_prices(s@),
{
    let btc = match extract_price(s, "BTC") {
        Ok(p) => p,
        Err(e) => {
            return Err(e);
        },
    };
    let eth = match extract_price(s, "ETH") {
        Ok(p) => p,
        Err(e) => {
            return Err(e);
        },
    };
    let usdc = match extract_price(s, "USDC") {
        Ok(p) => p,
        Err(e) => {
            return Err(e);
        },
    };
    let usdt = match extract_price(s, "USDT") {
        Ok(p) => p,
        Err(e) => {
            return Err(e);
        },
    };
    let dai = match extract_price(s, "DAI") {
        Ok(p) => p,
        Err(e) => {
            return Err(e);
        },
    };
    Ok(PriceData { btc, eth, usdc, usdt, dai })
}

/// Whether `request` is the lookup that a fetch from the oracle needs: the
/// method that lists all contacts, with an empty object of arguments.
pub open spec fn is_contacts_request(request: TorramQueryWrapper) -> bool {
    request.method@ == "get_all_contacts"@ && request.args@ == "{}"@
}

/// The lookup that a fetch from the oracle needs.
pub fn oracle_contacts_request() -> (request: TorramQueryWrapper)
    ensures
        is_contacts_request(request),
{
    TorramQueryWrapper {
        method: String::from_str("get_all_contacts"),
        args: String::from_str("{}"),
    }
}

/// Completes a fetch from the oracle with the outcome of its contacts
/// lookup. The quotations are returned, not stored.
pub fn query_oracle_prices(lookup: Result<ContactsResponse, String>) -> (r: Result<
    PriceData,
    ContractError,
>)
    ensures
        outcome_view(r) == fetched_prices(lookup),
{
    match lookup {
        Err(message) => Err(ContractError::UpstreamQueryFailed { message }),
        Ok(response) => {
            if response.contacts.len() == 0 {
                return Err(ContractError::NoOracleContact);
            }
            parse_oracle_prices(response.contacts[0].contact.as_str())
        },
    }
}

/// What the host does next to serve a read-only request.
#[derive(Clone, Debug, PartialEq)]
pub enum QueryStep {
    /// Reply with the record.
    Reply(PriceData),
    /// Make this lookup and complete the request with `query_oracle_prices`.
    Lookup(TorramQueryWrapper),
}

/// Whether `r` serves `msg` as far as the stored state allows: the stored
/// record for `GetPrices`, or the failure to read it, and the contacts lookup
/// to make for `FetchFromOracle`.
pub open spec fn serves(state: StorageView, msg: QueryMsg, r: Result<QueryStep, ContractError>)
    -> bool {
    match msg {
        QueryMsg::GetPrices {  } => match state.stored_prices() {
            Ok(prices) => r == Ok::<QueryStep, ContractError>(QueryStep::Reply(prices)),
            Err(e) => r matches Err(x) && x@ == e,
        },
        QueryMsg::FetchFromOracle {  } => {
            &&& r matches Ok(QueryStep::Lookup(request))
            &&& is_contacts_request(request)
        },
    }
}

/// Serves a read-only request as far as the stored state allows.
pub fn query(storage: &Storage, msg: QueryMsg) -> (r: Result<QueryStep, ContractError>)
    ensures
        serves(storage@, msg, r),
{
    match msg {
        QueryMsg::GetPrices {  } => match storage.load_prices() {
            Ok(prices) => Ok(QueryStep::Reply(prices)),
            Err(e) => Err(e),
        },
        QueryMsg::FetchFromOracle {  } => Ok(QueryStep::Lookup(oracle_contacts_request())),
    }
}

/// An update by the admin followed by a read returns exactly the submitted
/// record.
pub proof fn lemma_update_then_get(state: StorageView, admin: Seq<char>, record: PriceData)
    requires
        state.admin == Some(admin),
    ensures
        after_update(state, admin, record).stored_prices() == Ok::<PriceData, ErrorView>(record),
{
}

/// No update changes the admin, whoever asks for it.
pub proof fn lemma_admin_is_kept(state: StorageView, sender: Seq<char>, record: PriceData)
    ensures
        after_update(state, sender, record).admin == state.admin,
{
}

/// An update by anyone but the admin fails with `Unauthorized` and leaves the
/// stored state as it was.
pub proof fn lemma_update_by_other(
    state: StorageView,
    admin: Seq<char>,
    sender: Seq<char>,
    record: PriceData,
)
    requires
        state.admin == Some(admin),
        sender != admin,
    ensures
        update_outcome(state, sender, record) == Err::<ResponseView, ErrorView>(
            ErrorView::Unauthorized,
        ),
        after_update(state, sender, record) == state,
{
}

} // verus!

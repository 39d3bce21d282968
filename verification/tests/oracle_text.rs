use torram_contracts::decimal::Price;
use torram_contracts::error::ContractError;
use torram_contracts::oracle::contract::{
    extract_price, parse_oracle_prices, price_from_parsed, query_oracle_prices,
};
use torram_contracts::oracle::field::{locate_field, FieldSpan};
use torram_contracts::oracle::msg::{Contact, ContactsResponse, PriceData};

const ONE: u128 = 1_000_000_000_000_000_000;
const SAMPLE: &str = "BTC: 50000, ETH: 3000, USDC: 1.00, USDT: 1.00, DAI: 1.00";

fn whole(n: u128) -> Price {
    Price { atomics: n * ONE }
}

fn not_found(key: &str) -> ContractError {
    ContractError::FieldNotFound { key: key.to_string() }
}

fn unparseable(key: &str) -> ContractError {
    ContractError::FieldUnparseable { key: key.to_string() }
}

fn contacts(texts: &[&str]) -> ContactsResponse {
    ContactsResponse {
        contacts: texts
            .iter()
            .map(|t| Contact { address: "torram1oracle".to_string(), contact: t.to_string() })
            .collect(),
    }
}

fn span_text(s: &str, key: &str) -> Option<String> {
    let chars: Vec<char> = s.chars().collect();
    match locate_field(&chars, key) {
        FieldSpan::Value { from, to } => Some(chars[from..to].iter().collect()),
        FieldSpan::Missing => None,
        FieldSpan::Malformed => panic!("malformed"),
    }
}

#[test]
fn the_sample_text_gives_its_five_quotations() {
    assert_eq!(
        parse_oracle_prices(SAMPLE),
        Ok(PriceData {
            btc: whole(50000),
            eth: whole(3000),
            usdc: whole(1),
            usdt: whole(1),
            dai: whole(1),
        })
    );
}

#[test]
fn a_text_without_dai_fails_with_field_not_found() {
    let text = "BTC: 50000, ETH: 3000, USDC: 1.00, USDT: 1.00";
    assert_eq!(parse_oracle_prices(text), Err(not_found("DAI")));
    assert_eq!(extract_price(text, "DAI"), Err(not_found("DAI")));
}

#[test]
fn a_value_that_is_no_decimal_fails_with_field_unparseable() {
    assert_eq!(extract_price("USDC:abc", "USDC"), Err(unparseable("USDC")));
    let text = "BTC: 50000, ETH: 3000, USDC:abc, USDT: 1.00, DAI: 1.00";
    assert_eq!(parse_oracle_prices(text), Err(unparseable("USDC")));
}

#[test]
fn the_first_failing_field_decides() {
    assert_eq!(parse_oracle_prices(""), Err(not_found("BTC")));
    assert_eq!(parse_oracle_prices("BTC: 1"), Err(not_found("ETH")));
    assert_eq!(parse_oracle_prices("ETH: x, BTC: y"), Err(unparseable("BTC")));
    assert_eq!(parse_oracle_prices("BTC: 1, ETH: x, DAI: 1"), Err(unparseable("ETH")));
    assert_eq!(parse_oracle_prices("BTC: 1, ETH: 1, USDT: x"), Err(not_found("USDC")));
    assert_eq!(parse_oracle_prices("BTC:1,ETH:1,USDC:1,DAI:q"), Err(not_found("USDT")));
    assert_eq!(parse_oracle_prices("BTC:1,ETH:1,USDC:1,USDT:1,DAI:q"), Err(unparseable("DAI")));
}

#[test]
fn fields_may_stand_in_any_order() {
    let text = "DAI: 0.99, USDT: 1.01, BTC: 50000.5, USDC: 1, ETH: 3000";
    assert_eq!(
        parse_oracle_prices(text),
        Ok(PriceData {
            btc: Price { atomics: 50000 * ONE + ONE / 2 },
            eth: whole(3000),
            usdc: whole(1),
            usdt: Price { atomics: 1_010_000_000_000_000_000 },
            dai: Price { atomics: 990_000_000_000_000_000 },
        })
    );
}

#[test]
fn whitespace_around_fields_and_values_is_ignored() {
    assert_eq!(extract_price("BTC:1", "BTC"), Ok(whole(1)));
    assert_eq!(extract_price("   BTC:   1   ", "BTC"), Ok(whole(1)));
    assert_eq!(extract_price("\t\nBTC:\r\n1\t,ETH:2", "BTC"), Ok(whole(1)));
    assert_eq!(extract_price("x,\u{a0}\u{2003}ETH:\u{3000}2\u{2028}", "ETH"), Ok(whole(2)));
    assert_eq!(extract_price("\u{85}\u{1680}DAI:\u{205f}7\u{202f}\u{2029}", "DAI"), Ok(whole(7)));
}

#[test]
fn what_is_no_whitespace_is_not_dropped() {
    assert_eq!(extract_price("\u{200b}BTC: 1", "BTC"), Err(not_found("BTC")));
    assert_eq!(extract_price("BTC: \u{200b}1", "BTC"), Err(unparseable("BTC")));
    assert_eq!(extract_price("BTC: 1\u{feff}", "BTC"), Err(unparseable("BTC")));
    assert_eq!(extract_price("_BTC: 1", "BTC"), Err(not_found("BTC")));
}

#[test]
fn the_key_must_open_the_piece_and_meet_the_colon() {
    assert_eq!(extract_price("XBTC: 1", "BTC"), Err(not_found("BTC")));
    assert_eq!(extract_price("BTC : 1", "BTC"), Err(not_found("BTC")));
    assert_eq!(extract_price("btc: 1", "BTC"), Err(not_found("BTC")));
    assert_eq!(extract_price("BTC 1", "BTC"), Err(not_found("BTC")));
    assert_eq!(extract_price("BT", "BTC"), Err(not_found("BTC")));
    assert_eq!(extract_price("BTC", "BTC"), Err(not_found("BTC")));
    assert_eq!(extract_price("B,TC: 1", "BTC"), Err(not_found("BTC")));
    assert_eq!(extract_price("USD: 1", "USDC"), Err(not_found("USDC")));
    assert_eq!(extract_price("USDC: 1", "USD"), Err(not_found("USD")));
}

#[test]
fn the_first_piece_with_the_key_is_the_field() {
    assert_eq!(extract_price("BTC: 1, BTC: 2", "BTC"), Ok(whole(1)));
    assert_eq!(extract_price("BTC: x, BTC: 2", "BTC"), Err(unparseable("BTC")));
    assert_eq!(extract_price("XBTC: 1, BTC: 2", "BTC"), Ok(whole(2)));
    assert_eq!(extract_price(",,BTC: 3,", "BTC"), Ok(whole(3)));
}

#[test]
fn the_value_is_all_that_follows_the_first_colon() {
    assert_eq!(span_text("BTC: 5 ", "BTC"), Some("5".to_string()));
    assert_eq!(span_text("a, BTC:5:6 ,b", "BTC"), Some("5:6".to_string()));
    assert_eq!(extract_price("BTC:5:6", "BTC"), Err(unparseable("BTC")));
    assert_eq!(span_text("BTC: 1 000 ", "BTC"), Some("1 000".to_string()));
    assert_eq!(extract_price("BTC: 1 000", "BTC"), Err(unparseable("BTC")));
}

#[test]
fn an_empty_value_is_unparseable() {
    assert_eq!(span_text("BTC:", "BTC"), Some(String::new()));
    assert_eq!(span_text("BTC:   ,ETH:1", "BTC"), Some(String::new()));
    assert_eq!(extract_price("BTC:", "BTC"), Err(unparseable("BTC")));
    assert_eq!(extract_price("BTC:   ,ETH:1", "BTC"), Err(unparseable("BTC")));
}

#[test]
fn a_decimal_beyond_the_range_is_unparseable() {
    assert_eq!(extract_price("BTC: 340282366920938463464", "BTC"), Err(unparseable("BTC")));
    assert_eq!(
        extract_price("BTC: 340282366920938463463.374607431768211455", "BTC"),
        Ok(Price { atomics: u128::MAX })
    );
    assert_eq!(extract_price("BTC: 0.1234567890123456789", "BTC"), Err(unparseable("BTC")));
    assert_eq!(extract_price("BTC: -1", "BTC"), Err(unparseable("BTC")));
}

#[test]
fn keys_other_than_the_five_work_alike() {
    assert_eq!(extract_price("SOL: 20.5", "SOL"), Ok(Price { atomics: 20 * ONE + ONE / 2 }));
    assert_eq!(extract_price(": 4", ""), Ok(whole(4)));
    assert_eq!(extract_price("A:B: 4", "A:B"), Err(unparseable("A:B")));
    assert_eq!(extract_price("A,B: 4", "A,B"), Err(not_found("A,B")));
    assert_eq!(extract_price("\u{20ac}UR: 4", "\u{20ac}UR"), Ok(whole(4)));
}

#[test]
fn locate_field_reports_where_the_value_stands() {
    let chars: Vec<char> = "é, BTC:  12.5 , x".chars().collect();
    assert_eq!(locate_field(&chars, "BTC"), FieldSpan::Value { from: 9, to: 13 });
    assert_eq!(locate_field(&chars, "ETH"), FieldSpan::Missing);
    assert_eq!(locate_field(&Vec::new(), "BTC"), FieldSpan::Missing);
}

#[test]
fn a_parse_result_becomes_a_quotation_or_a_failure() {
    assert_eq!(price_from_parsed("BTC", Some(5)), Ok(Price { atomics: 5 }));
    assert_eq!(price_from_parsed("BTC", Some(0)), Ok(Price { atomics: 0 }));
    assert_eq!(price_from_parsed("BTC", None), Err(unparseable("BTC")));
}

#[test]
fn fetch_with_no_contact_fails_with_no_oracle_contact() {
    assert_eq!(query_oracle_prices(Ok(contacts(&[]))), Err(ContractError::NoOracleContact));
}

#[test]
fn fetch_reads_the_first_contact_only() {
    let record = PriceData {
        btc: whole(50000),
        eth: whole(3000),
        usdc: whole(1),
        usdt: whole(1),
        dai: whole(1),
    };
    assert_eq!(query_oracle_prices(Ok(contacts(&[SAMPLE]))), Ok(record));
    assert_eq!(query_oracle_prices(Ok(contacts(&[SAMPLE, "garbage"]))), Ok(record));
    assert_eq!(query_oracle_prices(Ok(contacts(&["garbage", SAMPLE]))), Err(not_found("BTC")));
}

#[test]
fn fetch_passes_a_failed_lookup_on() {
    assert_eq!(
        query_oracle_prices(Err("Querier system error: no such method".to_string())),
        Err(ContractError::UpstreamQueryFailed {
            message: "Querier system error: no such method".to_string()
        })
    );
}

#[test]
fn a_field_always_has_a_value_portion() {
    let texts = ["", ":", "BTC", "BTC:", " BTC:", "BTC::", ",BTC:,", "BTC:,BTC", "BTC,:", ":BTC:"];
    for text in texts {
        for key in ["BTC", "", ":", "BTC:"] {
            let chars: Vec<char> = text.chars().collect();
            assert_ne!(locate_field(&chars, key), FieldSpan::Malformed, "{:?} {:?}", text, key);
            assert_ne!(
                extract_price(text, key),
                Err(ContractError::FieldMalformed { key: key.to_string() })
            );
        }
    }
}

use sx_metrics::abi::{
    balance_from_fields, fast_config_from_fields, fundfordream_from_fields, mine_from_fields,
    parse_balance, parse_fast_config, parse_fundfordream, parse_mine, parse_transfer,
    transfer_from_fields,
};
use sx_metrics::json::{find_text, find_unsigned, has_only_keys, JsonField, JsonValue};

fn text_field(key: &str, value: &str) -> JsonField {
    JsonField { key: key.to_string(), value: JsonValue::Text(value.to_string()) }
}

fn number_field(key: &str, value: Option<u64>) -> JsonField {
    JsonField { key: key.to_string(), value: JsonValue::Number(value) }
}

#[test]
fn balance_is_decoded() {
    let record = parse_balance(r#"{"balance":"1.0000 EOS"}"#).unwrap();
    assert_eq!(record.balance, "1.0000 EOS");
}

#[test]
fn balance_with_whitespace_is_decoded() {
    let record = parse_balance(" { \"balance\" : \"7 USDT\" } ").unwrap();
    assert_eq!(record.balance, "7 USDT");
}

#[test]
fn balance_with_an_extra_field_is_absent() {
    assert!(parse_balance(r#"{"balance":"1.0000 EOS","extra":1}"#).is_none());
    assert!(parse_balance(r#"{"extra":"x","balance":"1.0000 EOS"}"#).is_none());
}

#[test]
fn balance_without_its_field_is_absent() {
    assert!(parse_balance("{}").is_none());
    assert!(parse_balance(r#"{"amount":"1.0000 EOS"}"#).is_none());
}

#[test]
fn balance_of_another_type_is_absent() {
    assert!(parse_balance(r#"{"balance":10000}"#).is_none());
    assert!(parse_balance(r#"{"balance":null}"#).is_none());
    assert!(parse_balance(r#"{"balance":["1.0000 EOS"]}"#).is_none());
}

#[test]
fn text_that_is_no_object_is_absent() {
    assert!(parse_balance("").is_none());
    assert!(parse_balance("null").is_none());
    assert!(parse_balance("not json").is_none());
    assert!(parse_balance(r#""1.0000 EOS""#).is_none());
    assert!(parse_balance(r#"{"balance":"1.0000 EOS""#).is_none());
    assert!(parse_balance(r#"{"balance":"1.0000 EOS"} x"#).is_none());
    assert!(parse_mine("42").is_none());
    assert!(parse_transfer("[]").is_none());
    assert!(parse_fast_config("true").is_none());
    assert!(parse_fundfordream("{").is_none());
}

#[test]
fn fast_config_is_decoded() {
    let record = parse_fast_config(
        r#"{"status":"ok","trade_amount":10000,"min_profit":5,"max_mine":42}"#,
    )
    .unwrap();
    assert_eq!(record.status, "ok");
    assert_eq!(record.trade_amount, 10000);
    assert_eq!(record.min_profit, 5);
    assert_eq!(record.max_mine, 42);
}

#[test]
fn fast_config_fields_come_in_any_order() {
    let record = parse_fast_config(
        r#"{"max_mine":18446744073709551615,"status":"","min_profit":0,"trade_amount":1}"#,
    )
    .unwrap();
    assert_eq!(record.status, "");
    assert_eq!(record.trade_amount, 1);
    assert_eq!(record.min_profit, 0);
    assert_eq!(record.max_mine, u64::MAX);
}

#[test]
fn fast_config_with_an_extra_field_is_absent() {
    assert!(parse_fast_config(
        r#"{"status":"ok","trade_amount":10000,"min_profit":5,"max_mine":42,"more":0}"#
    )
    .is_none());
}

#[test]
fn fast_config_with_a_missing_field_is_absent() {
    assert!(parse_fast_config(r#"{"status":"ok","trade_amount":10000,"min_profit":5}"#).is_none());
}

#[test]
fn fast_config_numbers_must_be_unsigned_integers() {
    assert!(parse_fast_config(
        r#"{"status":"ok","trade_amount":10000,"min_profit":5,"max_mine":-1}"#
    )
    .is_none());
    assert!(parse_fast_config(
        r#"{"status":"ok","trade_amount":10000,"min_profit":5,"max_mine":1.5}"#
    )
    .is_none());
    assert!(parse_fast_config(
        r#"{"status":"ok","trade_amount":10000,"min_profit":5,"max_mine":"42"}"#
    )
    .is_none());
    assert!(parse_fast_config(
        r#"{"status":"ok","trade_amount":10000,"min_profit":5,"max_mine":18446744073709551616}"#
    )
    .is_none());
}

#[test]
fn mine_is_decoded() {
    let record = parse_mine(r#"{"executor":"alice","nonce":7}"#).unwrap();
    assert_eq!(record.executor, "alice");
    assert_eq!(record.nonce, 7);
}

#[test]
fn mine_with_an_extra_field_is_absent() {
    assert!(parse_mine(r#"{"executor":"alice","nonce":7,"memo":""}"#).is_none());
}

#[test]
fn mine_with_a_text_nonce_is_absent() {
    assert!(parse_mine(r#"{"executor":"alice","nonce":"7"}"#).is_none());
    assert!(parse_mine(r#"{"executor":5,"nonce":7}"#).is_none());
    assert!(parse_mine(r#"{"executor":"alice"}"#).is_none());
}

#[test]
fn transfer_is_decoded() {
    let record = parse_transfer(
        r#"{"from":"trader.sx","to":"fee.sx","quantity":"12.3400 EOS","memo":"hello"}"#,
    )
    .unwrap();
    assert_eq!(record.from, "trader.sx");
    assert_eq!(record.to, "fee.sx");
    assert_eq!(record.quantity, "12.3400 EOS");
    assert_eq!(record.memo, "hello");
}

#[test]
fn transfer_with_an_extra_field_is_absent() {
    assert!(parse_transfer(
        r#"{"from":"a","to":"b","quantity":"1 EOS","memo":"","fee":"0 EOS"}"#
    )
    .is_none());
}

#[test]
fn transfer_with_a_missing_field_is_absent() {
    assert!(parse_transfer(r#"{"from":"a","to":"b","quantity":"1 EOS"}"#).is_none());
}

#[test]
fn a_mine_payload_is_no_transfer_and_a_transfer_no_mine() {
    assert!(parse_transfer(r#"{"executor":"alice","nonce":7}"#).is_none());
    assert!(parse_mine(r#"{"from":"a","to":"b","quantity":"1 EOS","memo":""}"#).is_none());
}

#[test]
fn fundfordream_is_decoded() {
    let record = parse_fundfordream(r#"{"m":"1.0000 EOS|note"}"#).unwrap();
    assert_eq!(record.m, "1.0000 EOS|note");
}

#[test]
fn fundfordream_with_an_extra_field_is_absent() {
    assert!(parse_fundfordream(r#"{"m":"1.0000 EOS","n":"x"}"#).is_none());
    assert!(parse_fundfordream(r#"{"m":1}"#).is_none());
}

#[test]
fn records_are_decoded_from_fields() {
    let fields = vec![text_field("balance", "5.0000 EOS")];
    assert_eq!(balance_from_fields(&fields).unwrap().balance, "5.0000 EOS");

    let fields = vec![number_field("nonce", Some(9)), text_field("executor", "bob")];
    let mine = mine_from_fields(&fields).unwrap();
    assert_eq!(mine.executor, "bob");
    assert_eq!(mine.nonce, 9);

    let fields = vec![
        text_field("status", "on"),
        number_field("trade_amount", Some(1)),
        number_field("min_profit", Some(2)),
        number_field("max_mine", Some(3)),
    ];
    let config = fast_config_from_fields(&fields).unwrap();
    assert_eq!(config.status, "on");
    assert_eq!(config.trade_amount, 1);
    assert_eq!(config.min_profit, 2);
    assert_eq!(config.max_mine, 3);

    let fields = vec![
        text_field("memo", "m"),
        text_field("quantity", "q"),
        text_field("to", "t"),
        text_field("from", "f"),
    ];
    let transfer = transfer_from_fields(&fields).unwrap();
    assert_eq!(transfer.from, "f");
    assert_eq!(transfer.to, "t");
    assert_eq!(transfer.quantity, "q");
    assert_eq!(transfer.memo, "m");

    let fields = vec![text_field("m", "line")];
    assert_eq!(fundfordream_from_fields(&fields).unwrap().m, "line");
}

#[test]
fn fields_with_an_unknown_key_give_no_record() {
    let fields = vec![text_field("balance", "5.0000 EOS"), text_field("other", "x")];
    assert!(balance_from_fields(&fields).is_none());
    let fields = vec![text_field("executor", "bob"), number_field("nonce", Some(1)), number_field("x", Some(1))];
    assert!(mine_from_fields(&fields).is_none());
    let fields = vec![text_field("n", "line")];
    assert!(fundfordream_from_fields(&fields).is_none());
}

#[test]
fn fields_of_the_wrong_kind_give_no_record() {
    let fields = vec![number_field("balance", Some(5))];
    assert!(balance_from_fields(&fields).is_none());
    let fields = vec![text_field("executor", "bob"), number_field("nonce", None)];
    assert!(mine_from_fields(&fields).is_none());
    let fields = vec![
        text_field("executor", "bob"),
        JsonField { key: "nonce".to_string(), value: JsonValue::Other },
    ];
    assert!(mine_from_fields(&fields).is_none());
}

#[test]
fn a_repeated_key_gives_no_record() {
    let fields = vec![text_field("executor", "bob"), text_field("executor", "eve")];
    assert!(mine_from_fields(&fields).is_none());
    let fields = vec![text_field("balance", "1 EOS"), text_field("balance", "2 EOS")];
    assert!(balance_from_fields(&fields).is_none());
}

#[test]
fn lookups_take_the_first_field_of_a_key() {
    let fields = vec![
        text_field("a", "one"),
        number_field("b", Some(2)),
        text_field("a", "three"),
        number_field("c", None),
    ];
    assert_eq!(find_text(&fields, "a"), Some("one".to_string()));
    assert_eq!(find_text(&fields, "b"), None);
    assert_eq!(find_text(&fields, "z"), None);
    assert_eq!(find_unsigned(&fields, "b"), Some(2));
    assert_eq!(find_unsigned(&fields, "a"), None);
    assert_eq!(find_unsigned(&fields, "c"), None);
    assert!(has_only_keys(&fields, &vec!["a", "b", "c"]));
    assert!(!has_only_keys(&fields, &vec!["a", "b"]));
    assert!(has_only_keys(&Vec::new(), &Vec::new()));
}

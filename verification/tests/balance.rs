use sx_metrics::block::{Action, ActionTrace, Block, DbOp, TransactionTrace};
use sx_metrics::chain::{Asset, ExtendedSymbol, Name, Symbol};
use sx_metrics::utils::{balance_delta, get_balance_delta, NOISE_TRACES};

fn traces(count: usize) -> Vec<ActionTrace> {
    let mut list = Vec::new();
    for _ in 0..count {
        list.push(ActionTrace {
            receiver: "any".to_string(),
            action: Some(Action {
                account: "any".to_string(),
                name: "noop".to_string(),
                json_data: "{}".to_string(),
            }),
        });
    }
    list
}

fn row(code: &str, table: &str, scope: &str, old: &str, new: &str) -> DbOp {
    DbOp {
        code: code.to_string(),
        table_name: table.to_string(),
        scope: scope.to_string(),
        primary_key: "EOS".to_string(),
        old_data_json: old.to_string(),
        new_data_json: new.to_string(),
    }
}

fn eos_row(scope: &str, old: &str, new: &str) -> DbOp {
    row(
        "eosio.token",
        "accounts",
        scope,
        &format!("{{\"balance\":\"{}\"}}", old),
        &format!("{{\"balance\":\"{}\"}}", new),
    )
}

fn block(transactions: Vec<TransactionTrace>) -> Block {
    Block { producer: "producer1".to_string(), transaction_traces: transactions }
}

fn fee() -> Name {
    Name::from_text("fee.sx").unwrap()
}

fn eos() -> ExtendedSymbol {
    ExtendedSymbol::from_extended(
        Symbol::from_text("4,EOS").unwrap(),
        Name::from_text("eosio.token").unwrap(),
    )
}

fn eos_asset(amount: i128) -> Asset {
    Asset { amount, symbol: Symbol::from_text("4,EOS").unwrap() }
}

#[test]
fn the_threshold_is_ten() {
    assert_eq!(NOISE_TRACES, 10);
}

#[test]
fn no_matching_mutation_gives_no_change() {
    assert_eq!(get_balance_delta(&block(vec![]), fee(), eos()), None);
    let b = block(vec![TransactionTrace {
        action_traces: traces(20),
        db_ops: vec![
            eos_row("other.sx", "1.0000 EOS", "2.0000 EOS"),
            row("eosio.token", "stat", "fee.sx", r#"{"balance":"1.0000 EOS"}"#, r#"{"balance":"2.0000 EOS"}"#),
            row("tethertether", "accounts", "fee.sx", r#"{"balance":"1.0000 EOS"}"#, r#"{"balance":"2.0000 EOS"}"#),
        ],
    }]);
    assert_eq!(get_balance_delta(&b, fee(), eos()), None);
}

#[test]
fn a_transaction_of_ten_traces_is_noise() {
    let b = block(vec![TransactionTrace {
        action_traces: traces(10),
        db_ops: vec![eos_row("fee.sx", "1.0000 EOS", "500.0000 EOS")],
    }]);
    assert_eq!(get_balance_delta(&b, fee(), eos()), None);
    let b = block(vec![TransactionTrace {
        action_traces: traces(0),
        db_ops: vec![eos_row("fee.sx", "1.0000 EOS", "2.0000 EOS")],
    }]);
    assert_eq!(get_balance_delta(&b, fee(), eos()), None);
}

#[test]
fn a_transaction_of_eleven_traces_is_a_trade() {
    let b = block(vec![TransactionTrace {
        action_traces: traces(11),
        db_ops: vec![eos_row("fee.sx", "1.0000 EOS", "3.5000 EOS")],
    }]);
    assert_eq!(get_balance_delta(&b, fee(), eos()), Some(eos_asset(25000)));
}

#[test]
fn the_change_is_last_minus_first() {
    let b = block(vec![
        TransactionTrace {
            action_traces: traces(12),
            db_ops: vec![
                eos_row("fee.sx", "10.0000 EOS", "15.0000 EOS"),
                eos_row("fee.sx", "15.0000 EOS", "4.0000 EOS"),
            ],
        },
        TransactionTrace {
            action_traces: traces(11),
            db_ops: vec![eos_row("fee.sx", "100.0000 EOS", "12.0000 EOS")],
        },
    ]);
    assert_eq!(get_balance_delta(&b, fee(), eos()), Some(eos_asset(20000)));
}

#[test]
fn a_loss_is_negative_and_no_change_is_zero() {
    let b = block(vec![TransactionTrace {
        action_traces: traces(11),
        db_ops: vec![eos_row("fee.sx", "3.0000 EOS", "1.0000 EOS")],
    }]);
    assert_eq!(get_balance_delta(&b, fee(), eos()), Some(eos_asset(-20000)));
    let b = block(vec![TransactionTrace {
        action_traces: traces(11),
        db_ops: vec![eos_row("fee.sx", "3.0000 EOS", "3.0000 EOS")],
    }]);
    assert_eq!(get_balance_delta(&b, fee(), eos()), Some(eos_asset(0)));
}

#[test]
fn the_last_contributing_transaction_decides() {
    let simple = TransactionTrace {
        action_traces: traces(2),
        db_ops: vec![eos_row("fee.sx", "1.0000 EOS", "2.0000 EOS")],
    };
    let trade = TransactionTrace {
        action_traces: traces(30),
        db_ops: vec![eos_row("fee.sx", "2.0000 EOS", "9.0000 EOS")],
    };
    let unrelated = TransactionTrace {
        action_traces: traces(1),
        db_ops: vec![eos_row("other.sx", "2.0000 EOS", "9.0000 EOS")],
    };
    let b = block(vec![simple.clone(), trade.clone(), unrelated.clone()]);
    assert_eq!(get_balance_delta(&b, fee(), eos()), Some(eos_asset(80000)));
    let b = block(vec![trade, simple, unrelated]);
    assert_eq!(get_balance_delta(&b, fee(), eos()), None);
}

#[test]
fn a_matching_row_that_records_nothing_still_counts_as_contributing() {
    let trade = TransactionTrace {
        action_traces: traces(30),
        db_ops: vec![eos_row("fee.sx", "2.0000 EOS", "9.0000 EOS")],
    };
    let silent = TransactionTrace {
        action_traces: traces(1),
        db_ops: vec![row("eosio.token", "accounts", "fee.sx", "", "")],
    };
    let b = block(vec![trade, silent]);
    assert_eq!(get_balance_delta(&b, fee(), eos()), None);
}

#[test]
fn old_and_new_are_read_each_for_itself() {
    let b = block(vec![TransactionTrace {
        action_traces: traces(11),
        db_ops: vec![
            row("eosio.token", "accounts", "fee.sx", "", r#"{"balance":"1.0000 EOS"}"#),
            row("eosio.token", "accounts", "fee.sx", r#"{"balance":"1.0000 EOS"}"#, r#"{"balance":"4.0000 EOS"}"#),
            row("eosio.token", "accounts", "fee.sx", r#"{"balance":"6.0000 EOS"}"#, ""),
        ],
    }]);
    assert_eq!(get_balance_delta(&b, fee(), eos()), Some(eos_asset(50000)));
}

#[test]
fn a_single_amount_gives_a_change_of_zero() {
    let b = block(vec![TransactionTrace {
        action_traces: traces(11),
        db_ops: vec![row("eosio.token", "accounts", "fee.sx", "", r#"{"balance":"1.0000 EOS"}"#)],
    }]);
    assert_eq!(get_balance_delta(&b, fee(), eos()), Some(eos_asset(0)));
}

#[test]
fn other_symbols_and_precisions_are_left_out() {
    let b = block(vec![TransactionTrace {
        action_traces: traces(11),
        db_ops: vec![
            eos_row("fee.sx", "1.0000 USDT", "2.0000 USDT"),
            eos_row("fee.sx", "1.00 EOS", "2.00 EOS"),
        ],
    }]);
    assert_eq!(get_balance_delta(&b, fee(), eos()), None);
    let b = block(vec![TransactionTrace {
        action_traces: traces(11),
        db_ops: vec![
            eos_row("fee.sx", "1.0000 USDT", "2.0000 EOS"),
            eos_row("fee.sx", "3.0000 EOS", "7.0000 USDT"),
        ],
    }]);
    assert_eq!(get_balance_delta(&b, fee(), eos()), Some(eos_asset(10000)));
}

#[test]
fn payloads_that_cannot_be_read_are_left_out() {
    let b = block(vec![TransactionTrace {
        action_traces: traces(11),
        db_ops: vec![
            row("eosio.token", "accounts", "fee.sx", r#"{"balance":"1.0000 EOS","x":1}"#, r#"{"balance":"oops"}"#),
            row("eosio.token", "accounts", "fee.sx", "not json", r#"{"balance":"2.0000 EOS"}"#),
            row("Not A Name", "accounts", "fee.sx", r#"{"balance":"5.0000 EOS"}"#, r#"{"balance":"6.0000 EOS"}"#),
            row("eosio.token", "accounts", "NOT A NAME", r#"{"balance":"5.0000 EOS"}"#, r#"{"balance":"6.0000 EOS"}"#),
            row("eosio.token", "accounts", "fee.sx", r#"{"balance":"2.0000 EOS"}"#, r#"{"balance":"2.5000 EOS"}"#),
        ],
    }]);
    assert_eq!(get_balance_delta(&b, fee(), eos()), Some(eos_asset(5000)));
}

#[test]
fn the_threshold_can_be_chosen() {
    let b = block(vec![TransactionTrace {
        action_traces: traces(3),
        db_ops: vec![eos_row("fee.sx", "1.0000 EOS", "2.0000 EOS")],
    }]);
    assert_eq!(balance_delta(&b, fee(), eos(), 3), None);
    assert_eq!(balance_delta(&b, fee(), eos(), 2), Some(eos_asset(10000)));
    assert_eq!(balance_delta(&b, fee(), eos(), 0), Some(eos_asset(10000)));
    assert_eq!(balance_delta(&b, fee(), eos(), 10), get_balance_delta(&b, fee(), eos()));
}

#[test]
fn the_widest_change_is_exact() {
    let b = block(vec![TransactionTrace {
        action_traces: traces(11),
        db_ops: vec![eos_row(
            "fee.sx",
            "-922337203685477.5808 EOS",
            "922337203685477.5807 EOS",
        )],
    }]);
    assert_eq!(
        get_balance_delta(&b, fee(), eos()),
        Some(eos_asset(i64::MAX as i128 - i64::MIN as i128))
    );
}

#[test]
fn names_are_compared_by_value() {
    let b = block(vec![TransactionTrace {
        action_traces: traces(11),
        db_ops: vec![row(
            "eosio.token.",
            "accounts",
            "fee.sx",
            r#"{"balance":"1.0000 EOS"}"#,
            r#"{"balance":"2.0000 EOS"}"#,
        )],
    }]);
    assert_eq!(get_balance_delta(&b, fee(), eos()), Some(eos_asset(10000)));
}

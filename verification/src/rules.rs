//! The metric operations that each recognised event gives, as functions of
//! the event's decoded parts.

use crate::abi::{Transaction, TransactionView};
use crate::metrics::{all_well_formed, labels_view, ops_view, MetricAction, MetricOp, MetricOpView};
use crate::text::same_text;
use vstd::prelude::*;

verus! {

/// A counter `profit` grows by an amount, for an owner and a symbol.
pub open spec fn profit_metric(owner: Seq<char>, symbol: Seq<char>, amount: int, precision: nat) -> MetricOpView {
    MetricOpView {
        action: MetricAction::CounterAdd,
        name: "profit"@,
        labels: seq![("owner"@, owner), ("symbol"@, symbol)],
        value: amount,
        precision,
    }
}

/// A counter `transfers` grows by the amount of a transfer.
pub open spec fn transfer_metric(
    transfer: TransactionView,
    symbol: Seq<char>,
    amount: int,
    precision: nat,
) -> MetricOpView {
    MetricOpView {
        action: MetricAction::CounterAdd,
        name: "transfers"@,
        labels: seq![
            ("symbol"@, symbol),
            ("from"@, transfer.from),
            ("to"@, transfer.to),
            ("memo"@, transfer.memo),
        ],
        value: amount,
        precision,
    }
}

/// Whether a transfer is an internal routing leg: one end of it is the
/// trader or the curve contract.
pub open spec fn is_routing_leg(transfer: TransactionView) -> bool {
    transfer.to == "trader.sx"@ || transfer.from == "trader.sx"@ || transfer.to == "curve.sx"@
        || transfer.from == "curve.sx"@
}

/// What a transfer gives. From the trader to the fee account it is profit.
/// Apart from that, a transfer that is no routing leg and comes from an
/// account of the family is counted as a transfer.
pub open spec fn transfer_rule(
    transfer: TransactionView,
    symbol: Seq<char>,
    amount: int,
    precision: nat,
    in_family: bool,
) -> Seq<MetricOpView> {
    let profit = if transfer.from == "trader.sx"@ && transfer.to == "fee.sx"@ {
        seq![profit_metric("trader.sx"@, symbol, amount, precision)]
    } else {
        Seq::empty()
    };
    let settled = if !is_routing_leg(transfer) && in_family {
        seq![transfer_metric(transfer, symbol, amount, precision)]
    } else {
        Seq::empty()
    };
    profit + settled
}

/// What a mining submission gives: one more mine, one more for the block's
/// producer, one more for the executor.
pub open spec fn mining_rule(executor: Seq<char>, producer: Seq<char>) -> Seq<MetricOpView> {
    seq![
        MetricOpView {
            action: MetricAction::CounterInc,
            name: "mine"@,
            labels: Seq::empty(),
            value: 1,
            precision: 0,
        },
        MetricOpView {
            action: MetricAction::CounterInc,
            name: "mine_by_producer"@,
            labels: seq![("producer"@, producer)],
            value: 1,
            precision: 0,
        },
        MetricOpView {
            action: MetricAction::CounterInc,
            name: "mine_by_executor"@,
            labels: seq![("executor"@, executor)],
            value: 1,
            precision: 0,
        },
    ]
}

/// What a mining configuration gives: the gauge `fast_max_mine` set to
/// `max_mine`, unless that is zero.
pub open spec fn config_rule(max_mine: u64) -> Seq<MetricOpView> {
    if max_mine == 0 {
        Seq::empty()
    } else {
        seq![
            MetricOpView {
                action: MetricAction::GaugeSet,
                name: "fast_max_mine"@,
                labels: Seq::empty(),
                value: max_mine as int,
                precision: 0,
            },
        ]
    }
}

/// What a net balance change gives: a growth of `balance.increase` by a
/// positive change, of `balance.decrease` by the magnitude of a negative one,
/// and nothing for no change or a change of zero.
pub open spec fn balance_rule(
    account: Seq<char>,
    contract: Seq<char>,
    symbol: Seq<char>,
    precision: nat,
    change: Option<int>,
) -> Seq<MetricOpView> {
    match change {
        Some(amount) => if amount == 0 {
            Seq::empty()
        } else {
            seq![
                MetricOpView {
                    action: MetricAction::CounterAdd,
                    name: if amount > 0 {
                        "balance.increase"@
                    } else {
                        "balance.decrease"@
                    },
                    labels: seq![("account"@, account), ("contract"@, contract), ("symbol"@, symbol)],
                    value: if amount > 0 {
                        amount
                    } else {
                        -amount
                    },
                    precision,
                },
            ]
        },
        None => Seq::empty(),
    }
}

/// The keys of the labels differ from each other.
proof fn lemma_label_keys_differ()
    ensures
        "owner"@ != "symbol"@,
        "symbol"@ != "from"@,
        "symbol"@ != "to"@,
        "symbol"@ != "memo"@,
        "from"@ != "to"@,
        "from"@ != "memo"@,
        "to"@ != "memo"@,
        "account"@ != "contract"@,
        "account"@ != "symbol"@,
        "contract"@ != "symbol"@,
{
    reveal_strlit("owner");
    reveal_strlit("symbol");
    reveal_strlit("from");
    reveal_strlit("to");
    reveal_strlit("memo");
    reveal_strlit("account");
    reveal_strlit("contract");
    assert("owner"@.len() == 5 && "symbol"@.len() == 6 && "from"@.len() == 4);
    assert("account"@.len() == 7 && "contract"@.len() == 8);
    assert("from"@[0] != "memo"@[0]);
}

/// The operation that reports a profit.
pub fn profit_op(owner: &str, symbol: &str, amount: i128, precision: u8) -> (op: MetricOp)
    ensures
        op@ == profit_metric(owner@, symbol@, amount as int, precision as nat),
        op@.well_formed(),
{
    let labels: Vec<(String, String)> = vec![
        ("owner".to_owned(), owner.to_owned()),
        ("symbol".to_owned(), symbol.to_owned()),
    ];
    proof {
        lemma_label_keys_differ();
        assert(labels_view(labels@) =~= seq![("owner"@, owner@), ("symbol"@, symbol@)]);
    }
    MetricOp {
        action: MetricAction::CounterAdd,
        name: "profit".to_owned(),
        labels,
        value: amount,
        precision,
    }
}

/// The operations that a transfer gives. `symbol`, `amount` and `precision`
/// are those of its quantity; `in_family` says whether the sender's name has
/// the family's suffix.
pub fn transfer_ops(
    transfer: &Transaction,
    symbol: &str,
    amount: i128,
    precision: u8,
    in_family: bool,
) -> (ops: Vec<MetricOp>)
    ensures
        ops_view(ops@) == transfer_rule(
            transfer@,
            symbol@,
            amount as int,
            precision as nat,
            in_family,
        ),
        all_well_formed(ops_view(ops@)),
{
    let mut ops: Vec<MetricOp> = Vec::new();
    let from_trader = same_text(transfer.from.as_str(), "trader.sx");
    let to_trader = same_text(transfer.to.as_str(), "trader.sx");
    let from_curve = same_text(transfer.from.as_str(), "curve.sx");
    let to_curve = same_text(transfer.to.as_str(), "curve.sx");
    if from_trader && same_text(transfer.to.as_str(), "fee.sx") {
        let op = profit_op("trader.sx", symbol, amount, precision);
        ops.push(op);
    }
    if !(to_trader || from_trader || to_curve || from_curve) && in_family {
        let labels: Vec<(String, String)> = vec![
            ("symbol".to_owned(), symbol.to_owned()),
            ("from".to_owned(), transfer.from.clone()),
            ("to".to_owned(), transfer.to.clone()),
            ("memo".to_owned(), transfer.memo.clone()),
        ];
        let op = MetricOp {
            action: MetricAction::CounterAdd,
            name: "transfers".to_owned(),
            labels,
            value: amount,
            precision,
        };
        proof {
            lemma_label_keys_differ();
            assert(labels_view(labels@) =~= seq![
                ("symbol"@, symbol@),
                ("from"@, transfer@.from),
                ("to"@, transfer@.to),
                ("memo"@, transfer@.memo),
            ]);
        }
        ops.push(op);
    }
    ops
}

/// The operations that a mining submission gives.
pub fn mining_ops(executor: &str, producer: &str) -> (ops: Vec<MetricOp>)
    ensures
        ops_view(ops@) == mining_rule(executor@, producer@),
        all_well_formed(ops_view(ops@)),
{
    let producer_label: Vec<(String, String)> = vec![("producer".to_owned(), producer.to_owned())];
    let executor_label: Vec<(String, String)> = vec![("executor".to_owned(), executor.to_owned())];
    let ops: Vec<MetricOp> = vec![
        MetricOp {
            action: MetricAction::CounterInc,
            name: "mine".to_owned(),
            labels: Vec::new(),
            value: 1,
            precision: 0,
        },
        MetricOp {
            action: MetricAction::CounterInc,
            name: "mine_by_producer".to_owned(),
            labels: producer_label,
            value: 1,
            precision: 0,
        },
        MetricOp {
            action: MetricAction::CounterInc,
            name: "mine_by_executor".to_owned(),
            labels: executor_label,
            value: 1,
            precision: 0,
        },
    ];
    proof {
        assert(ops@[0]@.labels =~= Seq::empty());
        assert(ops@[1]@.labels =~= seq![("producer"@, producer@)]);
        assert(ops@[2]@.labels =~= seq![("executor"@, executor@)]);
    }
    ops
}

/// The operations that a mining configuration with this `max_mine` gives.
pub fn config_ops(max_mine: u64) -> (ops: Vec<MetricOp>)
    ensures
        ops_view(ops@) == config_rule(max_mine),
        all_well_formed(ops_view(ops@)),
        max_mine == 0 ==> ops@.len() == 0,
{
    if max_mine == 0 {
        let ops: Vec<MetricOp> = Vec::new();
        return ops;
    }
    let ops: Vec<MetricOp> = vec![
        MetricOp {
            action: MetricAction::GaugeSet,
            name: "fast_max_mine".to_owned(),
            labels: Vec::new(),
            value: max_mine as i128,
            precision: 0,
        },
    ];
    proof {
        assert(ops@[0]@.labels =~= Seq::empty());
    }
    ops
}

/// The operations that a net balance change gives.
pub fn balance_ops(
    account: &str,
    contract: &str,
    symbol: &str,
    precision: u8,
    change: Option<i128>,
) -> (ops: Vec<MetricOp>)
    requires
        change matches Some(amount) ==> amount > i128::MIN,
    ensures
        ops_view(ops@) == balance_rule(
            account@,
            contract@,
            symbol@,
            precision as nat,
            match change {
                Some(amount) => Some(amount as int),
                None => None,
            },
        ),
        all_well_formed(ops_view(ops@)),
{
    let mut ops: Vec<MetricOp> = Vec::new();
    match change {
        Some(amount) => {
            if amount != 0 {
                let labels: Vec<(String, String)> = vec![
                    ("account".to_owned(), account.to_owned()),
                    ("contract".to_owned(), contract.to_owned()),
                    ("symbol".to_owned(), symbol.to_owned()),
                ];
                proof {
                    lemma_label_keys_differ();
                    assert(labels_view(labels@) =~= seq![
                        ("account"@, account@),
                        ("contract"@, contract@),
                        ("symbol"@, symbol@),
                    ]);
                }
                let op = if amount > 0 {
                    MetricOp {
                        action: MetricAction::CounterAdd,
                        name: "balance.increase".to_owned(),
                        labels,
                        value: amount,
                        precision,
                    }
                } else {
                    MetricOp {
                        action: MetricAction::CounterAdd,
                        name: "balance.decrease".to_owned(),
                        labels,
                        value: -amount,
                        precision,
                    }
                };
                ops.push(op);
            }
        },
        None => {},
    }
    ops
}

/// A transfer sent by the curve contract is never counted as a transfer,
/// whoever receives it: it gives no operation at all.
pub proof fn lemma_curve_transfers_are_not_counted(
    transfer: TransactionView,
    symbol: Seq<char>,
    amount: int,
    precision: nat,
    in_family: bool,
)
    requires
        transfer.from == "curve.sx"@,
    ensures
        transfer_rule(transfer, symbol, amount, precision, in_family).len() == 0,
        forall|i: int|
            0 <= i < transfer_rule(transfer, symbol, amount, precision, in_family).len()
                ==> (#[trigger] transfer_rule(transfer, symbol, amount, precision, in_family)[i]).name
                != "transfers"@,
{
    reveal_strlit("curve.sx");
    reveal_strlit("trader.sx");
    assert("curve.sx"@.len() == 8 && "trader.sx"@.len() == 9);
}

/// A transfer of which one end is the trader or the curve contract is never
/// counted as a transfer.
pub proof fn lemma_routing_legs_are_not_counted(
    transfer: TransactionView,
    symbol: Seq<char>,
    amount: int,
    precision: nat,
    in_family: bool,
)
    requires
        is_routing_leg(transfer),
    ensures
        forall|i: int|
            0 <= i < transfer_rule(transfer, symbol, amount, precision, in_family).len()
                ==> (#[trigger] transfer_rule(transfer, symbol, amount, precision, in_family)[i]).name
                != "transfers"@,
{
    reveal_strlit("profit");
    reveal_strlit("transfers");
    assert("profit"@.len() == 6 && "transfers"@.len() == 9);
}

} // verus!

//! The net change of one account's balance of one asset over a block, and
//! the reading of filter parameters.

use crate::abi::{balance_of, parse_balance};
use crate::block::{Block, BlockView, DbOp, DbOpView, TransactionTraceView};
use crate::chain::{asset_of, name_of, Asset, ExtendedSymbol, Name, Symbol};
use crate::text::{same_text, split, split_seq, texts};
use vstd::hash_set::StringHashSet;
use vstd::prelude::*;

verus! {

/// A transaction with at most this many action traces is taken for an
/// incidental transfer, not a trade, and its balance change is dropped.
pub const NOISE_TRACES: usize = 10;

/// Whether a table mutation is of the balance row of `account` in the
/// `accounts` table of `contract`.
pub open spec fn is_balance_row(op: DbOpView, account: Name, contract: Name) -> bool {
    &&& op.table_name == "accounts"@
    &&& name_of(op.code) == Some(contract)
    &&& name_of(op.scope) == Some(account)
}

/// The amount that a payload records, where it decodes as a balance of
/// exactly the symbol `sym`.
pub open spec fn payload_amount(raw: Seq<char>, sym: Symbol) -> Option<i128> {
    match balance_of(raw) {
        Some(record) => match asset_of(record.balance) {
            Some(asset) => if asset.symbol == sym {
                Some(asset.amount)
            } else {
                None
            },
            None => None,
        },
        None => None,
    }
}

/// An optional amount as a sequence of none or one.
pub open spec fn amount_seq(amount: Option<i128>) -> Seq<i128> {
    match amount {
        Some(a) => seq![a],
        None => Seq::empty(),
    }
}

/// The amounts that one mutation contributes: the old one, then the new one.
pub open spec fn op_amounts(op: DbOpView, account: Name, ext_sym: ExtendedSymbol) -> Seq<i128> {
    if is_balance_row(op, account, ext_sym.contract) {
        amount_seq(payload_amount(op.old_data_json, ext_sym.sym)) + amount_seq(
            payload_amount(op.new_data_json, ext_sym.sym),
        )
    } else {
        Seq::empty()
    }
}

/// The amounts that a list of mutations contributes, in order.
pub open spec fn ops_amounts(ops: Seq<DbOpView>, account: Name, ext_sym: ExtendedSymbol) -> Seq<
    i128,
>
    decreases ops.len(),
{
    if ops.len() == 0 {
        Seq::empty()
    } else {
        ops_amounts(ops.drop_last(), account, ext_sym) + op_amounts(ops.last(), account, ext_sym)
    }
}

/// The amounts observed over a list of transactions, in order.
pub open spec fn observed_amounts(
    trxs: Seq<TransactionTraceView>,
    account: Name,
    ext_sym: ExtendedSymbol,
) -> Seq<i128>
    decreases trxs.len(),
{
    if trxs.len() == 0 {
        Seq::empty()
    } else {
        observed_amounts(trxs.drop_last(), account, ext_sym) + ops_amounts(
            trxs.last().db_ops,
            account,
            ext_sym,
        )
    }
}

/// Whether one of the mutations is of the balance row.
pub open spec fn touches(ops: Seq<DbOpView>, account: Name, contract: Name) -> bool {
    exists|i: int| 0 <= i < ops.len() && is_balance_row(#[trigger] ops[i], account, contract)
}

/// The number of action traces of the last transaction that has a mutation
/// of the balance row; zero where there is no such transaction.
pub open spec fn contributing_traces(
    trxs: Seq<TransactionTraceView>,
    account: Name,
    contract: Name,
) -> nat
    decreases trxs.len(),
{
    if trxs.len() == 0 {
        0
    } else if touches(trxs.last().db_ops, account, contract) {
        trxs.last().action_traces.len()
    } else {
        contributing_traces(trxs.drop_last(), account, contract)
    }
}

/// The net change of the balance over the block: the last observed amount
/// minus the first, unless nothing was observed or the last contributing
/// transaction has at most `min_traces` action traces.
pub open spec fn net_change(
    block: BlockView,
    account: Name,
    ext_sym: ExtendedSymbol,
    min_traces: nat,
) -> Option<Asset> {
    let amounts = observed_amounts(block.transaction_traces, account, ext_sym);
    if amounts.len() == 0 {
        None
    } else if contributing_traces(block.transaction_traces, account, ext_sym.contract)
        <= min_traces {
        None
    } else {
        Some(Asset { amount: (amounts.last() - amounts.first()) as i128, symbol: ext_sym.sym })
    }
}

/// Whether every amount is one that fits in 64 bits.
pub open spec fn all_small(amounts: Seq<i128>) -> bool {
    forall|i: int| 0 <= i < amounts.len() ==> i64::MIN <= #[trigger] amounts[i] <= i64::MAX
}

/// Whether a text is the name `name`.
fn names(text: &str, name: Name) -> (same: bool)
    ensures
        same == (name_of(text@) == Some(name)),
{
    match Name::from_text(text) {
        Some(found) => found.value == name.value,
        None => false,
    }
}

/// Whether a mutation is of the balance row.
fn balance_row(op: &DbOp, account: Name, contract: Name) -> (is_row: bool)
    ensures
        is_row == is_balance_row(op@, account, contract),
{
    same_text(op.table_name.as_str(), "accounts") && names(op.code.as_str(), contract) && names(
        op.scope.as_str(),
        account,
    )
}

/// The amount that a payload records, where it decodes as a balance of
/// exactly the symbol `sym`.
fn amount_of_payload(raw: &str, sym: Symbol) -> (amount: Option<i128>)
    ensures
        amount == payload_amount(raw@, sym),
        amount matches Some(a) ==> i64::MIN <= a <= i64::MAX,
{
    match parse_balance(raw) {
        Some(record) => match Asset::from_text(record.balance.as_str()) {
            Some(asset) => if asset.symbol.value == sym.value {
                Some(asset.amount)
            } else {
                None
            },
            None => None,
        },
        None => None,
    }
}

/// The net change of the balance of `account` in the asset `ext_sym` over
/// the block, with the noise threshold given.
///
/// Every mutation of the account's row in the `accounts` table of the asset's
/// contract contributes its old and its new amount, each where it decodes as
/// a balance of the asset's symbol. The result is the last amount minus the
/// first. There is none where no amount was observed, or where the last
/// transaction with such a mutation has at most `min_traces` action traces.
pub fn balance_delta(
    block: &Block,
    account: Name,
    ext_sym: ExtendedSymbol,
    min_traces: usize,
) -> (delta: Option<Asset>)
    ensures
        delta == net_change(block@, account, ext_sym, min_traces as nat),
        delta is Some <==> observed_amounts(block@.transaction_traces, account, ext_sym).len() > 0
            && contributing_traces(block@.transaction_traces, account, ext_sym.contract)
            > min_traces,
        delta matches Some(change) ==> change.symbol == ext_sym.sym && change.amount
            == observed_amounts(block@.transaction_traces, account, ext_sym).last()
            - observed_amounts(block@.transaction_traces, account, ext_sym).first(),
        delta matches Some(change) ==> -0x1_0000_0000_0000_0000 < change.amount
            < 0x1_0000_0000_0000_0000,
{
    let mut balance_changes: Vec<i128> = Vec::new();
    let mut trx_traces: usize = 0;
    let ghost trxs = block@.transaction_traces;
    let mut t: usize = 0;
    while t < block.transaction_traces.len()
        invariant
            t <= block.transaction_traces.len(),
            trxs == block@.transaction_traces,
            balance_changes@ == observed_amounts(trxs.take(t as int), account, ext_sym),
            trx_traces == contributing_traces(trxs.take(t as int), account, ext_sym.contract),
            all_small(balance_changes@),
        decreases block.transaction_traces.len() - t,
    {
        let trx = &block.transaction_traces[t];
        let ghost before = balance_changes@;
        let ghost ops = trx@.db_ops;
        let ghost traces_before = trx_traces;
        let mut touched = false;
        let mut k: usize = 0;
        while k < trx.db_ops.len()
            invariant
                k <= trx.db_ops.len(),
                ops == trx@.db_ops,
                balance_changes@ == before + ops_amounts(ops.take(k as int), account, ext_sym),
                touched == touches(ops.take(k as int), account, ext_sym.contract),
                trx_traces == if touched {
                    trx.action_traces.len()
                } else {
                    traces_before
                },
                all_small(balance_changes@),
            decreases trx.db_ops.len() - k,
        {
            let db_op = &trx.db_ops[k];
            let ghost seen = ops.take(k as int);
            let ghost next = ops.take(k + 1);
            proof {
                assert(next.drop_last() =~= seen);
            }
            if balance_row(db_op, account, ext_sym.contract) {
                trx_traces = trx.action_traces.len();
                touched = true;
                match amount_of_payload(db_op.old_data_json.as_str(), ext_sym.sym) {
                    Some(amount) => {
                        balance_changes.push(amount);
                    },
                    None => {},
                }
                match amount_of_payload(db_op.new_data_json.as_str(), ext_sym.sym) {
                    Some(amount) => {
                        balance_changes.push(amount);
                    },
                    None => {},
                }
            }
            k = k + 1;
        }
        proof {
            assert(ops.take(k as int) =~= ops);
            assert(trxs.take(t + 1).drop_last() =~= trxs.take(t as int));
        }
        t = t + 1;
    }
    proof {
        assert(trxs.take(t as int) =~= trxs);
    }
    if balance_changes.len() == 0 {
        return None;
    }
    if trx_traces <= min_traces {
        return None;
    }
    let first: i128 = balance_changes[0];
    let last: i128 = balance_changes[balance_changes.len() - 1];
    Some(Asset::from_amount(last - first, ext_sym.sym))
}

/// The net change of the balance of `account` in the asset `ext_sym` over
/// the block, with the noise threshold `NOISE_TRACES`.
pub fn get_balance_delta(block: &Block, account: Name, ext_sym: ExtendedSymbol) -> (delta: Option<
    Asset,
>)
    ensures
        delta == net_change(block@, account, ext_sym, NOISE_TRACES as nat),
{
    balance_delta(block, account, ext_sym, NOISE_TRACES)
}

/// Mutations none of which is of the balance row contribute no amount.
proof fn lemma_other_rows_contribute_nothing(
    ops: Seq<DbOpView>,
    account: Name,
    ext_sym: ExtendedSymbol,
)
    requires
        !touches(ops, account, ext_sym.contract),
    ensures
        ops_amounts(ops, account, ext_sym).len() == 0,
    decreases ops.len(),
{
    if ops.len() > 0 {
        lemma_other_rows_contribute_nothing(ops.drop_last(), account, ext_sym);
    }
}

/// The trace count of the last contributing transaction is that of one of
/// the transactions with a mutation of the balance row, or zero.
proof fn lemma_contributing_traces_bound(
    trxs: Seq<TransactionTraceView>,
    account: Name,
    contract: Name,
    bound: nat,
)
    requires
        forall|t: int|
            0 <= t < trxs.len() && touches((#[trigger] trxs[t]).db_ops, account, contract)
                ==> trxs[t].action_traces.len() <= bound,
    ensures
        contributing_traces(trxs, account, contract) <= bound,
    decreases trxs.len(),
{
    if trxs.len() > 0 {
        if !touches(trxs.last().db_ops, account, contract) {
            lemma_contributing_traces_bound(trxs.drop_last(), account, contract, bound);
        }
    }
}

/// Transactions without a mutation of the balance row contribute no amount.
proof fn lemma_untouched_observes_nothing(
    trxs: Seq<TransactionTraceView>,
    account: Name,
    ext_sym: ExtendedSymbol,
)
    requires
        forall|t: int|
            0 <= t < trxs.len() ==> !touches((#[trigger] trxs[t]).db_ops, account, ext_sym.contract),
    ensures
        observed_amounts(trxs, account, ext_sym).len() == 0,
    decreases trxs.len(),
{
    if trxs.len() > 0 {
        let rest = trxs.drop_last();
        lemma_untouched_observes_nothing(rest, account, ext_sym);
        lemma_other_rows_contribute_nothing(trxs.last().db_ops, account, ext_sym);
    }
}

/// A block in which no transaction has a mutation of the account's balance
/// row has no net change for that account and asset.
pub proof fn lemma_no_matching_mutation_no_change(
    block: BlockView,
    account: Name,
    ext_sym: ExtendedSymbol,
    min_traces: nat,
)
    requires
        forall|t: int|
            0 <= t < block.transaction_traces.len() ==> !touches(
                (#[trigger] block.transaction_traces[t]).db_ops,
                account,
                ext_sym.contract,
            ),
    ensures
        net_change(block, account, ext_sym, min_traces) is None,
{
    lemma_untouched_observes_nothing(block.transaction_traces, account, ext_sym);
}

/// Where every transaction with a mutation of the account's balance row has
/// at most `min_traces` action traces, there is no net change, whatever the
/// amounts are. In particular this holds where one transaction alone
/// contributes and it has at most `min_traces` action traces.
pub proof fn lemma_simple_transactions_are_noise(
    block: BlockView,
    account: Name,
    ext_sym: ExtendedSymbol,
    min_traces: nat,
)
    requires
        forall|t: int|
            0 <= t < block.transaction_traces.len() && touches(
                (#[trigger] block.transaction_traces[t]).db_ops,
                account,
                ext_sym.contract,
            ) ==> block.transaction_traces[t].action_traces.len() <= min_traces,
    ensures
        net_change(block, account, ext_sym, min_traces) is None,
{
    lemma_contributing_traces_bound(
        block.transaction_traces,
        account,
        ext_sym.contract,
        min_traces,
    );
}

/// Whether `item` is listed under `key` in one part of the parameters: the
/// part is `key`, an equals sign and a list separated by commas that holds
/// `item`.
pub open spec fn part_lists(part: Seq<char>, key: Seq<char>, item: Seq<char>) -> bool {
    let kv = split_seq(part, '=');
    kv.len() == 2 && kv[0] == key && split_seq(kv[1], ',').contains(item)
}

/// The items listed under `key` in parameters of the form
/// `key=item,item&key=item`.
pub open spec fn filter_items(params: Seq<char>, key: Seq<char>) -> Set<Seq<char>> {
    Set::new(
        |item: Seq<char>|
            exists|p: int|
                0 <= p < split_seq(params, '&').len() && part_lists(
                    #[trigger] split_seq(params, '&')[p],
                    key,
                    item,
                ),
    )
}

/// The items listed under `key` in the first `n` parts.
pub open spec fn listed_before(parts: Seq<Seq<char>>, n: int, key: Seq<char>) -> Set<Seq<char>> {
    Set::new(
        |item: Seq<char>| exists|p: int| 0 <= p < n && part_lists(#[trigger] parts[p], key, item),
    )
}

/// The set of items that `params` lists under `key`. Parts are separated by
/// `&`; a part counts where it is `key`, one equals sign and a list of items
/// separated by commas.
pub fn create_filters(params: &str, key: &str) -> (filter: StringHashSet)
    ensures
        filter@ == filter_items(params@, key@),
{
    let mut filter = StringHashSet::new();
    let parts = split(params, '&');
    let ghost all = split_seq(params@, '&');
    let mut p: usize = 0;
    while p < parts.len()
        invariant
            p <= parts.len(),
            texts(parts@) == all,
            filter@ == listed_before(all, p as int, key@),
        decreases parts.len() - p,
    {
        let ghost before = filter@;
        let kv = split(parts[p], '=');
        proof {
            assert(all[p as int] == parts[p as int]@);
        }
        if kv.len() == 2 && same_text(kv[0], key) {
            let items = split(kv[1], ',');
            let ghost listed = split_seq(kv[1]@, ',');
            let mut j: usize = 0;
            while j < items.len()
                invariant
                    j <= items.len(),
                    texts(items@) == listed,
                    filter@ == before.union(
                        Set::new(|item: Seq<char>| exists|i: int| 0 <= i < j && listed[i] == item),
                    ),
                decreases items.len() - j,
            {
                let item = items[j].to_owned();
                proof {
                    assert(listed[j as int] == items[j as int]@);
                }
                filter.insert(item);
                j = j + 1;
            }
        }
        p = p + 1;
    }
    filter
}

} // verus!

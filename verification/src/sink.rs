//! The transform: from one block to the list of metric operations that
//! describe it.

use crate::abi::{
    fast_config_of, fundfordream_of, mine_of, parse_fast_config, parse_fundfordream, parse_mine,
    parse_transfer, transfer_of,
};
use crate::block::{
    Action, ActionTrace, ActionTraceView, ActionView, Block, BlockView, DbOp, DbOpView,
    TransactionTrace, TransactionTraceView,
};
use crate::chain::{
    asset_of, name_of, name_text, symbol_code_text, symbol_of, Asset, ExtendedSymbol, Name, Symbol,
};
use crate::metrics::{all_well_formed, append_ops, ops_view, MetricOp, MetricOpView};
use crate::rules::{
    balance_ops, balance_rule, config_ops, config_rule, lemma_curve_transfers_are_not_counted,
    mining_ops, mining_rule, profit_metric, profit_op, transfer_ops, transfer_rule,
};
use crate::settings::{standard_settings, Settings, SettingsView, WatchedAsset, WatchedAssetView};
use crate::text::{lemma_split_nonempty, same_text, split, split_seq};
use crate::utils::{balance_delta, net_change};
use vstd::prelude::*;

verus! {

/// Whether the name of a sender has the family's suffix. A text that is no
/// name is in no family.
pub open spec fn in_family(from: Seq<char>, family: Seq<char>) -> bool {
    match (name_of(from), name_of(family)) {
        (Some(sender), Some(suffix)) => sender.spec_suffix() == suffix,
        _ => false,
    }
}

/// What an action gives as a transfer: nothing unless its payload decodes as
/// a transfer whose quantity is an asset.
pub open spec fn transfer_part(action: ActionView, family: Seq<char>) -> Seq<MetricOpView> {
    match transfer_of(action.json_data) {
        Some(transfer) => match asset_of(transfer.quantity) {
            Some(quantity) => transfer_rule(
                transfer,
                symbol_code_text(quantity.symbol.value),
                quantity.amount as int,
                quantity.symbol.spec_precision() as nat,
                in_family(transfer.from, family),
            ),
            None => Seq::empty(),
        },
        None => Seq::empty(),
    }
}

/// What an action gives as a mining submission: nothing unless it is `mine`
/// on `push.sx` and its payload decodes as a submission.
pub open spec fn mining_part(action: ActionView, producer: Seq<char>) -> Seq<MetricOpView> {
    if action.name == "mine"@ && action.account == "push.sx"@ {
        match mine_of(action.json_data) {
            Some(mine) => mining_rule(mine.executor, producer),
            None => Seq::empty(),
        }
    } else {
        Seq::empty()
    }
}

/// What a log line of the partner gives: the profit that its first segment
/// names, unless the line has more than two segments or the first is no
/// asset.
pub open spec fn partner_profit(line: Seq<char>, partner: Seq<char>) -> Seq<MetricOpView> {
    let segments = split_seq(line, '|');
    if segments.len() > 2 {
        Seq::empty()
    } else {
        match asset_of(segments[0]) {
            Some(profit) => seq![
                profit_metric(
                    partner,
                    symbol_code_text(profit.symbol.value),
                    profit.amount as int,
                    profit.symbol.spec_precision() as nat,
                ),
            ],
            None => Seq::empty(),
        }
    }
}

/// What an action gives as a profit log of the partner: nothing unless it is
/// `logs` on the partner's account and its payload decodes as a log line.
pub open spec fn partner_part(action: ActionView, partner: Seq<char>) -> Seq<MetricOpView> {
    if action.name == "logs"@ && action.account == partner {
        match fundfordream_of(action.json_data) {
            Some(log) => partner_profit(log.m, partner),
            None => Seq::empty(),
        }
    } else {
        Seq::empty()
    }
}

/// What one action trace gives: every rule that applies to it contributes,
/// in the order transfer, mining, partner log. A trace without an action, or
/// one recorded by another account than the action's contract, gives nothing.
pub open spec fn trace_metrics(
    trace: ActionTraceView,
    producer: Seq<char>,
    settings: SettingsView,
) -> Seq<MetricOpView> {
    match trace.authoritative() {
        Some(action) => transfer_part(action, settings.family) + mining_part(action, producer)
            + partner_part(action, settings.partner),
        None => Seq::empty(),
    }
}

/// What one table mutation gives: the mining configuration's gauge, where
/// the mutation is of the `config` table of `fast.sx` and its new payload
/// decodes as a configuration.
pub open spec fn mutation_metrics(op: DbOpView) -> Seq<MetricOpView> {
    if op.code == "fast.sx"@ && op.table_name == "config"@ {
        match fast_config_of(op.new_data_json) {
            Some(config) => config_rule(config.max_mine),
            None => Seq::empty(),
        }
    } else {
        Seq::empty()
    }
}

/// An action whose payload is a transfer sent by the curve contract gives
/// nothing as a transfer, whoever receives it and whatever the quantity is.
pub proof fn lemma_curve_sender_gives_no_transfer(action: ActionView, family: Seq<char>)
    requires
        transfer_of(action.json_data) matches Some(transfer) && transfer.from == "curve.sx"@,
    ensures
        transfer_part(action, family).len() == 0,
{
    let transfer = transfer_of(action.json_data)->0;
    match asset_of(transfer.quantity) {
        Some(quantity) => {
            lemma_curve_transfers_are_not_counted(
                transfer,
                symbol_code_text(quantity.symbol.value),
                quantity.amount as int,
                quantity.symbol.spec_precision() as nat,
                in_family(transfer.from, family),
            );
        },
        None => {},
    }
}

/// Two well-formed lists, one after the other, are a well-formed list.
pub proof fn lemma_well_formed_concat(a: Seq<MetricOpView>, b: Seq<MetricOpView>)
    requires
        all_well_formed(a),
        all_well_formed(b),
    ensures
        all_well_formed(a + b),
{
    assert forall|i: int| 0 <= i < (a + b).len() implies (#[trigger] (a + b)[i]).well_formed() by {
        if i < a.len() {
        }
    }
}

fn sender_in_family(from: &str, family: &str) -> (within: bool)
    ensures
        within == in_family(from@, family@),
{
    match Name::from_text(from) {
        Some(sender) => match Name::from_text(family) {
            Some(suffix) => sender.suffix().value == suffix.value,
            None => false,
        },
        None => false,
    }
}

fn no_ops() -> (ops: Vec<MetricOp>)
    ensures
        ops_view(ops@) == Seq::<MetricOpView>::empty(),
        all_well_formed(ops_view(ops@)),
{
    let ops: Vec<MetricOp> = Vec::new();
    ops
}

/// The operations that an action gives as a transfer.
pub fn classify_transfer(action: &Action, family: &str) -> (ops: Vec<MetricOp>)
    ensures
        ops_view(ops@) == transfer_part(action@, family@),
        all_well_formed(ops_view(ops@)),
{
    match parse_transfer(action.json_data.as_str()) {
        Some(transfer) => match Asset::from_text(transfer.quantity.as_str()) {
            Some(quantity) => {
                let symbol = quantity.symbol.code_text();
                let within = sender_in_family(transfer.from.as_str(), family);
                transfer_ops(
                    &transfer,
                    symbol.as_str(),
                    quantity.amount,
                    quantity.symbol.precision(),
                    within,
                )
            },
            None => no_ops(),
        },
        None => no_ops(),
    }
}

/// The operations that an action gives as a mining submission.
pub fn classify_mining(action: &Action, producer: &str) -> (ops: Vec<MetricOp>)
    ensures
        ops_view(ops@) == mining_part(action@, producer@),
        all_well_formed(ops_view(ops@)),
{
    if same_text(action.name.as_str(), "mine") && same_text(action.account.as_str(), "push.sx") {
        match parse_mine(action.json_data.as_str()) {
            Some(mine) => mining_ops(mine.executor.as_str(), producer),
            None => no_ops(),
        }
    } else {
        no_ops()
    }
}

/// The operations that a log line of the partner gives.
pub fn classify_partner_line(line: &str, partner: &str) -> (ops: Vec<MetricOp>)
    ensures
        ops_view(ops@) == partner_profit(line@, partner@),
        all_well_formed(ops_view(ops@)),
{
    let segments = split(line, '|');
    proof {
        lemma_split_nonempty(line@, '|');
    }
    if segments.len() > 2 {
        return no_ops();
    }
    match Asset::from_text(segments[0]) {
        Some(profit) => {
            let symbol = profit.symbol.code_text();
            let op = profit_op(partner, symbol.as_str(), profit.amount, profit.symbol.precision());
            let ops: Vec<MetricOp> = vec![op];
            ops
        },
        None => no_ops(),
    }
}

/// The operations that an action gives as a profit log of the partner.
pub fn classify_partner_log(action: &Action, partner: &str) -> (ops: Vec<MetricOp>)
    ensures
        ops_view(ops@) == partner_part(action@, partner@),
        all_well_formed(ops_view(ops@)),
{
    if same_text(action.name.as_str(), "logs") && same_text(action.account.as_str(), partner) {
        match parse_fundfordream(action.json_data.as_str()) {
            Some(log) => classify_partner_line(log.m.as_str(), partner),
            None => no_ops(),
        }
    } else {
        no_ops()
    }
}

/// The operations that one action trace gives.
pub fn classify_trace(trace: &ActionTrace, producer: &str, settings: &Settings) -> (ops: Vec<
    MetricOp,
>)
    ensures
        ops_view(ops@) == trace_metrics(trace@, producer@, settings@),
        all_well_formed(ops_view(ops@)),
{
    match &trace.action {
        Some(action) => {
            if !same_text(trace.receiver.as_str(), action.account.as_str()) {
                return no_ops();
            }
            let mut ops = classify_transfer(action, settings.family.as_str());
            let mining = classify_mining(action, producer);
            let partner = classify_partner_log(action, settings.partner.as_str());
            proof {
                lemma_well_formed_concat(ops_view(ops@), ops_view(mining@));
                lemma_well_formed_concat(
                    ops_view(ops@) + ops_view(mining@),
                    ops_view(partner@),
                );
            }
            append_ops(&mut ops, mining);
            append_ops(&mut ops, partner);
            ops
        },
        None => no_ops(),
    }
}

/// The operations that one table mutation gives.
pub fn classify_mutation(db_op: &DbOp) -> (ops: Vec<MetricOp>)
    ensures
        ops_view(ops@) == mutation_metrics(db_op@),
        all_well_formed(ops_view(ops@)),
{
    if same_text(db_op.code.as_str(), "fast.sx") && same_text(db_op.table_name.as_str(), "config") {
        match parse_fast_config(db_op.new_data_json.as_str()) {
            Some(config) => config_ops(config.max_mine),
            None => no_ops(),
        }
    } else {
        no_ops()
    }
}

/// What a list of action traces gives, in order.
pub open spec fn traces_metrics(
    traces: Seq<ActionTraceView>,
    producer: Seq<char>,
    settings: SettingsView,
) -> Seq<MetricOpView>
    decreases traces.len(),
{
    if traces.len() == 0 {
        Seq::empty()
    } else {
        traces_metrics(traces.drop_last(), producer, settings) + trace_metrics(
            traces.last(),
            producer,
            settings,
        )
    }
}

/// What a list of table mutations gives, in order.
pub open spec fn mutations_metrics(ops: Seq<DbOpView>) -> Seq<MetricOpView>
    decreases ops.len(),
{
    if ops.len() == 0 {
        Seq::empty()
    } else {
        mutations_metrics(ops.drop_last()) + mutation_metrics(ops.last())
    }
}

/// What one transaction gives: its action traces first, then its table
/// mutations.
pub open spec fn transaction_metrics(
    trx: TransactionTraceView,
    producer: Seq<char>,
    settings: SettingsView,
) -> Seq<MetricOpView> {
    traces_metrics(trx.action_traces, producer, settings) + mutations_metrics(trx.db_ops)
}

/// What a list of transactions gives, in order.
pub open spec fn transactions_metrics(
    trxs: Seq<TransactionTraceView>,
    producer: Seq<char>,
    settings: SettingsView,
) -> Seq<MetricOpView>
    decreases trxs.len(),
{
    if trxs.len() == 0 {
        Seq::empty()
    } else {
        transactions_metrics(trxs.drop_last(), producer, settings) + transaction_metrics(
            trxs.last(),
            producer,
            settings,
        )
    }
}

/// The amount of a change.
pub open spec fn change_amount(change: Option<Asset>) -> Option<int> {
    match change {
        Some(asset) => Some(asset.amount as int),
        None => None,
    }
}

/// What the block gives for one watched account and one watched asset: the
/// net change of the balance, labelled with the account, the contract and the
/// symbol's code. Nothing where the account, the symbol or the contract is
/// not well written.
pub open spec fn watch_metrics(
    block: BlockView,
    account: Seq<char>,
    asset: WatchedAssetView,
    min_traces: nat,
) -> Seq<MetricOpView> {
    match (name_of(account), symbol_of(asset.symbol), name_of(asset.contract)) {
        (Some(owner), Some(sym), Some(contract)) => balance_rule(
            name_text(owner.value),
            name_text(contract.value),
            symbol_code_text(sym.value),
            sym.spec_precision() as nat,
            change_amount(net_change(block, owner, ExtendedSymbol { contract, sym }, min_traces)),
        ),
        _ => Seq::empty(),
    }
}

/// What the block gives for one watched account, asset by asset.
pub open spec fn account_metrics(
    block: BlockView,
    account: Seq<char>,
    assets: Seq<WatchedAssetView>,
    min_traces: nat,
) -> Seq<MetricOpView>
    decreases assets.len(),
{
    if assets.len() == 0 {
        Seq::empty()
    } else {
        account_metrics(block, account, assets.drop_last(), min_traces) + watch_metrics(
            block,
            account,
            assets.last(),
            min_traces,
        )
    }
}

/// What the block gives for the watch-list, account by account.
pub open spec fn balance_metrics(
    block: BlockView,
    accounts: Seq<Seq<char>>,
    assets: Seq<WatchedAssetView>,
    min_traces: nat,
) -> Seq<MetricOpView>
    decreases accounts.len(),
{
    if accounts.len() == 0 {
        Seq::empty()
    } else {
        balance_metrics(block, accounts.drop_last(), assets, min_traces) + account_metrics(
            block,
            accounts.last(),
            assets,
            min_traces,
        )
    }
}

/// The metric operations of a block: what its transactions give, in order,
/// then the balance changes of the watch-list.
pub open spec fn block_metrics(block: BlockView, settings: SettingsView) -> Seq<MetricOpView> {
    transactions_metrics(block.transaction_traces, block.producer, settings) + balance_metrics(
        block,
        settings.accounts,
        settings.assets,
        settings.min_traces,
    )
}

/// The operations that one transaction gives.
pub fn classify_transaction(trx: &TransactionTrace, producer: &str, settings: &Settings) -> (ops:
    Vec<MetricOp>)
    ensures
        ops_view(ops@) == transaction_metrics(trx@, producer@, settings@),
        all_well_formed(ops_view(ops@)),
{
    let mut ops = no_ops();
    let ghost traces = trx@.action_traces;
    let mut i: usize = 0;
    while i < trx.action_traces.len()
        invariant
            i <= trx.action_traces.len(),
            traces == trx@.action_traces,
            ops_view(ops@) == traces_metrics(traces.take(i as int), producer@, settings@),
            all_well_formed(ops_view(ops@)),
        decreases trx.action_traces.len() - i,
    {
        let more = classify_trace(&trx.action_traces[i], producer, settings);
        proof {
            assert(traces.take(i + 1).drop_last() =~= traces.take(i as int));
            lemma_well_formed_concat(ops_view(ops@), ops_view(more@));
        }
        append_ops(&mut ops, more);
        i = i + 1;
    }
    let ghost traced = ops_view(ops@);
    let ghost mutations = trx@.db_ops;
    let mut k: usize = 0;
    proof {
        assert(traces.take(i as int) =~= traces);
    }
    while k < trx.db_ops.len()
        invariant
            k <= trx.db_ops.len(),
            mutations == trx@.db_ops,
            ops_view(ops@) == traced + mutations_metrics(mutations.take(k as int)),
            all_well_formed(ops_view(ops@)),
        decreases trx.db_ops.len() - k,
    {
        let more = classify_mutation(&trx.db_ops[k]);
        proof {
            assert(mutations.take(k + 1).drop_last() =~= mutations.take(k as int));
            lemma_well_formed_concat(ops_view(ops@), ops_view(more@));
        }
        append_ops(&mut ops, more);
        k = k + 1;
    }
    proof {
        assert(mutations.take(k as int) =~= mutations);
    }
    ops
}

/// The operations that the block gives for one watched account and asset.
pub fn classify_watch(block: &Block, account: &str, asset: &WatchedAsset, min_traces: usize) -> (ops:
    Vec<MetricOp>)
    ensures
        ops_view(ops@) == watch_metrics(block@, account@, asset@, min_traces as nat),
        all_well_formed(ops_view(ops@)),
{
    let owner = Name::from_text(account);
    let sym = Symbol::from_text(asset.symbol.as_str());
    let contract = Name::from_text(asset.contract.as_str());
    match (owner, sym, contract) {
        (Some(owner), Some(sym), Some(contract)) => {
            let change = balance_delta(
                block,
                owner,
                ExtendedSymbol::from_extended(sym, contract),
                min_traces,
            );
            let amount = match change {
                Some(asset) => Some(asset.amount),
                None => None,
            };
            let owner_text = owner.to_text();
            let contract_text = contract.to_text();
            let code = sym.code_text();
            balance_ops(
                owner_text.as_str(),
                contract_text.as_str(),
                code.as_str(),
                sym.precision(),
                amount,
            )
        },
        _ => no_ops(),
    }
}

/// The metric operations of a block under the given settings.
///
/// Every action trace and every table mutation is classified, transaction by
/// transaction; then the balance change of every watched account in every
/// watched asset is added. A record that cannot be read gives nothing and
/// stops nothing: the list is always produced.
pub fn prom_out_with(block: &Block, settings: &Settings) -> (ops: Vec<MetricOp>)
    ensures
        ops_view(ops@) == block_metrics(block@, settings@),
        all_well_formed(ops_view(ops@)),
{
    let mut ops = no_ops();
    let producer = block.producer.as_str();
    let ghost trxs = block@.transaction_traces;
    let mut t: usize = 0;
    while t < block.transaction_traces.len()
        invariant
            t <= block.transaction_traces.len(),
            trxs == block@.transaction_traces,
            producer@ == block@.producer,
            ops_view(ops@) == transactions_metrics(trxs.take(t as int), producer@, settings@),
            all_well_formed(ops_view(ops@)),
        decreases block.transaction_traces.len() - t,
    {
        let more = classify_transaction(&block.transaction_traces[t], producer, settings);
        proof {
            assert(trxs.take(t + 1).drop_last() =~= trxs.take(t as int));
            lemma_well_formed_concat(ops_view(ops@), ops_view(more@));
        }
        append_ops(&mut ops, more);
        t = t + 1;
    }
    let ghost classified = ops_view(ops@);
    let ghost accounts = settings@.accounts;
    let ghost assets = settings@.assets;
    let ghost min_traces = settings@.min_traces;
    let mut a: usize = 0;
    proof {
        assert(trxs.take(t as int) =~= trxs);
    }
    while a < settings.accounts.len()
        invariant
            a <= settings.accounts.len(),
            accounts == settings@.accounts,
            assets == settings@.assets,
            min_traces == settings@.min_traces,
            ops_view(ops@) == classified + balance_metrics(
                block@,
                accounts.take(a as int),
                assets,
                min_traces,
            ),
            all_well_formed(ops_view(ops@)),
        decreases settings.accounts.len() - a,
    {
        let account = settings.accounts[a].as_str();
        let ghost done = ops_view(ops@);
        let mut s: usize = 0;
        while s < settings.assets.len()
            invariant
                s <= settings.assets.len(),
                assets == settings@.assets,
                min_traces == settings@.min_traces,
                ops_view(ops@) == done + account_metrics(
                    block@,
                    account@,
                    assets.take(s as int),
                    min_traces,
                ),
                all_well_formed(ops_view(ops@)),
            decreases settings.assets.len() - s,
        {
            let more = classify_watch(block, account, &settings.assets[s], settings.min_traces);
            proof {
                assert(assets.take(s + 1).drop_last() =~= assets.take(s as int));
                lemma_well_formed_concat(ops_view(ops@), ops_view(more@));
            }
            append_ops(&mut ops, more);
            s = s + 1;
        }
        proof {
            assert(assets.take(s as int) =~= assets);
            assert(accounts.take(a + 1).drop_last() =~= accounts.take(a as int));
        }
        a = a + 1;
    }
    proof {
        assert(accounts.take(a as int) =~= accounts);
    }
    ops
}

/// The metric operations of a block under the standard settings.
pub fn prom_out(block: &Block) -> (ops: Vec<MetricOp>)
    ensures
        ops_view(ops@) == block_metrics(block@, standard_settings()),
        all_well_formed(ops_view(ops@)),
{
    let settings = Settings::standard();
    prom_out_with(block, &settings)
}

/// The transform is a function of the block and the settings: two runs on
/// blocks that hold the same give the same operations in the same order.
pub proof fn lemma_transform_is_deterministic(
    block: Block,
    again: Block,
    settings: Settings,
    first: Vec<MetricOp>,
    second: Vec<MetricOp>,
)
    requires
        block@ == again@,
        ops_view(first@) == block_metrics(block@, settings@),
        ops_view(second@) == block_metrics(again@, settings@),
    ensures
        ops_view(first@) == ops_view(second@),
        first@.len() == second@.len(),
        forall|i: int| 0 <= i < first@.len() ==> first@[i]@ == second@[i]@,
{
    assert(ops_view(first@).len() == first@.len());
    assert forall|i: int| 0 <= i < first@.len() implies first@[i]@ == second@[i]@ by {
        assert(ops_view(first@)[i] == first@[i]@);
    }
}

} // verus!

//! The payload records and their strict decoding from JSON text.
//!
//! A record is decoded only from an object that holds exactly the record's
//! fields, each of the record's type. Anything else is not decoded: there is
//! no record with a part missing or left at a default.

use crate::json::{
    fields_view, find_text, find_unsigned, has_only_keys, json_object_fields, key_texts, lookup,
    lookup_text, lookup_unsigned, only_keys, parse_json_object, JsonField, JsonScalar,
};
use vstd::prelude::*;

verus! {

/// Whether `fields` has as many fields as `keys` and no key outside `keys`.
pub open spec fn exact_keys(fields: Seq<(Seq<char>, JsonScalar)>, keys: Seq<Seq<char>>) -> bool {
    fields.len() == keys.len() && only_keys(fields, keys)
}

fn has_exact_keys(fields: &Vec<JsonField>, keys: &Vec<&str>) -> (exact: bool)
    ensures
        exact == exact_keys(fields_view(fields@), key_texts(keys@)),
{
    fields.len() == keys.len() && has_only_keys(fields, keys)
}

/// A row of a token contract's `accounts` table.
#[derive(Debug)]
pub struct Balance {
    pub balance: String,
}

pub struct BalanceView {
    pub balance: Seq<char>,
}

impl View for Balance {
    type V = BalanceView;

    open spec fn view(&self) -> BalanceView {
        BalanceView { balance: self.balance@ }
    }
}

pub open spec fn balance_keys() -> Seq<Seq<char>> {
    seq!["balance"@]
}

/// The balance record that the fields of an object stand for.
pub open spec fn decode_balance(fields: Seq<(Seq<char>, JsonScalar)>) -> Option<BalanceView> {
    if exact_keys(fields, balance_keys()) {
        match lookup_text(fields, "balance"@) {
            Some(balance) => Some(BalanceView { balance }),
            None => None,
        }
    } else {
        None
    }
}

/// The balance record that a text stands for.
pub open spec fn balance_of(raw: Seq<char>) -> Option<BalanceView> {
    match json_object_fields(raw) {
        Some(fields) => decode_balance(fields),
        None => None,
    }
}

/// Decodes a balance record from the fields of an object.
pub fn balance_from_fields(fields: &Vec<JsonField>) -> (record: Option<Balance>)
    ensures
        match record {
            Some(found) => decode_balance(fields_view(fields@)) == Some(found@),
            None => decode_balance(fields_view(fields@)) is None,
        },
{
    let keys: Vec<&str> = vec!["balance"];
    proof {
        assert(key_texts(keys@) =~= balance_keys());
    }
    if !has_exact_keys(fields, &keys) {
        return None;
    }
    match find_text(fields, "balance") {
        Some(balance) => Some(Balance { balance }),
        None => None,
    }
}

/// Decodes a balance record from JSON text.
pub fn parse_balance(data_json: &str) -> (record: Option<Balance>)
    ensures
        match record {
            Some(found) => balance_of(data_json@) == Some(found@),
            None => balance_of(data_json@) is None,
        },
{
    match parse_json_object(data_json) {
        Some(fields) => balance_from_fields(&fields),
        None => None,
    }
}

/// The row of the mining contract's `config` table.
#[derive(Debug)]
pub struct FastConfig {
    pub status: String,
    pub trade_amount: u64,
    pub min_profit: u64,
    pub max_mine: u64,
}

pub struct FastConfigView {
    pub status: Seq<char>,
    pub trade_amount: u64,
    pub min_profit: u64,
    pub max_mine: u64,
}

impl View for FastConfig {
    type V = FastConfigView;

    open spec fn view(&self) -> FastConfigView {
        FastConfigView {
            status: self.status@,
            trade_amount: self.trade_amount,
            min_profit: self.min_profit,
            max_mine: self.max_mine,
        }
    }
}

pub open spec fn fast_config_keys() -> Seq<Seq<char>> {
    seq!["status"@, "trade_amount"@, "min_profit"@, "max_mine"@]
}

/// The mining configuration that the fields of an object stand for.
pub open spec fn decode_fast_config(fields: Seq<(Seq<char>, JsonScalar)>) -> Option<FastConfigView> {
    if exact_keys(fields, fast_config_keys()) {
        match (
            lookup_text(fields, "status"@),
            lookup_unsigned(fields, "trade_amount"@),
            lookup_unsigned(fields, "min_profit"@),
            lookup_unsigned(fields, "max_mine"@),
        ) {
            (Some(status), Some(trade_amount), Some(min_profit), Some(max_mine)) => Some(
                FastConfigView { status, trade_amount, min_profit, max_mine },
            ),
            _ => None,
        }
    } else {
        None
    }
}

/// The mining configuration that a text stands for.
pub open spec fn fast_config_of(raw: Seq<char>) -> Option<FastConfigView> {
    match json_object_fields(raw) {
        Some(fields) => decode_fast_config(fields),
        None => None,
    }
}

/// Decodes a mining configuration from the fields of an object.
pub fn fast_config_from_fields(fields: &Vec<JsonField>) -> (record: Option<FastConfig>)
    ensures
        match record {
            Some(found) => decode_fast_config(fields_view(fields@)) == Some(found@),
            None => decode_fast_config(fields_view(fields@)) is None,
        },
{
    let keys: Vec<&str> = vec!["status", "trade_amount", "min_profit", "max_mine"];
    proof {
        assert(key_texts(keys@) =~= fast_config_keys());
    }
    if !has_exact_keys(fields, &keys) {
        return None;
    }
    let status = find_text(fields, "status");
    let trade_amount = find_unsigned(fields, "trade_amount");
    let min_profit = find_unsigned(fields, "min_profit");
    let max_mine = find_unsigned(fields, "max_mine");
    match (status, trade_amount, min_profit, max_mine) {
        (Some(status), Some(trade_amount), Some(min_profit), Some(max_mine)) => Some(
            FastConfig { status, trade_amount, min_profit, max_mine },
        ),
        _ => None,
    }
}

/// Decodes a mining configuration from JSON text.
pub fn parse_fast_config(data_json: &str) -> (record: Option<FastConfig>)
    ensures
        match record {
            Some(found) => fast_config_of(data_json@) == Some(found@),
            None => fast_config_of(data_json@) is None,
        },
{
    match parse_json_object(data_json) {
        Some(fields) => fast_config_from_fields(&fields),
        None => None,
    }
}

/// A mining submission.
#[derive(Debug)]
pub struct Mine {
    pub executor: String,
    pub nonce: u64,
}

pub struct MineView {
    pub executor: Seq<char>,
    pub nonce: u64,
}

impl View for Mine {
    type V = MineView;

    open spec fn view(&self) -> MineView {
        MineView { executor: self.executor@, nonce: self.nonce }
    }
}

pub open spec fn mine_keys() -> Seq<Seq<char>> {
    seq!["executor"@, "nonce"@]
}

/// The mining submission that the fields of an object stand for.
pub open spec fn decode_mine(fields: Seq<(Seq<char>, JsonScalar)>) -> Option<MineView> {
    if exact_keys(fields, mine_keys()) {
        match (lookup_text(fields, "executor"@), lookup_unsigned(fields, "nonce"@)) {
            (Some(executor), Some(nonce)) => Some(MineView { executor, nonce }),
            _ => None,
        }
    } else {
        None
    }
}

/// The mining submission that a text stands for.
pub open spec fn mine_of(raw: Seq<char>) -> Option<MineView> {
    match json_object_fields(raw) {
        Some(fields) => decode_mine(fields),
        None => None,
    }
}

/// Decodes a mining submission from the fields of an object.
pub fn mine_from_fields(fields: &Vec<JsonField>) -> (record: Option<Mine>)
    ensures
        match record {
            Some(found) => decode_mine(fields_view(fields@)) == Some(found@),
            None => decode_mine(fields_view(fields@)) is None,
        },
{
    let keys: Vec<&str> = vec!["executor", "nonce"];
    proof {
        assert(key_texts(keys@) =~= mine_keys());
    }
    if !has_exact_keys(fields, &keys) {
        return None;
    }
    let executor = find_text(fields, "executor");
    let nonce = find_unsigned(fields, "nonce");
    match (executor, nonce) {
        (Some(executor), Some(nonce)) => Some(Mine { executor, nonce }),
        _ => None,
    }
}

/// Decodes a mining submission from JSON text.
pub fn parse_mine(data_json: &str) -> (record: Option<Mine>)
    ensures
        match record {
            Some(found) => mine_of(data_json@) == Some(found@),
            None => mine_of(data_json@) is None,
        },
{
    match parse_json_object(data_json) {
        Some(fields) => mine_from_fields(&fields),
        None => None,
    }
}

/// A token transfer.
#[derive(Debug)]
pub struct Transaction {
    pub from: String,
    pub to: String,
    pub quantity: String,
    pub memo: String,
}

pub struct TransactionView {
    pub from: Seq<char>,
    pub to: Seq<char>,
    pub quantity: Seq<char>,
    pub memo: Seq<char>,
}

impl View for Transaction {
    type V = TransactionView;

    open spec fn view(&self) -> TransactionView {
        TransactionView {
            from: self.from@,
            to: self.to@,
            quantity: self.quantity@,
            memo: self.memo@,
        }
    }
}

pub open spec fn transfer_keys() -> Seq<Seq<char>> {
    seq!["from"@, "to"@, "quantity"@, "memo"@]
}

/// The transfer that the fields of an object stand for.
pub open spec fn decode_transfer(fields: Seq<(Seq<char>, JsonScalar)>) -> Option<TransactionView> {
    if exact_keys(fields, transfer_keys()) {
        match (
            lookup_text(fields, "from"@),
            lookup_text(fields, "to"@),
            lookup_text(fields, "quantity"@),
            lookup_text(fields, "memo"@),
        ) {
            (Some(from), Some(to), Some(quantity), Some(memo)) => Some(
                TransactionView { from, to, quantity, memo },
            ),
            _ => None,
        }
    } else {
        None
    }
}

/// The transfer that a text stands for.
pub open spec fn transfer_of(raw: Seq<char>) -> Option<TransactionView> {
    match json_object_fields(raw) {
        Some(fields) => decode_transfer(fields),
        None => None,
    }
}

/// Decodes a transfer from the fields of an object.
pub fn transfer_from_fields(fields: &Vec<JsonField>) -> (record: Option<Transaction>)
    ensures
        match record {
            Some(found) => decode_transfer(fields_view(fields@)) == Some(found@),
            None => decode_transfer(fields_view(fields@)) is None,
        },
{
    let keys: Vec<&str> = vec!["from", "to", "quantity", "memo"];
    proof {
        assert(key_texts(keys@) =~= transfer_keys());
    }
    if !has_exact_keys(fields, &keys) {
        return None;
    }
    let from = find_text(fields, "from");
    let to = find_text(fields, "to");
    let quantity = find_text(fields, "quantity");
    let memo = find_text(fields, "memo");
    match (from, to, quantity, memo) {
        (Some(from), Some(to), Some(quantity), Some(memo)) => Some(
            Transaction { from, to, quantity, memo },
        ),
        _ => None,
    }
}

/// Decodes a transfer from JSON text.
pub fn parse_transfer(data_json: &str) -> (record: Option<Transaction>)
    ensures
        match record {
            Some(found) => transfer_of(data_json@) == Some(found@),
            None => transfer_of(data_json@) is None,
        },
{
    match parse_json_object(data_json) {
        Some(fields) => transfer_from_fields(&fields),
        None => None,
    }
}

/// A log line of the partner account.
#[derive(Debug)]
pub struct FundforDreamLog {
    pub m: String,
}

pub struct FundforDreamLogView {
    pub m: Seq<char>,
}

impl View for FundforDreamLog {
    type V = FundforDreamLogView;

    open spec fn view(&self) -> FundforDreamLogView {
        FundforDreamLogView { m: self.m@ }
    }
}

pub open spec fn fundfordream_keys() -> Seq<Seq<char>> {
    seq!["m"@]
}

/// The log line that the fields of an object stand for.
pub open spec fn decode_fundfordream(fields: Seq<(Seq<char>, JsonScalar)>) -> Option<
    FundforDreamLogView,
> {
    if exact_keys(fields, fundfordream_keys()) {
        match lookup_text(fields, "m"@) {
            Some(m) => Some(FundforDreamLogView { m }),
            None => None,
        }
    } else {
        None
    }
}

/// The log line that a text stands for.
pub open spec fn fundfordream_of(raw: Seq<char>) -> Option<FundforDreamLogView> {
    match json_object_fields(raw) {
        Some(fields) => decode_fundfordream(fields),
        None => None,
    }
}

/// Decodes a log line from the fields of an object.
pub fn fundfordream_from_fields(fields: &Vec<JsonField>) -> (record: Option<FundforDreamLog>)
    ensures
        match record {
            Some(found) => decode_fundfordream(fields_view(fields@)) == Some(found@),
            None => decode_fundfordream(fields_view(fields@)) is None,
        },
{
    let keys: Vec<&str> = vec!["m"];
    proof {
        assert(key_texts(keys@) =~= fundfordream_keys());
    }
    if !has_exact_keys(fields, &keys) {
        return None;
    }
    match find_text(fields, "m") {
        Some(m) => Some(FundforDreamLog { m }),
        None => None,
    }
}

/// Decodes a log line from JSON text.
pub fn parse_fundfordream(data_json: &str) -> (record: Option<FundforDreamLog>)
    ensures
        match record {
            Some(found) => fundfordream_of(data_json@) == Some(found@),
            None => fundfordream_of(data_json@) is None,
        },
{
    match parse_json_object(data_json) {
        Some(fields) => fundfordream_from_fields(&fields),
        None => None,
    }
}

/// A field whose key is not one of a record's keys keeps the object from
/// being decoded as that record, whatever else the object holds.
pub proof fn lemma_unknown_field_is_rejected(fields: Seq<(Seq<char>, JsonScalar)>, i: int)
    requires
        0 <= i < fields.len(),
    ensures
        !balance_keys().contains(fields[i].0) ==> decode_balance(fields) is None,
        !fast_config_keys().contains(fields[i].0) ==> decode_fast_config(fields) is None,
        !mine_keys().contains(fields[i].0) ==> decode_mine(fields) is None,
        !transfer_keys().contains(fields[i].0) ==> decode_transfer(fields) is None,
        !fundfordream_keys().contains(fields[i].0) ==> decode_fundfordream(fields) is None,
{
}

/// A text that is an object with a field outside a record's keys is not
/// decoded as that record.
pub proof fn lemma_text_with_unknown_field_is_rejected(
    raw: Seq<char>,
    fields: Seq<(Seq<char>, JsonScalar)>,
    i: int,
)
    requires
        json_object_fields(raw) == Some(fields),
        0 <= i < fields.len(),
    ensures
        !balance_keys().contains(fields[i].0) ==> balance_of(raw) is None,
        !fast_config_keys().contains(fields[i].0) ==> fast_config_of(raw) is None,
        !mine_keys().contains(fields[i].0) ==> mine_of(raw) is None,
        !transfer_keys().contains(fields[i].0) ==> transfer_of(raw) is None,
        !fundfordream_keys().contains(fields[i].0) ==> fundfordream_of(raw) is None,
{
    lemma_unknown_field_is_rejected(fields, i);
}

/// A decoded record is whole: each part of it is what the field of that name
/// holds, and the object has no field besides the record's.
pub proof fn lemma_decoded_record_is_whole(fields: Seq<(Seq<char>, JsonScalar)>)
    ensures
        decode_balance(fields) matches Some(r) ==> {
            &&& exact_keys(fields, balance_keys())
            &&& lookup(fields, "balance"@) == Some(JsonScalar::Text(r.balance))
        },
        decode_fast_config(fields) matches Some(r) ==> {
            &&& exact_keys(fields, fast_config_keys())
            &&& lookup(fields, "status"@) == Some(JsonScalar::Text(r.status))
            &&& lookup(fields, "trade_amount"@) == Some(JsonScalar::Number(Some(r.trade_amount)))
            &&& lookup(fields, "min_profit"@) == Some(JsonScalar::Number(Some(r.min_profit)))
            &&& lookup(fields, "max_mine"@) == Some(JsonScalar::Number(Some(r.max_mine)))
        },
        decode_mine(fields) matches Some(r) ==> {
            &&& exact_keys(fields, mine_keys())
            &&& lookup(fields, "executor"@) == Some(JsonScalar::Text(r.executor))
            &&& lookup(fields, "nonce"@) == Some(JsonScalar::Number(Some(r.nonce)))
        },
        decode_transfer(fields) matches Some(r) ==> {
            &&& exact_keys(fields, transfer_keys())
            &&& lookup(fields, "from"@) == Some(JsonScalar::Text(r.from))
            &&& lookup(fields, "to"@) == Some(JsonScalar::Text(r.to))
            &&& lookup(fields, "quantity"@) == Some(JsonScalar::Text(r.quantity))
            &&& lookup(fields, "memo"@) == Some(JsonScalar::Text(r.memo))
        },
        decode_fundfordream(fields) matches Some(r) ==> {
            &&& exact_keys(fields, fundfordream_keys())
            &&& lookup(fields, "m"@) == Some(JsonScalar::Text(r.m))
        },
{
}

} // verus!

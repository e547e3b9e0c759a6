//! Account names, symbols and asset amounts of the chain, as plain values.
//!
//! Encoding and parsing are done by the `antelope` crate. Its results are
//! named here by spec functions without a body, so that contracts can speak
//! of them; nothing in this crate proves what those results are.

use std::str::FromStr;
use vstd::prelude::*;

verus! {

/// The value that `antelope::Name::from_str` gives for a text, if it accepts it.
pub uninterp spec fn name_value(text: Seq<char>) -> Option<u64>;

/// The value of the name that `antelope::Name::suffix` gives for a name's value.
pub uninterp spec fn name_suffix_value(value: u64) -> u64;

/// The text that `antelope::Name` displays for a name's value.
pub uninterp spec fn name_text(value: u64) -> Seq<char>;

/// The amount and the raw symbol that `antelope::Asset::from_str` gives for a
/// text such as `"1.2345 EOS"`, if it accepts it.
pub uninterp spec fn asset_parts(text: Seq<char>) -> Option<(i64, u64)>;

/// The raw value that `antelope::Symbol::from_str` gives for a text such as
/// `"4,EOS"`, if it accepts it.
pub uninterp spec fn symbol_value(text: Seq<char>) -> Option<u64>;

/// The text that `antelope::SymbolCode` displays for the code of a raw symbol.
pub uninterp spec fn symbol_code_text(symbol: u64) -> Seq<char>;

/// An account name, held by its 64-bit encoding.
#[derive(Clone, Copy, Debug, PartialEq, Eq, Structural, Hash)]
pub struct Name {
    pub value: u64,
}

/// A symbol: a code of up to seven letters and a precision, in one 64-bit value.
#[derive(Clone, Copy, Debug, PartialEq, Eq, Structural, Hash)]
pub struct Symbol {
    pub value: u64,
}

/// A symbol together with the contract that issues it.
#[derive(Clone, Copy, Debug, PartialEq, Eq, Structural, Hash)]
pub struct ExtendedSymbol {
    pub contract: Name,
    pub sym: Symbol,
}

/// An amount of an asset, scaled by the precision of its symbol.
#[derive(Clone, Copy, Debug, PartialEq, Eq, Structural, Hash)]
pub struct Asset {
    pub amount: i128,
    pub symbol: Symbol,
}

/// Calls `antelope::Name::from_str`, which accepts at most thirteen characters
/// out of `.`, `1` to `5` and `a` to `z` and returns an error otherwise. The
/// contract only names the value it gives.
#[verifier::external_body]
fn antelope_name_value(text: &str) -> (value: Option<u64>)
    ensures
        value == name_value(text@),
{
    antelope::Name::from_str(text).ok().map(|name| name.value)
}

/// Calls `antelope::Name::suffix` on the name with the given value. The
/// contract only names the value of the name it gives.
#[verifier::external_body]
fn antelope_name_suffix(value: u64) -> (suffix: u64)
    ensures
        suffix == name_suffix_value(value),
{
    antelope::Name::from(value).suffix().value
}

/// Formats the name with the given value through `antelope::Name`'s `Display`.
/// The contract only names the text it gives.
#[verifier::external_body]
fn antelope_name_text(value: u64) -> (text: String)
    ensures
        text@ == name_text(value),
{
    antelope::Name::from(value).to_string()
}

/// Calls `antelope::Asset::from_str`, which returns an error for a text it
/// does not accept. The contract only names the amount and raw symbol it gives.
#[verifier::external_body]
fn antelope_asset_parts(text: &str) -> (parts: Option<(i64, u64)>)
    ensures
        parts == asset_parts(text@),
{
    antelope::Asset::from_str(text).ok().map(|asset| (asset.amount, asset.symbol.raw()))
}

/// Calls `antelope::Symbol::from_str`, which returns an error for a text it
/// does not accept. The contract only names the raw value it gives.
#[verifier::external_body]
fn antelope_symbol_value(text: &str) -> (value: Option<u64>)
    ensures
        value == symbol_value(text@),
{
    antelope::Symbol::from_str(text).ok().map(|symbol| symbol.raw())
}

/// Formats the code of the symbol with the given raw value through
/// `antelope::SymbolCode`'s `Display`. The contract only names the text.
#[verifier::external_body]
fn antelope_symbol_code_text(symbol: u64) -> (text: String)
    ensures
        text@ == symbol_code_text(symbol),
{
    antelope::Symbol::from(symbol).code().to_string()
}

/// The name that a text stands for, if it is a name.
pub open spec fn name_of(text: Seq<char>) -> Option<Name> {
    match name_value(text) {
        Some(value) => Some(Name { value }),
        None => None,
    }
}

/// The symbol that a text stands for, if it is a symbol.
pub open spec fn symbol_of(text: Seq<char>) -> Option<Symbol> {
    match symbol_value(text) {
        Some(value) => Some(Symbol { value }),
        None => None,
    }
}

/// The asset that a text stands for, if it is an asset.
pub open spec fn asset_of(text: Seq<char>) -> Option<Asset> {
    match asset_parts(text) {
        Some(parts) => Some(Asset { amount: parts.0 as i128, symbol: Symbol { value: parts.1 } }),
        None => None,
    }
}

impl Name {
    /// Parses a name; `None` where the text is not a name.
    pub fn from_text(text: &str) -> (name: Option<Name>)
        ensures
            name == name_of(text@),
    {
        match antelope_name_value(text) {
            Some(value) => Some(Name { value }),
            None => None,
        }
    }

    /// The part of the name after its last dot (the whole name if it has none).
    pub open spec fn spec_suffix(self) -> Name {
        Name { value: name_suffix_value(self.value) }
    }

    /// The part of the name after its last dot (the whole name if it has none).
    pub fn suffix(&self) -> (suffix: Name)
        ensures
            suffix == self.spec_suffix(),
    {
        Name { value: antelope_name_suffix(self.value) }
    }

    /// The name as text.
    pub fn to_text(&self) -> (text: String)
        ensures
            text@ == name_text(self.value),
    {
        antelope_name_text(self.value)
    }
}

impl Symbol {
    /// Parses a symbol written as precision, comma, code; `None` where the
    /// text is not a symbol.
    pub fn from_text(text: &str) -> (symbol: Option<Symbol>)
        ensures
            symbol == symbol_of(text@),
    {
        match antelope_symbol_value(text) {
            Some(value) => Some(Symbol { value }),
            None => None,
        }
    }

    /// The number of decimal places: the low byte of the value.
    pub open spec fn spec_precision(self) -> u8 {
        (self.value & 0xff) as u8
    }

    /// The number of decimal places.
    pub fn precision(&self) -> (precision: u8)
        ensures
            precision == self.spec_precision(),
    {
        (self.value & 0xff) as u8
    }

    /// The symbol's code as text.
    pub fn code_text(&self) -> (text: String)
        ensures
            text@ == symbol_code_text(self.value),
    {
        antelope_symbol_code_text(self.value)
    }
}

impl ExtendedSymbol {
    /// A symbol qualified by its issuing contract.
    pub fn from_extended(sym: Symbol, contract: Name) -> (ext: ExtendedSymbol)
        ensures
            ext == (ExtendedSymbol { contract, sym }),
    {
        ExtendedSymbol { contract, sym }
    }

    pub fn get_contract(&self) -> (contract: Name)
        ensures
            contract == self.contract,
    {
        self.contract
    }

    pub fn get_symbol(&self) -> (sym: Symbol)
        ensures
            sym == self.sym,
    {
        self.sym
    }
}

impl Asset {
    /// Parses an asset written as amount, space, code; `None` where the text
    /// is not an asset.
    pub fn from_text(text: &str) -> (asset: Option<Asset>)
        ensures
            asset == asset_of(text@),
    {
        match antelope_asset_parts(text) {
            Some(parts) => Some(Asset { amount: parts.0 as i128, symbol: Symbol { value: parts.1 } }),
            None => None,
        }
    }

    /// An asset with the given amount.
    pub fn from_amount(amount: i128, symbol: Symbol) -> (asset: Asset)
        ensures
            asset == (Asset { amount, symbol }),
    {
        Asset { amount, symbol }
    }
}

} // verus!

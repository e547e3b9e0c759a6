//! What the transform watches: the accounts and assets whose balance changes
//! are reported, the noise threshold, and the identifiers of the contract
//! family and of the partner.

use crate::utils::NOISE_TRACES;
use vstd::prelude::*;

verus! {

/// An asset on the watch-list: its symbol written as precision, comma, code
/// (`4,EOS`), and the contract that issues it.
#[derive(Clone, Debug, PartialEq, Eq)]
pub struct WatchedAsset {
    pub symbol: String,
    pub contract: String,
}

pub struct WatchedAssetView {
    pub symbol: Seq<char>,
    pub contract: Seq<char>,
}

impl View for WatchedAsset {
    type V = WatchedAssetView;

    open spec fn view(&self) -> WatchedAssetView {
        WatchedAssetView { symbol: self.symbol@, contract: self.contract@ }
    }
}

/// The settings of one transform.
#[derive(Clone, Debug, PartialEq, Eq)]
pub struct Settings {
    /// The accounts whose balances are watched.
    pub accounts: Vec<String>,
    /// The assets in which they are watched.
    pub assets: Vec<WatchedAsset>,
    /// A balance change is dropped where the last transaction that
    /// contributes to it has at most this many action traces.
    pub min_traces: usize,
    /// The suffix of the contract family's account names.
    pub family: String,
    /// The partner account whose `logs` actions report its profit.
    pub partner: String,
}

pub struct SettingsView {
    pub accounts: Seq<Seq<char>>,
    pub assets: Seq<WatchedAssetView>,
    pub min_traces: nat,
    pub family: Seq<char>,
    pub partner: Seq<char>,
}

impl View for Settings {
    type V = SettingsView;

    open spec fn view(&self) -> SettingsView {
        SettingsView {
            accounts: self.accounts@.map_values(|account: String| account@),
            assets: self.assets@.map_values(|asset: WatchedAsset| asset@),
            min_traces: self.min_traces as nat,
            family: self.family@,
            partner: self.partner@,
        }
    }
}

/// The settings in use: three accounts watched in EOS and USDT, the `sx`
/// family, and the partner `fundfordream`.
pub open spec fn standard_settings() -> SettingsView {
    SettingsView {
        accounts: seq!["fee.sx"@, "fundfordream"@, "taggartdagny"@],
        assets: seq![
            WatchedAssetView { symbol: "4,EOS"@, contract: "eosio.token"@ },
            WatchedAssetView { symbol: "4,USDT"@, contract: "tethertether"@ },
        ],
        min_traces: NOISE_TRACES as nat,
        family: "sx"@,
        partner: "fundfordream"@,
    }
}

impl Settings {
    /// The settings in use.
    pub fn standard() -> (settings: Settings)
        ensures
            settings@ == standard_settings(),
    {
        let accounts: Vec<String> = vec![
            "fee.sx".to_owned(),
            "fundfordream".to_owned(),
            "taggartdagny".to_owned(),
        ];
        let assets: Vec<WatchedAsset> = vec![
            WatchedAsset { symbol: "4,EOS".to_owned(), contract: "eosio.token".to_owned() },
            WatchedAsset { symbol: "4,USDT".to_owned(), contract: "tethertether".to_owned() },
        ];
        let settings = Settings {
            accounts,
            assets,
            min_traces: NOISE_TRACES,
            family: "sx".to_owned(),
            partner: "fundfordream".to_owned(),
        };
        proof {
            assert(settings@.accounts =~= standard_settings().accounts);
            assert(settings@.assets =~= standard_settings().assets);
        }
        settings
    }
}

} // verus!

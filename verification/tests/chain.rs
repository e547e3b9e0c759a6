use sx_metrics::chain::{Asset, ExtendedSymbol, Name, Symbol};

#[test]
fn names_are_encoded() {
    assert_eq!(Name::from_text("eosio"), Some(Name { value: 6138663577826885632 }));
    assert_eq!(Name::from_text("eosio.token"), Some(Name { value: 6138663591592764928 }));
    assert_eq!(Name::from_text("fee.sx"), Some(Name { value: 6526855452322430976 }));
    assert_eq!(Name::from_text("sx"), Some(Name { value: 14357475612057141248 }));
    assert_eq!(Name::from_text(""), Some(Name { value: 0 }));
}

#[test]
fn names_agree_with_the_encoder() {
    for text in ["fee.sx", "fundfordream", "taggartdagny", "tethertether", "a.b.c", "zzzzzzzzzzzzj"] {
        assert_eq!(Name::from_text(text).unwrap().value, antelope::Name::from(text).value);
    }
}

#[test]
fn texts_that_are_no_names_are_refused() {
    assert_eq!(Name::from_text("Fee.sx"), None);
    assert_eq!(Name::from_text("fee sx"), None);
    assert_eq!(Name::from_text("fee6"), None);
    assert_eq!(Name::from_text("abcdefghijklmn"), None);
    assert_eq!(Name::from_text("zzzzzzzzzzzzz"), None);
    assert_eq!(Name::from_text("\u{e9}"), None);
}

#[test]
fn the_suffix_is_what_follows_the_last_dot() {
    let sx = Name::from_text("sx").unwrap();
    assert_eq!(Name::from_text("push.sx").unwrap().suffix(), sx);
    assert_eq!(Name::from_text("cpu.sx").unwrap().suffix(), sx);
    assert_eq!(Name::from_text("a.b.sx").unwrap().suffix(), sx);
    assert_eq!(Name::from_text("sx").unwrap().suffix(), sx);
    assert_eq!(
        Name::from_text("eosio.token").unwrap().suffix(),
        Name::from_text("token").unwrap()
    );
    assert_eq!(Name::from_text("alice").unwrap().suffix(), Name { value: 3773036822876127232 });
    assert_ne!(Name::from_text("sx.push").unwrap().suffix(), sx);
}

#[test]
fn names_are_written_back() {
    assert_eq!(Name { value: 6138663591592764928 }.to_text(), "eosio.token");
    assert_eq!(Name::from_text("fee.sx").unwrap().to_text(), "fee.sx");
    assert_eq!(Name::from_text("abc.").unwrap().to_text(), "abc");
    assert_eq!(Name { value: 0 }.to_text(), "");
}

#[test]
fn symbols_are_encoded() {
    let eos = Symbol::from_text("4,EOS").unwrap();
    assert_eq!(eos, Symbol { value: 1397703940 });
    assert_eq!(eos.precision(), 4);
    assert_eq!(eos.code_text(), "EOS");
    let usdt = Symbol::from_text("4,USDT").unwrap();
    assert_eq!(usdt, Symbol { value: 361923564804 });
    assert_eq!(usdt.code_text(), "USDT");
    assert_eq!(Symbol::from_text("0,A").unwrap().precision(), 0);
    assert_eq!(Symbol::from_text("255,A").unwrap().precision(), 255);
}

#[test]
fn texts_that_are_no_symbols_are_refused() {
    assert_eq!(Symbol::from_text("EOS"), None);
    assert_eq!(Symbol::from_text("4,eos"), None);
    assert_eq!(Symbol::from_text("x,EOS"), None);
    assert_eq!(Symbol::from_text("4,EOSEOSEO"), None);
    assert_eq!(Symbol::from_text("256,EOS"), None);
    assert_eq!(Symbol::from_text("4,EOS,1"), None);
}

#[test]
fn assets_are_parsed() {
    assert_eq!(
        Asset::from_text("12.3400 EOS"),
        Some(Asset { amount: 123400, symbol: Symbol { value: 1397703940 } })
    );
    assert_eq!(
        Asset::from_text("-0.5000 USDT"),
        Some(Asset { amount: -5000, symbol: Symbol { value: 361923564804 } })
    );
    let whole = Asset::from_text("7 EOS").unwrap();
    assert_eq!(whole.amount, 7);
    assert_eq!(whole.symbol.precision(), 0);
    assert_eq!(whole.symbol.code_text(), "EOS");
    let large = Asset::from_text("922337203685477.5807 EOS").unwrap();
    assert_eq!(large.amount, i64::MAX as i128);
}

#[test]
fn texts_that_are_no_assets_are_refused() {
    assert_eq!(Asset::from_text(""), None);
    assert_eq!(Asset::from_text("12.3400"), None);
    assert_eq!(Asset::from_text("12.3400 eos"), None);
    assert_eq!(Asset::from_text("12.3400  EOS"), None);
    assert_eq!(Asset::from_text("abc EOS"), None);
    assert_eq!(Asset::from_text("1.0 EOS extra"), None);
    assert_eq!(Asset::from_text("922337203685477.5808 EOS"), None);
}

#[test]
fn extended_symbols_hold_symbol_and_contract() {
    let sym = Symbol::from_text("4,EOS").unwrap();
    let contract = Name::from_text("eosio.token").unwrap();
    let ext = ExtendedSymbol::from_extended(sym, contract);
    assert_eq!(ext.get_symbol(), sym);
    assert_eq!(ext.get_contract(), contract);
    assert_eq!(ext, ExtendedSymbol { contract, sym });
    assert_ne!(ext, ExtendedSymbol::from_extended(Symbol::from_text("8,EOS").unwrap(), contract));
}

#[test]
fn assets_are_made_from_amounts() {
    let sym = Symbol { value: 1397703940 };
    assert_eq!(Asset::from_amount(-3, sym), Asset { amount: -3, symbol: sym });
}

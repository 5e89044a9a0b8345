use stg_mamba::data::types::{Asset, TradeSide};

#[test]
fn asset_index_round_trip() {
    for (i, a) in Asset::all().into_iter().enumerate() {
        assert_eq!(a.to_index(), i);
        assert_eq!(Asset::from_index(i), Some(a));
    }
    assert_eq!(Asset::from_index(5), None);
    assert_eq!(Asset::from_index(usize::MAX), None);
}

#[test]
fn asset_kraken_symbols() {
    assert_eq!(Asset::BTC.kraken_symbol(), "XBT/USD");
    assert_eq!(Asset::ETH.kraken_symbol(), "ETH/USD");
    assert_eq!(Asset::XRP.kraken_symbol(), "XRP/USD");
    assert_eq!(Asset::SOL.kraken_symbol(), "SOL/USD");
    assert_eq!(Asset::Gold.kraken_symbol(), "XAU/USD");
    assert_eq!(
        Asset::all(),
        vec![Asset::BTC, Asset::ETH, Asset::XRP, Asset::SOL, Asset::Gold]
    );
}

#[test]
fn trade_side_from_kraken() {
    assert_eq!(TradeSide::from_kraken("buy"), TradeSide::Buy);
    assert_eq!(TradeSide::from_kraken("sell"), TradeSide::Sell);
    assert_eq!(TradeSide::from_kraken("SELL"), TradeSide::Buy);
    assert_eq!(TradeSide::from_kraken(""), TradeSide::Buy);
}

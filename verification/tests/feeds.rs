use stg_mamba::data::kraken::route_message;
use stg_mamba::data::kraken::{
    classify_message, find_asset, subscription_request, subscription_requests, KrakenChannel,
    MessageKind,
};
use stg_mamba::data::polymarket::{
    asset_search_query, classify_lowercase_outcome, outcome_bias, sentiment_sources,
    OutcomeBias,
};
use stg_mamba::data::types::Asset;

fn subscription_value(channel: &str, extra: Option<(&str, i64)>, symbol: &str) -> String {
    let mut params = serde_json::Map::new();
    params.insert("channel".to_string(), serde_json::Value::String(channel.to_string()));
    params.insert(
        "symbol".to_string(),
        serde_json::Value::Array(vec![serde_json::Value::String(symbol.to_string())]),
    );
    if let Some((k, v)) = extra {
        params.insert(k.to_string(), serde_json::Value::from(v));
    }
    let mut msg = serde_json::Map::new();
    msg.insert("method".to_string(), serde_json::Value::String("subscribe".to_string()));
    msg.insert("params".to_string(), serde_json::Value::Object(params));
    serde_json::Value::Object(msg).to_string()
}

#[test]
fn subscriptions_match_json_encoding() {
    for a in Asset::all() {
        let sym = a.kraken_symbol();
        assert_eq!(
            subscription_request(KrakenChannel::Ohlc, a),
            subscription_value("ohlc", Some(("interval", 1)), sym)
        );
        assert_eq!(
            subscription_request(KrakenChannel::Book, a),
            subscription_value("book", Some(("depth", 10)), sym)
        );
        assert_eq!(
            subscription_request(KrakenChannel::Trade, a),
            subscription_value("trade", None, sym)
        );
        let all = subscription_requests(a);
        assert_eq!(all.len(), 3);
        assert_eq!(all[2], subscription_request(KrakenChannel::Trade, a));
    }
    assert_eq!(
        subscription_request(KrakenChannel::Ohlc, Asset::BTC),
        "{\"method\":\"subscribe\",\"params\":{\"channel\":\"ohlc\",\"interval\":1,\"symbol\":[\"XBT/USD\"]}}"
    );
}

#[test]
fn messages_are_routed() {
    assert_eq!(classify_message(Some("ohlc"), false), MessageKind::Ohlc);
    assert_eq!(classify_message(Some("book"), true), MessageKind::Book);
    assert_eq!(classify_message(Some("trade"), false), MessageKind::Trade);
    assert_eq!(classify_message(Some("heartbeat"), false), MessageKind::OtherChannel);
    assert_eq!(classify_message(None, true), MessageKind::Status);
    assert_eq!(classify_message(None, false), MessageKind::Ignored);
}

#[test]
fn symbols_find_subscribed_assets() {
    let assets = vec![Asset::ETH, Asset::Gold];
    assert_eq!(find_asset(&assets, "XAU/USD"), Some(Asset::Gold));
    assert_eq!(find_asset(&assets, "ETH/USD"), Some(Asset::ETH));
    assert_eq!(find_asset(&assets, "XBT/USD"), None);
    assert_eq!(find_asset(&[], "ETH/USD"), None);
}

#[test]
fn polymarket_queries() {
    assert_eq!(asset_search_query(Asset::BTC), "Bitcoin price");
    assert_eq!(asset_search_query(Asset::ETH), "Ethereum price");
    assert_eq!(asset_search_query(Asset::XRP), "XRP price");
    assert_eq!(asset_search_query(Asset::SOL), "Solana price");
    assert_eq!(asset_search_query(Asset::Gold), "Gold price");
}

#[test]
fn outcomes_are_classified_ignoring_case() {
    assert_eq!(outcome_bias("YES"), OutcomeBias::Bullish);
    assert_eq!(outcome_bias("Bullish"), OutcomeBias::Bullish);
    assert_eq!(outcome_bias("No"), OutcomeBias::Bearish);
    assert_eq!(outcome_bias("LOWER"), OutcomeBias::Bearish);
    assert_eq!(outcome_bias("Maybe"), OutcomeBias::Neutral);
    // Bullish words win over bearish ones.
    assert_eq!(outcome_bias("Up or down"), OutcomeBias::Bullish);
    // Upper-case text is not lowered by the lower-case classifier.
    assert_eq!(classify_lowercase_outcome("YES"), OutcomeBias::Neutral);
    assert_eq!(classify_lowercase_outcome("not higher"), OutcomeBias::Bullish);
    assert_eq!(classify_lowercase_outcome("unknown"), OutcomeBias::Bearish);
}

#[test]
fn sentiment_uses_last_token_of_each_side() {
    let biases = vec![
        Some(OutcomeBias::Bullish),
        None,
        Some(OutcomeBias::Bearish),
        Some(OutcomeBias::Bullish),
        Some(OutcomeBias::Neutral),
    ];
    let s = sentiment_sources(&biases);
    assert_eq!(s.bullish, Some(3));
    assert_eq!(s.bearish, Some(2));
    let s = sentiment_sources(&vec![None, Some(OutcomeBias::Neutral)]);
    assert_eq!(s.bullish, None);
    assert_eq!(s.bearish, None);
}

#[test]
fn raw_messages_are_routed() {
    assert_eq!(route_message("{\"channel\":\"ohlc\",\"data\":[]}"), Some(MessageKind::Ohlc));
    assert_eq!(route_message("{\"channel\":\"book\"}"), Some(MessageKind::Book));
    assert_eq!(route_message("{\"channel\":\"trade\",\"method\":\"x\"}"), Some(MessageKind::Trade));
    assert_eq!(route_message("{\"channel\":\"status\"}"), Some(MessageKind::OtherChannel));
    assert_eq!(route_message("{\"method\":\"subscribe\",\"success\":true}"), Some(MessageKind::Status));
    assert_eq!(route_message("{\"channel\":5}"), Some(MessageKind::Ignored));
    assert_eq!(route_message("[1,2]"), Some(MessageKind::Ignored));
    assert_eq!(route_message("not json"), None);
    assert_eq!(route_message(""), None);
}

//! Decision logic of the Kraken WebSocket feed: which subscriptions to send,
//! how an incoming message is routed, and how its fields map to assets and
//! trade sides.
use vstd::prelude::*;

use super::types::{kraken_symbol_of, Asset, TradeSide};
use crate::text::str_eq;

verus! {

/// Channels of the Kraken v2 WebSocket API used by the feed.
#[derive(Debug, Clone, Copy, PartialEq, Eq, Structural)]
pub enum KrakenChannel {
    /// 1-minute OHLC candles
    Ohlc,
    /// Order book, depth 10
    Book,
    /// Executed trades
    Trade,
}

/// How an incoming message is handled.
#[derive(Debug, Clone, Copy, PartialEq, Eq, Structural)]
pub enum MessageKind {
    /// Candle data
    Ohlc,
    /// Order-book data
    Book,
    /// Trade data
    Trade,
    /// Data on a channel the feed does not handle
    OtherChannel,
    /// A subscription acknowledgement or status message
    Status,
    /// Anything else
    Ignored,
}

/// The route of a message by its `channel` field (when it is a string) and by
/// whether it has a `method` field.
pub open spec fn message_kind_of(channel: Option<Seq<char>>, has_method: bool) -> MessageKind {
    match channel {
        Some(c) => if c == "ohlc"@ {
            MessageKind::Ohlc
        } else if c == "book"@ {
            MessageKind::Book
        } else if c == "trade"@ {
            MessageKind::Trade
        } else {
            MessageKind::OtherChannel
        },
        None => if has_method {
            MessageKind::Status
        } else {
            MessageKind::Ignored
        },
    }
}

/// Route an incoming message by its `channel` field (when it is a string) and
/// by whether it has a `method` field.
pub fn classify_message(channel: Option<&str>, has_method: bool) -> (k: MessageKind)
    ensures
        k == message_kind_of(
            match channel {
                Some(c) => Some(c@),
                None => None,
            },
            has_method,
        ),
{
    match channel {
        Some(c) => {
            if str_eq(c, "ohlc") {
                MessageKind::Ohlc
            } else if str_eq(c, "book") {
                MessageKind::Book
            } else if str_eq(c, "trade") {
                MessageKind::Trade
            } else {
                MessageKind::OtherChannel
            }
        },
        None => {
            if has_method {
                MessageKind::Status
            } else {
                MessageKind::Ignored
            }
        },
    }
}

/// The routing fields of a message text read as JSON: `channel` when it is a
/// string, and whether a `method` field is present; `None` when the text is not JSON.
pub uninterp spec fn json_route_fields(text: Seq<char>) -> Option<(Option<Seq<char>>, bool)>;

/// `serde_json::from_str::<serde_json::Value>` on a message text, followed by
/// `Value::get("channel")` read with `Value::as_str`, and `Value::get("method")`
/// tested for presence. The fields are named (`json_route_fields`); the JSON
/// grammar is serde_json's.
#[verifier::external_body]
fn parse_route_fields(text: &str) -> (r: Option<(Option<String>, bool)>)
    ensures
        r is None <==> json_route_fields(text@) is None,
        r matches Some(f) ==> json_route_fields(text@) == Some(
            (
                match f.0 {
                    Some(c) => Some(c@),
                    None => None,
                },
                f.1,
            ),
        ),
{
    let value: serde_json::Value = serde_json::from_str(text).ok()?;
    let channel = value.get("channel").and_then(|c| c.as_str()).map(|c| c.to_string());
    Some((channel, value.get("method").is_some()))
}

/// Route a raw message text: `None` when it is not JSON, else the route of its
/// `channel` field (when a string) and of the presence of a `method` field.
pub fn route_message(text: &str) -> (r: Option<MessageKind>)
    ensures
        r == match json_route_fields(text@) {
            Some(f) => Some(message_kind_of(f.0, f.1)),
            None => None,
        },
{
    match parse_route_fields(text) {
        Some((channel, has_method)) => {
            let kind = match &channel {
                Some(c) => classify_message(Some(c.as_str()), has_method),
                None => classify_message(None, has_method),
            };
            Some(kind)
        },
        None => None,
    }
}

/// The first asset of `assets` that trades under `symbol`.
pub open spec fn first_with_symbol(assets: Seq<Asset>, symbol: Seq<char>) -> Option<Asset>
    decreases assets.len(),
{
    if assets.len() == 0 {
        None
    } else if kraken_symbol_of(assets[0]) == symbol {
        Some(assets[0])
    } else {
        first_with_symbol(assets.drop_first(), symbol)
    }
}

/// Find the subscribed asset that a message's `symbol` field names.
pub fn find_asset(assets: &[Asset], symbol: &str) -> (r: Option<Asset>)
    ensures
        r == first_with_symbol(assets@, symbol@),
{
    let mut i: usize = 0;
    assert(assets@.skip(0) =~= assets@);
    while i < assets.len()
        invariant
            i <= assets@.len(),
            first_with_symbol(assets@, symbol@) == first_with_symbol(assets@.skip(i as int), symbol@),
        decreases assets@.len() - i,
    {
        assert(assets@.skip(i as int).drop_first() =~= assets@.skip(i + 1));
        assert(assets@.skip(i as int)[0] == assets@[i as int]);
        if str_eq(assets[i].kraken_symbol(), symbol) {
            return Some(assets[i]);
        }
        i = i + 1;
    }
    assert(assets@.skip(i as int).len() == 0);
    None
}

/// A subscribed asset is found again by its own symbol.
pub proof fn lemma_find_own_symbol(assets: Seq<Asset>, a: Asset)
    requires
        assets.contains(a),
    ensures
        first_with_symbol(assets, kraken_symbol_of(a)) == Some(a),
    decreases assets.len(),
{
    crate::data::types::lemma_kraken_symbols_distinct(assets[0], a);
    if assets[0] != a {
        let k = choose|k: int| 0 <= k < assets.len() && assets[k] == a;
        assert(assets.drop_first()[k - 1] == a);
        lemma_find_own_symbol(assets.drop_first(), a);
    }
}

/// An asset found by symbol is one of the subscribed assets and trades under
/// that symbol.
pub proof fn lemma_find_sound(assets: Seq<Asset>, symbol: Seq<char>)
    ensures
        first_with_symbol(assets, symbol) matches Some(a) ==> assets.contains(a)
            && kraken_symbol_of(a) == symbol,
    decreases assets.len(),
{
    if assets.len() > 0 && kraken_symbol_of(assets[0]) != symbol {
        lemma_find_sound(assets.drop_first(), symbol);
        if first_with_symbol(assets, symbol) is Some {
            let a = first_with_symbol(assets, symbol)->0;
            let k = choose|k: int| 0 <= k < assets.drop_first().len() && assets.drop_first()[k] == a;
            assert(assets[k + 1] == a);
        }
    }
}

/// The side of a trade as Kraken reports it: "sell" is a sell, and anything
/// else counts as a buy.
pub open spec fn trade_side_named(side: Seq<char>) -> TradeSide {
    if side == "sell"@ {
        TradeSide::Sell
    } else {
        TradeSide::Buy
    }
}

impl TradeSide {
    /// The side of a trade from Kraken's `side` field.
    pub fn from_kraken(side: &str) -> (s: TradeSide)
        ensures
            s == trade_side_named(side@),
    {
        proof {
            reveal_strlit("buy");
            reveal_strlit("sell");
            assert("buy"@[0] != "sell"@[0]);
            assert("buy"@ != "sell"@);
        }
        if str_eq(side, "buy") {
            TradeSide::Buy
        } else if str_eq(side, "sell") {
            TradeSide::Sell
        } else {
            TradeSide::Buy
        }
    }
}

/// The subscription request for one channel and asset, as compact JSON.
pub open spec fn subscription_text(channel: KrakenChannel, a: Asset) -> Seq<char> {
    match channel {
        KrakenChannel::Ohlc => "{\"method\":\"subscribe\",\"params\":{\"channel\":\"ohlc\",\"interval\":1,\"symbol\":[\""@
            + kraken_symbol_of(a) + "\"]}}"@,
        KrakenChannel::Book => "{\"method\":\"subscribe\",\"params\":{\"channel\":\"book\",\"depth\":10,\"symbol\":[\""@
            + kraken_symbol_of(a) + "\"]}}"@,
        KrakenChannel::Trade => "{\"method\":\"subscribe\",\"params\":{\"channel\":\"trade\",\"symbol\":[\""@
            + kraken_symbol_of(a) + "\"]}}"@,
    }
}

/// The subscription request for one channel and asset: 1-minute candles,
/// a depth-10 order book, or the trade stream.
pub fn subscription_request(channel: KrakenChannel, asset: Asset) -> (s: String)
    ensures
        s@ == subscription_text(channel, asset),
{
    let mut s = match channel {
        KrakenChannel::Ohlc => String::from_str(
            "{\"method\":\"subscribe\",\"params\":{\"channel\":\"ohlc\",\"interval\":1,\"symbol\":[\"",
        ),
        KrakenChannel::Book => String::from_str(
            "{\"method\":\"subscribe\",\"params\":{\"channel\":\"book\",\"depth\":10,\"symbol\":[\"",
        ),
        KrakenChannel::Trade => String::from_str(
            "{\"method\":\"subscribe\",\"params\":{\"channel\":\"trade\",\"symbol\":[\"",
        ),
    };
    s.append(asset.kraken_symbol());
    s.append("\"]}}");
    s
}

/// The requests that subscribe to an asset, in the order they are sent:
/// candles, order book, trades.
pub fn subscription_requests(asset: Asset) -> (v: Vec<String>)
    ensures
        v@.len() == 3,
        v@[0]@ == subscription_text(KrakenChannel::Ohlc, asset),
        v@[1]@ == subscription_text(KrakenChannel::Book, asset),
        v@[2]@ == subscription_text(KrakenChannel::Trade, asset),
{
    let mut v: Vec<String> = Vec::new();
    v.push(subscription_request(KrakenChannel::Ohlc, asset));
    v.push(subscription_request(KrakenChannel::Book, asset));
    v.push(subscription_request(KrakenChannel::Trade, asset));
    v
}

/// Routing: a message on the "ohlc", "book" or "trade" channel goes to that
/// handler and a message on any other channel is unhandled; a message without
/// a string channel is a status message when it has a method, and is ignored
/// otherwise.
pub proof fn lemma_message_routes(channel: Option<Seq<char>>, has_method: bool)
    ensures
        message_kind_of(channel, has_method) == MessageKind::Ohlc <==> channel == Some("ohlc"@),
        message_kind_of(channel, has_method) == MessageKind::Book <==> channel == Some("book"@),
        message_kind_of(channel, has_method) == MessageKind::Trade <==> channel == Some("trade"@),
        message_kind_of(channel, has_method) == MessageKind::OtherChannel <==> channel is Some
            && channel != Some("ohlc"@) && channel != Some("book"@) && channel != Some("trade"@),
        message_kind_of(channel, has_method) == MessageKind::Status <==> channel is None
            && has_method,
        message_kind_of(channel, has_method) == MessageKind::Ignored <==> channel is None
            && !has_method,
{
    reveal_strlit("ohlc");
    reveal_strlit("book");
    reveal_strlit("trade");
    assert("ohlc"@[0] != "book"@[0] && "ohlc"@[0] != "trade"@[0] && "book"@[0] != "trade"@[0]);
}

/// A trade is a sell exactly when Kraken reports the side "sell".
pub proof fn lemma_trade_side(side: Seq<char>)
    ensures
        trade_side_named(side) == TradeSide::Sell <==> side == "sell"@,
        trade_side_named(side) == TradeSide::Buy <==> side != "sell"@,
{
}

} // verus!

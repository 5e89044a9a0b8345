//! Decision logic of the Polymarket feed: the market search query for each
//! asset, and how market outcomes are read as bullish or bearish.
use vstd::prelude::*;

use super::types::Asset;
use crate::text::{contains_text, str_contains};

verus! {

/// The market search query for an asset.
pub open spec fn search_query_of(a: Asset) -> Seq<char> {
    match a {
        Asset::BTC => "Bitcoin price"@,
        Asset::ETH => "Ethereum price"@,
        Asset::XRP => "XRP price"@,
        Asset::SOL => "Solana price"@,
        Asset::Gold => "Gold price"@,
    }
}

/// Get search query for an asset
pub fn asset_search_query(asset: Asset) -> (q: String)
    ensures
        q@ == search_query_of(asset),
{
    let q = match asset {
        Asset::BTC => "Bitcoin price",
        Asset::ETH => "Ethereum price",
        Asset::XRP => "XRP price",
        Asset::SOL => "Solana price",
        Asset::Gold => "Gold price",
    };
    String::from_str(q)
}

/// How a market outcome leans.
#[derive(Debug, Clone, Copy, PartialEq, Eq, Structural)]
pub enum OutcomeBias {
    /// The outcome bets on a rise
    Bullish,
    /// The outcome bets on a fall
    Bearish,
    /// Neither
    Neutral,
}

/// How an outcome name, already in lower case, leans: bullish when it
/// mentions "up", "bull", "higher" or "yes"; otherwise bearish when it
/// mentions "down", "bear", "lower" or "no"; otherwise neutral.
pub open spec fn bias_of_lowercase(name: Seq<char>) -> OutcomeBias {
    if contains_text(name, "up"@) || contains_text(name, "bull"@) || contains_text(
        name,
        "higher"@,
    ) || contains_text(name, "yes"@) {
        OutcomeBias::Bullish
    } else if contains_text(name, "down"@) || contains_text(name, "bear"@) || contains_text(
        name,
        "lower"@,
    ) || contains_text(name, "no"@) {
        OutcomeBias::Bearish
    } else {
        OutcomeBias::Neutral
    }
}

/// Classify an outcome name that is already in lower case.
pub fn classify_lowercase_outcome(name: &str) -> (b: OutcomeBias)
    ensures
        b == bias_of_lowercase(name@),
{
    if str_contains(name, "up") || str_contains(name, "bull") || str_contains(name, "higher")
        || str_contains(name, "yes") {
        OutcomeBias::Bullish
    } else if str_contains(name, "down") || str_contains(name, "bear") || str_contains(
        name,
        "lower",
    ) || str_contains(name, "no") {
        OutcomeBias::Bearish
    } else {
        OutcomeBias::Neutral
    }
}

/// The lower-case form of a text, as `str::to_lowercase` computes it.
pub uninterp spec fn lowercase_text(s: Seq<char>) -> Seq<char>;

/// `str::to_lowercase`: the Unicode lower-case mapping of the text. Its result
/// is named (`lowercase_text`), as the mapping follows Unicode's tables.
#[verifier::external_body]
fn to_lowercase(s: &str) -> (r: String)
    ensures
        r@ == lowercase_text(s@),
{
    s.to_lowercase()
}

/// Classify a market outcome name, ignoring case.
pub fn outcome_bias(outcome: &str) -> (b: OutcomeBias)
    ensures
        b == bias_of_lowercase(lowercase_text(outcome@)),
{
    let lower = to_lowercase(outcome);
    classify_lowercase_outcome(lower.as_str())
}

/// The last position of `biases` that holds `Some(wanted)`.
pub open spec fn last_position(biases: Seq<Option<OutcomeBias>>, wanted: OutcomeBias) -> Option<
    int,
>
    decreases biases.len(),
{
    if biases.len() == 0 {
        None
    } else if biases.last() == Some(wanted) {
        Some(biases.len() - 1)
    } else {
        last_position(biases.drop_last(), wanted)
    }
}

/// The tokens whose prices make up a market's sentiment.
#[derive(Debug, Clone, Copy, PartialEq, Eq)]
pub struct SentimentSources {
    /// Token whose price counts as the bullish price
    pub bullish: Option<usize>,
    /// Token whose price counts as the bearish price
    pub bearish: Option<usize>,
}

/// Choose the tokens that make up a market's sentiment, given for each token
/// the lean of its outcome, or `None` when the token has no usable price:
/// the last bullish token and the last bearish token.
pub fn sentiment_sources(biases: &Vec<Option<OutcomeBias>>) -> (s: SentimentSources)
    ensures
        s.bullish matches Some(i) ==> last_position(biases@, OutcomeBias::Bullish) == Some(
            i as int,
        ),
        s.bullish is None ==> last_position(biases@, OutcomeBias::Bullish) is None,
        s.bearish matches Some(i) ==> last_position(biases@, OutcomeBias::Bearish) == Some(
            i as int,
        ),
        s.bearish is None ==> last_position(biases@, OutcomeBias::Bearish) is None,
{
    let mut bullish: Option<usize> = None;
    let mut bearish: Option<usize> = None;
    let mut i: usize = 0;
    while i < biases.len()
        invariant
            i <= biases@.len(),
            bullish matches Some(k) ==> last_position(
                biases@.take(i as int),
                OutcomeBias::Bullish,
            ) == Some(k as int),
            bullish is None ==> last_position(biases@.take(i as int), OutcomeBias::Bullish) is None,
            bearish matches Some(k) ==> last_position(
                biases@.take(i as int),
                OutcomeBias::Bearish,
            ) == Some(k as int),
            bearish is None ==> last_position(biases@.take(i as int), OutcomeBias::Bearish) is None,
        decreases biases@.len() - i,
    {
        assert(biases@.take(i + 1).drop_last() =~= biases@.take(i as int));
        assert(biases@.take(i + 1).last() == biases@[i as int]);
        match biases[i] {
            Some(OutcomeBias::Bullish) => {
                bullish = Some(i);
            },
            Some(OutcomeBias::Bearish) => {
                bearish = Some(i);
            },
            _ => {},
        }
        i = i + 1;
    }
    assert(biases@.take(biases@.len() as int) =~= biases@);
    SentimentSources { bullish, bearish }
}

/// Reading an outcome name: any of the words "up", "bull", "higher", "yes"
/// makes it bullish; failing those, any of "down", "bear", "lower", "no" makes
/// it bearish; a name with none of these words is neutral.
pub proof fn lemma_outcome_words(name: Seq<char>)
    ensures
        contains_text(name, "up"@) || contains_text(name, "bull"@) || contains_text(
            name,
            "higher"@,
        ) || contains_text(name, "yes"@) ==> bias_of_lowercase(name) == OutcomeBias::Bullish,
        !(contains_text(name, "up"@) || contains_text(name, "bull"@) || contains_text(
            name,
            "higher"@,
        ) || contains_text(name, "yes"@)) && (contains_text(name, "down"@) || contains_text(
            name,
            "bear"@,
        ) || contains_text(name, "lower"@) || contains_text(name, "no"@))
            ==> bias_of_lowercase(name) == OutcomeBias::Bearish,
        bias_of_lowercase(name) == OutcomeBias::Neutral <==> !(contains_text(name, "up"@)
            || contains_text(name, "bull"@) || contains_text(name, "higher"@) || contains_text(
            name,
            "yes"@,
        ) || contains_text(name, "down"@) || contains_text(name, "bear"@) || contains_text(
            name,
            "lower"@,
        ) || contains_text(name, "no"@)),
{
}

/// The token chosen for a side is the last token of that side: it has that
/// side, no later token has it, and no token is chosen exactly when no token
/// has that side. Every token, the last one included, is looked at.
pub proof fn lemma_last_position_is_last(biases: Seq<Option<OutcomeBias>>, wanted: OutcomeBias)
    ensures
        last_position(biases, wanted) matches Some(i) ==> 0 <= i < biases.len() && biases[i]
            == Some(wanted) && forall|j: int| i < j < biases.len() ==> biases[j] != Some(wanted),
        last_position(biases, wanted) is None <==> forall|j: int|
            0 <= j < biases.len() ==> biases[j] != Some(wanted),
        biases.len() > 0 && biases[biases.len() - 1] == Some(wanted) ==> last_position(
            biases,
            wanted,
        ) == Some(biases.len() - 1),
    decreases biases.len(),
{
    if biases.len() > 0 {
        let init = biases.drop_last();
        lemma_last_position_is_last(init, wanted);
        if biases.last() != Some(wanted) {
            if last_position(init, wanted) is None {
                assert forall|j: int| 0 <= j < biases.len() implies biases[j] != Some(wanted) by {
                    if j < biases.len() - 1 {
                        assert(init[j] == biases[j]);
                    }
                }
            } else {
                let i = last_position(init, wanted)->0;
                assert(init[i] == biases[i]);
                assert forall|j: int| i < j < biases.len() implies biases[j] != Some(wanted) by {
                    if j < biases.len() - 1 {
                        assert(init[j] == biases[j]);
                    }
                }
                assert(biases[i] == Some(wanted));
            }
            if forall|j: int| 0 <= j < biases.len() ==> biases[j] != Some(wanted) {
                assert forall|j: int| 0 <= j < init.len() implies init[j] != Some(wanted) by {
                    assert(init[j] == biases[j]);
                }
            }
        } else {
            assert(biases[biases.len() - 1] == Some(wanted));
        }
    }
}

} // verus!

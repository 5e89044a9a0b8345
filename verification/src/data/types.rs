use vstd::prelude::*;

verus! {

/// Supported market assets.
#[derive(Debug, Clone, Copy, PartialEq, Eq, Hash, Structural)]
pub enum Asset {
    BTC,
    ETH,
    XRP,
    SOL,
    /// Gold (XAU)
    Gold,
}

/// Number of supported assets.
pub const ASSET_COUNT: usize = 5;

/// The graph index of each asset.
pub open spec fn asset_index(a: Asset) -> nat {
    match a {
        Asset::BTC => 0,
        Asset::ETH => 1,
        Asset::XRP => 2,
        Asset::SOL => 3,
        Asset::Gold => 4,
    }
}

/// The asset stored at a graph index, if any.
pub open spec fn asset_at(idx: int) -> Option<Asset> {
    if idx == 0 {
        Some(Asset::BTC)
    } else if idx == 1 {
        Some(Asset::ETH)
    } else if idx == 2 {
        Some(Asset::XRP)
    } else if idx == 3 {
        Some(Asset::SOL)
    } else if idx == 4 {
        Some(Asset::Gold)
    } else {
        None
    }
}

/// The Kraken trading pair of each asset.
pub open spec fn kraken_symbol_of(a: Asset) -> Seq<char> {
    match a {
        Asset::BTC => "XBT/USD"@,
        Asset::ETH => "ETH/USD"@,
        Asset::XRP => "XRP/USD"@,
        Asset::SOL => "SOL/USD"@,
        Asset::Gold => "XAU/USD"@,
    }
}

/// All assets, in graph-index order.
pub open spec fn all_assets() -> Seq<Asset> {
    seq![Asset::BTC, Asset::ETH, Asset::XRP, Asset::SOL, Asset::Gold]
}

impl Asset {
    /// Get Kraken trading pair symbol
    pub fn kraken_symbol(&self) -> (s: &'static str)
        ensures
            s@ == kraken_symbol_of(*self),
    {
        match self {
            Asset::BTC => "XBT/USD",
            Asset::ETH => "ETH/USD",
            Asset::XRP => "XRP/USD",
            Asset::SOL => "SOL/USD",
            Asset::Gold => "XAU/USD",
        }
    }

    /// Get all supported assets
    pub fn all() -> (v: Vec<Asset>)
        ensures
            v@ == all_assets(),
    {
        vec![Asset::BTC, Asset::ETH, Asset::XRP, Asset::SOL, Asset::Gold]
    }

    /// Convert to index for graph structure
    pub fn to_index(&self) -> (i: usize)
        ensures
            i == asset_index(*self),
    {
        match self {
            Asset::BTC => 0,
            Asset::ETH => 1,
            Asset::XRP => 2,
            Asset::SOL => 3,
            Asset::Gold => 4,
        }
    }

    /// Get from index
    pub fn from_index(idx: usize) -> (a: Option<Asset>)
        ensures
            a == asset_at(idx as int),
    {
        match idx {
            0 => Some(Asset::BTC),
            1 => Some(Asset::ETH),
            2 => Some(Asset::XRP),
            3 => Some(Asset::SOL),
            4 => Some(Asset::Gold),
            _ => None,
        }
    }
}

/// Side of an executed trade.
#[derive(Debug, Clone, Copy, PartialEq, Eq, Hash, Structural)]
pub enum TradeSide {
    Buy,
    Sell,
}

/// `from_index` inverts `to_index`: every asset is found again at its index.
pub proof fn lemma_index_round_trip(a: Asset)
    ensures
        asset_at(asset_index(a) as int) == Some(a),
        asset_index(a) < ASSET_COUNT,
{
}

/// `to_index` inverts `from_index`: an index that names an asset is that
/// asset's index, and exactly the indices below the asset count name one.
pub proof fn lemma_index_inverse(idx: int)
    ensures
        asset_at(idx) is Some <==> 0 <= idx < ASSET_COUNT,
        asset_at(idx) is Some ==> asset_index(asset_at(idx)->0) == idx,
{
}

/// `all` lists every asset exactly once, each at its own graph index.
pub proof fn lemma_all_assets_indexed(a: Asset)
    ensures
        all_assets().len() == ASSET_COUNT,
        all_assets()[asset_index(a) as int] == a,
        all_assets().contains(a),
        forall|i: int, j: int|
            0 <= i < j < all_assets().len() ==> all_assets()[i] != all_assets()[j],
{
    assert(all_assets()[asset_index(a) as int] == a);
}

/// Distinct assets trade under distinct Kraken symbols.
pub proof fn lemma_kraken_symbols_distinct(a: Asset, b: Asset)
    ensures
        kraken_symbol_of(a) == kraken_symbol_of(b) ==> a == b,
{
    reveal_strlit("XBT/USD");
    reveal_strlit("ETH/USD");
    reveal_strlit("XRP/USD");
    reveal_strlit("SOL/USD");
    reveal_strlit("XAU/USD");
    if a != b {
        assert(kraken_symbol_of(a)[0] != kraken_symbol_of(b)[0] || kraken_symbol_of(a)[1]
            != kraken_symbol_of(b)[1]);
    }
}

} // verus!

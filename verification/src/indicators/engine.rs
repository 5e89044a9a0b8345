//! Multi-timescale indicator scheduling: which indicator is computed at which
//! period, and how many features the engine yields.
use vstd::prelude::*;

verus! {

/// Configuration for indicator timescales
#[derive(Debug, Clone)]
pub struct TimescaleConfig {
    /// Very short term: scalping, microstructure
    pub very_short: Vec<usize>,
    /// Short term: day trading
    pub short: Vec<usize>,
    /// Medium term: swing trading
    pub medium: Vec<usize>,
    /// Long term: position trading
    pub long: Vec<usize>,
}

impl TimescaleConfig {
    /// All configured periods, from very short to long.
    pub open spec fn periods(&self) -> Seq<usize> {
        self.very_short@ + self.short@ + self.medium@ + self.long@
    }

    /// Get all periods as a flat list
    pub fn all_periods(&self) -> (v: Vec<usize>)
        ensures
            v@ == self.periods(),
    {
        let mut periods: Vec<usize> = Vec::new();
        append_all(&mut periods, &self.very_short);
        append_all(&mut periods, &self.short);
        append_all(&mut periods, &self.medium);
        append_all(&mut periods, &self.long);
        periods
    }

    /// Get total number of periods
    pub fn count(&self) -> (n: usize)
        requires
            self.very_short@.len() + self.short@.len() + self.medium@.len() + self.long@.len()
                <= usize::MAX,
        ensures
            n == self.periods().len(),
    {
        self.very_short.len() + self.short.len() + self.medium.len() + self.long.len()
    }
}

impl Default for TimescaleConfig {
    fn default() -> (c: Self)
        ensures
            c.very_short@ == seq![5usize, 10, 14, 20],
            c.short@ == seq![30usize, 50],
            c.medium@ == seq![100usize, 200],
            c.long@ == seq![500usize],
    {
        TimescaleConfig {
            very_short: vec![5, 10, 14, 20],
            short: vec![30, 50],
            medium: vec![100, 200],
            long: vec![500],
        }
    }
}

fn append_all(out: &mut Vec<usize>, src: &Vec<usize>)
    ensures
        final(out)@ == old(out)@ + src@,
{
    let mut i: usize = 0;
    while i < src.len()
        invariant
            i <= src@.len(),
            out@ == old(out)@ + src@.take(i as int),
        decreases src@.len() - i,
    {
        out.push(src[i]);
        assert(src@.take(i + 1) =~= src@.take(i as int).push(src@[i as int]));
        i = i + 1;
    }
    assert(src@.take(src@.len() as int) =~= src@);
}

/// The periods of `ps` that satisfy `keep`, in order.
pub open spec fn select(ps: Seq<usize>, keep: spec_fn(usize) -> bool) -> Seq<usize>
    decreases ps.len(),
{
    if ps.len() == 0 {
        Seq::empty()
    } else if keep(ps.last()) {
        select(ps.drop_last(), keep).push(ps.last())
    } else {
        select(ps.drop_last(), keep)
    }
}

/// Periods at which MACD is computed (slow period is twice the fast one).
pub open spec fn macd_periods() -> Seq<usize> {
    seq![12usize, 26, 50, 100]
}

/// Periods at which the stochastic oscillator and ADX are computed.
pub open spec fn oscillator_periods() -> Seq<usize> {
    seq![14usize, 20, 50]
}

/// Periods at which the volume indicators are computed.
pub open spec fn volume_periods() -> Seq<usize> {
    seq![10usize, 20, 50]
}

/// Horizons at which returns are computed.
pub open spec fn return_horizons() -> Seq<usize> {
    seq![1usize, 5, 10, 20, 50]
}

/// Window of the Fibonacci retracement feature.
pub const FIBONACCI_WINDOW: usize = 100;

/// Which indicators an engine computes, and at which periods, for series of
/// given lengths.
#[derive(Debug, Clone)]
pub struct IndicatorPlan {
    /// RSI periods
    pub rsi: Vec<usize>,
    /// MACD fast periods (yielding MACD and histogram)
    pub macd: Vec<usize>,
    /// Bollinger periods (yielding bandwidth and %B)
    pub bollinger: Vec<usize>,
    /// ATR periods
    pub atr: Vec<usize>,
    /// Moving-average periods (yielding SMA and EMA)
    pub moving_average: Vec<usize>,
    /// Stochastic periods
    pub stochastic: Vec<usize>,
    /// Whether the Fibonacci distance is computed
    pub fibonacci: bool,
    /// ADX periods
    pub adx: Vec<usize>,
    /// Volume rate-of-change periods
    pub volume_roc: Vec<usize>,
    /// Money-flow-index periods
    pub mfi: Vec<usize>,
    /// Return horizons
    pub returns: Vec<usize>,
}

impl IndicatorPlan {
    /// Number of features the plan yields: one per RSI, ATR, stochastic, ADX,
    /// volume and return entry, two per MACD, Bollinger and moving-average
    /// entry, and the Fibonacci distance, which is always present.
    pub open spec fn feature_count(&self) -> nat {
        self.rsi@.len() + 2 * self.macd@.len() + 2 * self.bollinger@.len() + self.atr@.len() + 2
            * self.moving_average@.len() + self.stochastic@.len() + 1 + self.adx@.len()
            + self.volume_roc@.len() + self.mfi@.len() + self.returns@.len()
    }
}

/// Expected feature dimension for `n` configured periods.
pub open spec fn dimension_for(n: nat) -> nat {
    6 * n + 26
}

/// Multi-timescale indicator engine
pub struct IndicatorEngine {
    config: TimescaleConfig,
}

impl IndicatorEngine {
    /// The configured periods.
    pub closed spec fn periods(&self) -> Seq<usize> {
        self.config.periods()
    }

    /// `p` is the plan for series of the given lengths (close, high, volume):
    /// each indicator is scheduled at the periods its series is long enough for,
    /// and the volume indicators only when there is volume data at all.
    pub open spec fn is_plan_for(
        &self,
        p: IndicatorPlan,
        close_len: usize,
        high_len: usize,
        volume_len: usize,
    ) -> bool {
        &&& p.rsi@ == select(self.periods(), |q: usize| q < close_len)
        &&& p.macd@ == select(macd_periods(), |q: usize| 2 * q < close_len)
        &&& p.bollinger@ == select(self.periods(), |q: usize| q < close_len)
        &&& p.atr@ == select(self.periods(), |q: usize| q < high_len)
        &&& p.moving_average@ == select(self.periods(), |q: usize| q <= close_len)
        &&& p.stochastic@ == select(oscillator_periods(), |q: usize| q < high_len)
        &&& p.fibonacci == (FIBONACCI_WINDOW < close_len)
        &&& p.adx@ == select(oscillator_periods(), |q: usize| q < high_len)
        &&& p.volume_roc@ == select(
            volume_periods(),
            |q: usize| 0 < volume_len && q < volume_len,
        )
        &&& p.mfi@ == select(volume_periods(), |q: usize| 0 < volume_len && q < high_len)
        &&& p.returns@ == select(return_horizons(), |q: usize| q < close_len)
    }

    /// The series are long enough for every scheduled indicator at every period.
    pub open spec fn history_suffices(&self, close_len: usize, high_len: usize, volume_len: usize) -> bool {
        &&& close_len > 2 * 100
        &&& high_len > 50
        &&& volume_len > 50
        &&& forall|i: int|
            0 <= i < self.periods().len() ==> #[trigger] self.periods()[i] < close_len
                && self.periods()[i] < high_len
    }

    /// Create a new indicator engine
    pub fn new(config: TimescaleConfig) -> (e: Self)
        ensures
            e.periods() == config.periods(),
    {
        IndicatorEngine { config }
    }

    /// Create with default timescales
    pub fn default() -> (e: Self)
        ensures
            e.periods() == seq![5usize, 10, 14, 20, 30, 50, 100, 200, 500],
    {
        let e = Self::new(TimescaleConfig::default());
        assert(e.periods() =~= seq![5usize, 10, 14, 20, 30, 50, 100, 200, 500]);
        e
    }

    /// Get expected feature dimension from this engine
    pub fn feature_dimension(&self) -> (d: usize)
        requires
            dimension_for(self.periods().len()) <= usize::MAX,
        ensures
            d == dimension_for(self.periods().len()),
    {
        let n_periods = self.config.count();
        // RSI: all periods
        let rsi_dim = n_periods;
        // MACD: 4 timescales (12, 26, 50, 100), macd + histogram
        let macd_dim: usize = 4 * 2;
        // Bollinger: all periods (bandwidth + %B)
        let bb_dim = n_periods * 2;
        // ATR: all periods
        let atr_dim = n_periods;
        // Moving averages: all periods (SMA + EMA)
        let ma_dim = n_periods * 2;
        // Stochastic: 3 periods
        let stoch_dim: usize = 3;
        // Fibonacci: 1
        let fib_dim: usize = 1;
        // ADX: 3 periods
        let adx_dim: usize = 3;
        // Volume: 3 periods (ROC + MFI)
        let vol_dim: usize = 3 * 2;
        // Returns: 5 periods
        let ret_dim: usize = 5;
        rsi_dim + macd_dim + bb_dim + atr_dim + ma_dim + stoch_dim + fib_dim + adx_dim + vol_dim
            + ret_dim
    }
}

/// The periods of `ps` below `bound`, in order.
fn periods_below(ps: &Vec<usize>, bound: usize) -> (v: Vec<usize>)
    ensures
        v@ == select(ps@, |p: usize| p < bound),
{
    let ghost keep = |p: usize| p < bound;
    let mut out: Vec<usize> = Vec::new();
    let mut i: usize = 0;
    while i < ps.len()
        invariant
            i <= ps@.len(),
            out@ == select(ps@.take(i as int), keep),
            keep == (|p: usize| p < bound),
        decreases ps@.len() - i,
    {
        assert(ps@.take(i + 1).drop_last() =~= ps@.take(i as int));
        assert(ps@.take(i + 1).last() == ps@[i as int]);
        if ps[i] < bound {
            out.push(ps[i]);
        }
        i = i + 1;
    }
    assert(ps@.take(ps@.len() as int) =~= ps@);
    out
}

/// The periods of `ps` not above `bound`, in order.
fn periods_not_above(ps: &Vec<usize>, bound: usize) -> (v: Vec<usize>)
    ensures
        v@ == select(ps@, |p: usize| p <= bound),
{
    let ghost keep = |p: usize| p <= bound;
    let mut out: Vec<usize> = Vec::new();
    let mut i: usize = 0;
    while i < ps.len()
        invariant
            i <= ps@.len(),
            out@ == select(ps@.take(i as int), keep),
            keep == (|p: usize| p <= bound),
        decreases ps@.len() - i,
    {
        assert(ps@.take(i + 1).drop_last() =~= ps@.take(i as int));
        assert(ps@.take(i + 1).last() == ps@[i as int]);
        if ps[i] <= bound {
            out.push(ps[i]);
        }
        i = i + 1;
    }
    assert(ps@.take(ps@.len() as int) =~= ps@);
    out
}

/// The periods of `ps` whose double is below `bound`, in order.
fn periods_doubled_below(ps: &Vec<usize>, bound: usize) -> (v: Vec<usize>)
    ensures
        v@ == select(ps@, |p: usize| 2 * p < bound),
{
    let ghost keep = |p: usize| 2 * p < bound;
    let mut out: Vec<usize> = Vec::new();
    let mut i: usize = 0;
    while i < ps.len()
        invariant
            i <= ps@.len(),
            out@ == select(ps@.take(i as int), keep),
            keep == (|p: usize| 2 * p < bound),
        decreases ps@.len() - i,
    {
        assert(ps@.take(i + 1).drop_last() =~= ps@.take(i as int));
        assert(ps@.take(i + 1).last() == ps@[i as int]);
        if ps[i] < bound / 2 + bound % 2 {
            out.push(ps[i]);
        }
        i = i + 1;
    }
    assert(ps@.take(ps@.len() as int) =~= ps@);
    out
}

impl IndicatorEngine {
    /// Decide which indicators are computed at which periods for series of the
    /// given lengths: a period is used only when the series is long enough for
    /// it, and the volume indicators only when there is volume data at all.
    pub fn plan(&self, close_len: usize, high_len: usize, volume_len: usize) -> (p: IndicatorPlan)
        ensures
            self.is_plan_for(p, close_len, high_len, volume_len),
    {
        let periods = self.config.all_periods();
        let macd_ps: Vec<usize> = vec![12, 26, 50, 100];
        let osc_ps: Vec<usize> = vec![14, 20, 50];
        let vol_ps: Vec<usize> = vec![10, 20, 50];
        let ret_ps: Vec<usize> = vec![1, 5, 10, 20, 50];
        let (volume_roc, mfi) = if volume_len > 0 {
            proof {
                lemma_select_ext(vol_ps@, |q: usize| q < volume_len, |q: usize| 0 < volume_len && q
                    < volume_len);
                lemma_select_ext(vol_ps@, |q: usize| q < high_len, |q: usize| 0 < volume_len && q
                    < high_len);
            }
            (periods_below(&vol_ps, volume_len), periods_below(&vol_ps, high_len))
        } else {
            proof {
                lemma_select_ext(vol_ps@, |q: usize| q < 0usize, |q: usize| 0 < volume_len && q
                    < volume_len);
                lemma_select_ext(vol_ps@, |q: usize| q < 0usize, |q: usize| 0 < volume_len && q
                    < high_len);
            }
            (periods_below(&vol_ps, 0), periods_below(&vol_ps, 0))
        };
        IndicatorPlan {
            rsi: periods_below(&periods, close_len),
            macd: periods_doubled_below(&macd_ps, close_len),
            bollinger: periods_below(&periods, close_len),
            atr: periods_below(&periods, high_len),
            moving_average: periods_not_above(&periods, close_len),
            stochastic: periods_below(&osc_ps, high_len),
            fibonacci: FIBONACCI_WINDOW < close_len,
            adx: periods_below(&osc_ps, high_len),
            volume_roc,
            mfi,
            returns: periods_below(&ret_ps, close_len),
        }
    }
}

/// Selecting with two filters that agree on every period gives the same periods.
proof fn lemma_select_ext(ps: Seq<usize>, f: spec_fn(usize) -> bool, g: spec_fn(usize) -> bool)
    requires
        forall|i: int| 0 <= i < ps.len() ==> f(ps[i]) == g(ps[i]),
    ensures
        select(ps, f) == select(ps, g),
    decreases ps.len(),
{
    if ps.len() > 0 {
        lemma_select_ext(ps.drop_last(), f, g);
        assert(f(ps[ps.len() - 1]) == g(ps[ps.len() - 1]));
    }
}

/// A selection never holds more periods than it selects from, and holds all of
/// them when every period passes the filter.
pub proof fn lemma_select_len(ps: Seq<usize>, keep: spec_fn(usize) -> bool)
    ensures
        select(ps, keep).len() <= ps.len(),
        (forall|i: int| 0 <= i < ps.len() ==> #[trigger] keep(ps[i])) ==> select(ps, keep) == ps,
    decreases ps.len(),
{
    if ps.len() > 0 {
        lemma_select_len(ps.drop_last(), keep);
        if forall|i: int| 0 <= i < ps.len() ==> #[trigger] keep(ps[i]) {
            assert forall|i: int| 0 <= i < ps.drop_last().len() implies #[trigger] keep(
                ps.drop_last()[i],
            ) by {
                assert(keep(ps[i]));
            }
            assert(keep(ps[ps.len() - 1]));
            assert(ps.drop_last().push(ps.last()) =~= ps);
        }
    }
}

/// `feature_dimension` bounds the features any plan yields, and is exactly the
/// number of features planned once the history is long enough.
pub proof fn lemma_plan_dimension(
    e: &IndicatorEngine,
    p: IndicatorPlan,
    close_len: usize,
    high_len: usize,
    volume_len: usize,
)
    requires
        e.is_plan_for(p, close_len, high_len, volume_len),
    ensures
        p.feature_count() <= dimension_for(e.periods().len()),
        e.history_suffices(close_len, high_len, volume_len) ==> p.feature_count()
            == dimension_for(e.periods().len()),
{
    let ps = e.periods();
    lemma_select_len(ps, |q: usize| q < close_len);
    lemma_select_len(macd_periods(), |q: usize| 2 * q < close_len);
    lemma_select_len(ps, |q: usize| q < high_len);
    lemma_select_len(ps, |q: usize| q <= close_len);
    lemma_select_len(oscillator_periods(), |q: usize| q < high_len);
    lemma_select_len(volume_periods(), |q: usize| 0 < volume_len && q < volume_len);
    lemma_select_len(volume_periods(), |q: usize| 0 < volume_len && q < high_len);
    lemma_select_len(return_horizons(), |q: usize| q < close_len);
    if e.history_suffices(close_len, high_len, volume_len) {
        let f1 = |q: usize| q <= close_len;
        let f2 = |q: usize| q < close_len;
        let f3 = |q: usize| q < high_len;
        assert forall|i: int| 0 <= i < ps.len() implies #[trigger] f1(ps[i]) by {
            assert(ps[i] < close_len);
        }
        assert forall|i: int| 0 <= i < ps.len() implies #[trigger] f2(ps[i]) by {
            assert(ps[i] < close_len);
        }
        assert forall|i: int| 0 <= i < ps.len() implies #[trigger] f3(ps[i]) by {
            assert(ps[i] < high_len);
        }
        lemma_select_len(ps, f1);
        lemma_select_len(ps, f2);
        lemma_select_len(ps, f3);
    }
}

/// A selection holds exactly the periods that pass the filter.
pub proof fn lemma_select_members(ps: Seq<usize>, keep: spec_fn(usize) -> bool)
    ensures
        forall|q: usize| #[trigger] select(ps, keep).contains(q) <==> ps.contains(q) && keep(q),
    decreases ps.len(),
{
    if ps.len() > 0 {
        let init = ps.drop_last();
        lemma_select_members(init, keep);
        let si = select(init, keep);
        let sp = select(ps, keep);
        assert(sp == if keep(ps.last()) {
            si.push(ps.last())
        } else {
            si
        });
        assert(sp.len() >= si.len());
        assert forall|m: int| 0 <= m < si.len() implies sp[m] == si[m] by {}
        assert forall|q: usize| #[trigger] sp.contains(q) <==> ps.contains(q) && keep(q) by {
            if ps.contains(q) && keep(q) {
                let k = choose|k: int| 0 <= k < ps.len() && ps[k] == q;
                if k < ps.len() - 1 {
                    assert(init[k] == q);
                    assert(init.contains(q));
                    assert(si.contains(q));
                    let m = choose|m: int| 0 <= m < si.len() && si[m] == q;
                    assert(sp[m] == q);
                    assert(sp.contains(q));
                } else {
                    assert(sp[sp.len() - 1] == q);
                }
            }
            if sp.contains(q) {
                let m = choose|m: int| 0 <= m < sp.len() && sp[m] == q;
                if m < si.len() {
                    assert(si[m] == q);
                    assert(si.contains(q));
                    let k = choose|k: int| 0 <= k < init.len() && init[k] == q;
                    assert(ps[k] == q);
                } else {
                    assert(ps[ps.len() - 1] == q);
                }
            }
        }
    }
}

/// What a plan schedules, field by field: each indicator runs exactly at the
/// periods its series is long enough for. A return over `h` bars needs `h + 1`
/// closes; RSI and Bollinger need one close more than their period; a moving
/// average needs as many closes as its period; MACD at fast period `p` needs
/// more than `2p` closes; ATR, stochastic, ADX and MFI need one high more than
/// their period; volume rate of change needs one volume more than its period;
/// the volume indicators run only with volume data; the Fibonacci distance
/// needs more than 100 closes.
pub proof fn lemma_plan_schedule(
    e: &IndicatorEngine,
    p: IndicatorPlan,
    close_len: usize,
    high_len: usize,
    volume_len: usize,
)
    requires
        e.is_plan_for(p, close_len, high_len, volume_len),
    ensures
        forall|q: usize| #[trigger] p.returns@.contains(q) <==> seq![1usize, 5, 10, 20, 50].contains(q)
            && q < close_len,
        forall|q: usize| #[trigger] p.rsi@.contains(q) <==> e.periods().contains(q) && q < close_len,
        forall|q: usize| #[trigger] p.bollinger@.contains(q) <==> e.periods().contains(q) && q
            < close_len,
        forall|q: usize| #[trigger] p.moving_average@.contains(q) <==> e.periods().contains(q) && q
            <= close_len,
        forall|q: usize| #[trigger] p.macd@.contains(q) <==> seq![12usize, 26, 50, 100].contains(q)
            && 2 * q < close_len,
        forall|q: usize| #[trigger] p.atr@.contains(q) <==> e.periods().contains(q) && q < high_len,
        forall|q: usize| #[trigger] p.stochastic@.contains(q) <==> seq![14usize, 20, 50].contains(q)
            && q < high_len,
        forall|q: usize| #[trigger] p.adx@.contains(q) <==> seq![14usize, 20, 50].contains(q) && q
            < high_len,
        forall|q: usize| #[trigger] p.volume_roc@.contains(q) <==> seq![10usize, 20, 50].contains(q)
            && 0 < volume_len && q < volume_len,
        forall|q: usize| #[trigger] p.mfi@.contains(q) <==> seq![10usize, 20, 50].contains(q) && 0
            < volume_len && q < high_len,
        p.fibonacci <==> 100 < close_len,
{
    lemma_select_members(e.periods(), |q: usize| q < close_len);
    lemma_select_members(e.periods(), |q: usize| q <= close_len);
    lemma_select_members(e.periods(), |q: usize| q < high_len);
    lemma_select_members(macd_periods(), |q: usize| 2 * q < close_len);
    lemma_select_members(oscillator_periods(), |q: usize| q < high_len);
    lemma_select_members(volume_periods(), |q: usize| 0 < volume_len && q < volume_len);
    lemma_select_members(volume_periods(), |q: usize| 0 < volume_len && q < high_len);
    lemma_select_members(return_horizons(), |q: usize| q < close_len);
    assert(macd_periods() =~= seq![12usize, 26, 50, 100]);
    assert(oscillator_periods() =~= seq![14usize, 20, 50]);
    assert(volume_periods() =~= seq![10usize, 20, 50]);
    assert(return_horizons() =~= seq![1usize, 5, 10, 20, 50]);
}

} // verus!

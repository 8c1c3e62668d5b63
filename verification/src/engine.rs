//! The Ichimoku Cloud engine: running extrema over three look-back windows
//! and the five indicator lines derived from them.
//!
//! The engine keeps, for each window, the minimum low and maximum high over
//! every candlestick committed so far (the windows gate only when results are
//! emitted; old extrema are never evicted). A bulk pass commits every candle
//! of a historical batch; a single-step update commits a candle only when it
//! is `Closed`, while an `Open` candle influences nothing but the values
//! returned for that call.

use vstd::prelude::*;
use crate::candle::Candlestick;
use crate::candle::CandlestickState;
use crate::rounding::PRICE_LIMIT;
use crate::rounding::round8_q;
use crate::rounding::round8_quarter_ticks;

verus! {

/// The three window lengths, in candles. Valid when each is positive and
/// `short_period <= medium_period <= long_period`.
#[derive(Clone, Copy, Debug, PartialEq, Eq, Structural)]
pub struct IchimokuCloudParameters {
    pub short_period: usize,
    pub medium_period: usize,
    pub long_period: usize,
}

pub open spec fn params_valid(p: IchimokuCloudParameters) -> bool {
    1 <= p.short_period <= p.medium_period <= p.long_period
}

/// The one way construction can fail: window lengths that are zero or not
/// ordered `short <= medium <= long`.
#[derive(Clone, Copy, Debug, PartialEq, Eq, Structural)]
pub enum IchimokuCloudError {
    InvalidParameters,
}

/// The five indicator lines, each rounded to 8 decimal places, as counts of
/// ticks (10^-8 of a price unit).
#[derive(Clone, Copy, Debug, PartialEq, Eq, Structural)]
pub struct IchimokuCloudResult {
    pub tenkan_sen: i64,
    pub kijun_sen: i64,
    pub senkou_span_a: i64,
    pub senkou_span_b: i64,
    pub chikou_span: i64,
}

/// A read-only snapshot of the engine's persisted extrema and parameters.
#[derive(Clone, Copy, Debug, PartialEq, Eq, Structural)]
pub struct IchimokuCloudState {
    pub short_period_min: i64,
    pub short_period_max: i64,
    pub medium_period_min: i64,
    pub medium_period_max: i64,
    pub long_period_min: i64,
    pub long_period_max: i64,
    pub parameters: IchimokuCloudParameters,
}

/// Mathematical model of the six running extrema.
pub ghost struct ExtremaV {
    pub short_min: int,
    pub short_max: int,
    pub medium_min: int,
    pub medium_max: int,
    pub long_min: int,
    pub long_max: int,
}

/// Mathematical model of the parameters.
pub ghost struct ParamsV {
    pub short: int,
    pub medium: int,
    pub long: int,
}

/// Mathematical model of the whole engine: extrema, committed-candle count,
/// and parameters.
pub ghost struct EngineV {
    pub extrema: ExtremaV,
    pub count: int,
    pub params: ParamsV,
}

pub open spec fn min2(a: int, b: int) -> int {
    if a <= b {
        a
    } else {
        b
    }
}

pub open spec fn max2(a: int, b: int) -> int {
    if a >= b {
        a
    } else {
        b
    }
}

/// The extrema of a fresh engine: sentinels that any price displaces.
pub open spec fn init_extrema() -> ExtremaV {
    ExtremaV {
        short_min: i64::MAX as int,
        short_max: i64::MIN as int,
        medium_min: i64::MAX as int,
        medium_max: i64::MIN as int,
        long_min: i64::MAX as int,
        long_max: i64::MIN as int,
    }
}

/// One candle's low and high folded into all six extrema.
pub open spec fn fold1(e: ExtremaV, low: int, high: int) -> ExtremaV {
    ExtremaV {
        short_min: min2(e.short_min, low),
        short_max: max2(e.short_max, high),
        medium_min: min2(e.medium_min, low),
        medium_max: max2(e.medium_max, high),
        long_min: min2(e.long_min, low),
        long_max: max2(e.long_max, high),
    }
}

/// A whole sequence of candles folded into the extrema, in order.
pub open spec fn fold_seq(e: ExtremaV, cs: Seq<Candlestick>) -> ExtremaV
    decreases cs.len(),
{
    if cs.len() == 0 {
        e
    } else {
        fold1(fold_seq(e, cs.drop_last()), cs.last().low as int, cs.last().high as int)
    }
}

/// The extrema a single-step update computes with: the persisted extrema
/// with this candle's low and high folded in, committed or not.
pub open spec fn candidate_extrema(s: EngineV, c: Candlestick) -> ExtremaV {
    fold1(s.extrema, c.low as int, c.high as int)
}

/// How one single-step update changes the engine: a `Closed` candle commits
/// the candidate extrema and advances the count; an `Open` candle changes
/// nothing.
pub open spec fn next_state(s: EngineV, c: Candlestick) -> EngineV {
    if c.state is Closed {
        EngineV { extrema: candidate_extrema(s, c), count: s.count + 1, params: s.params }
    } else {
        s
    }
}

/// How a bulk pass changes the engine: every candle of the batch is
/// committed, whatever its lifecycle state.
pub open spec fn init_state(s: EngineV, cs: Seq<Candlestick>) -> EngineV {
    EngineV { extrema: fold_seq(s.extrema, cs), count: s.count + cs.len(), params: s.params }
}

/// Tenkan-sen, unrounded, in quarter ticks: the short-window midpoint.
pub open spec fn tenkan4(e: ExtremaV) -> int {
    2 * (e.short_max + e.short_min)
}

/// Kijun-sen, unrounded, in quarter ticks: the medium-window midpoint.
pub open spec fn kijun4(e: ExtremaV) -> int {
    2 * (e.medium_max + e.medium_min)
}

/// Senkou span A, unrounded, in quarter ticks. By construction it is the sum
/// of the four short- and medium-window extrema; `lemma_senkou_a_midpoint`
/// shows this equals the midpoint of the unrounded tenkan-sen and kijun-sen.
pub open spec fn senkou_a4(e: ExtremaV) -> int {
    e.short_max + e.short_min + e.medium_max + e.medium_min
}

/// Senkou span B, unrounded, in quarter ticks: the long-window midpoint.
pub open spec fn senkou_b4(e: ExtremaV) -> int {
    2 * (e.long_max + e.long_min)
}

/// What an emitted result holds: each of the five lines computed from the
/// unrounded extrema midpoints and rounded, independently, only at output.
pub open spec fn result_matches(r: IchimokuCloudResult, e: ExtremaV, close: int) -> bool {
    &&& r.tenkan_sen == round8_q(tenkan4(e))
    &&& r.kijun_sen == round8_q(kijun4(e))
    &&& r.senkou_span_a == round8_q(senkou_a4(e))
    &&& r.senkou_span_b == round8_q(senkou_b4(e))
    &&& r.chikou_span == round8_q(4 * close)
}

pub open spec fn extrema_bounded(e: ExtremaV) -> bool {
    &&& -PRICE_LIMIT <= e.short_min <= PRICE_LIMIT
    &&& -PRICE_LIMIT <= e.short_max <= PRICE_LIMIT
    &&& -PRICE_LIMIT <= e.medium_min <= PRICE_LIMIT
    &&& -PRICE_LIMIT <= e.medium_max <= PRICE_LIMIT
    &&& -PRICE_LIMIT <= e.long_min <= PRICE_LIMIT
    &&& -PRICE_LIMIT <= e.long_max <= PRICE_LIMIT
}

/// What one entry of the bulk pass's output holds: the input candle itself,
/// a result exactly when enough candles have been committed by then, and,
/// when present, the five lines computed from the extrema over the batch's
/// prefix up to and including this candle.
pub open spec fn output_ok(
    s: EngineV,
    cs: Seq<Candlestick>,
    pair: (Candlestick, Option<IchimokuCloudResult>),
    i: int,
) -> bool {
    &&& pair.0 == cs[i]
    &&& (pair.1 is Some <==> s.count + i + 1 >= s.params.long)
    &&& (match pair.1 {
        Some(res) => result_matches(res, fold_seq(s.extrema, cs.take(i + 1)), cs[i].close as int),
        None => true,
    })
}

/// Folding a candle only tightens the extrema: every minimum stays at or
/// below its old value and at or below the folded low, and every maximum
/// stays at or above its old value and at or above the folded high.
pub proof fn lemma_fold1_monotonic(e: ExtremaV, low: int, high: int)
    ensures
        fold1(e, low, high).short_min <= e.short_min,
        fold1(e, low, high).short_min <= low,
        fold1(e, low, high).short_max >= e.short_max,
        fold1(e, low, high).short_max >= high,
        fold1(e, low, high).medium_min <= e.medium_min,
        fold1(e, low, high).medium_min <= low,
        fold1(e, low, high).medium_max >= e.medium_max,
        fold1(e, low, high).medium_max >= high,
        fold1(e, low, high).long_min <= e.long_min,
        fold1(e, low, high).long_min <= low,
        fold1(e, low, high).long_max >= e.long_max,
        fold1(e, low, high).long_max >= high,
{
}

/// Across a whole sequence of committed candles the extrema never loosen:
/// each minimum is non-increasing and each maximum non-decreasing.
pub proof fn lemma_fold_seq_monotonic(e: ExtremaV, cs: Seq<Candlestick>)
    ensures
        fold_seq(e, cs).short_min <= e.short_min,
        fold_seq(e, cs).short_max >= e.short_max,
        fold_seq(e, cs).medium_min <= e.medium_min,
        fold_seq(e, cs).medium_max >= e.medium_max,
        fold_seq(e, cs).long_min <= e.long_min,
        fold_seq(e, cs).long_max >= e.long_max,
    decreases cs.len(),
{
    if cs.len() > 0 {
        lemma_fold_seq_monotonic(e, cs.drop_last());
    }
}

/// After folding a sequence of candles, each minimum is at or below every
/// low seen in the sequence and each maximum is at or above every high.
pub proof fn lemma_extrema_cover_history(e: ExtremaV, cs: Seq<Candlestick>, i: int)
    requires
        0 <= i < cs.len(),
    ensures
        fold_seq(e, cs).short_min <= cs[i].low,
        fold_seq(e, cs).short_max >= cs[i].high,
        fold_seq(e, cs).medium_min <= cs[i].low,
        fold_seq(e, cs).medium_max >= cs[i].high,
        fold_seq(e, cs).long_min <= cs[i].low,
        fold_seq(e, cs).long_max >= cs[i].high,
    decreases cs.len(),
{
    if i < cs.len() - 1 {
        lemma_extrema_cover_history(e, cs.drop_last(), i);
        assert(cs.drop_last()[i] == cs[i]);
    }
}

/// A single-step update never loosens the persisted extrema and never
/// lowers the committed-candle count.
pub proof fn lemma_next_state_monotonic(s: EngineV, c: Candlestick)
    ensures
        next_state(s, c).extrema.short_min <= s.extrema.short_min,
        next_state(s, c).extrema.short_max >= s.extrema.short_max,
        next_state(s, c).extrema.medium_min <= s.extrema.medium_min,
        next_state(s, c).extrema.medium_max >= s.extrema.medium_max,
        next_state(s, c).extrema.long_min <= s.extrema.long_min,
        next_state(s, c).extrema.long_max >= s.extrema.long_max,
        next_state(s, c).count >= s.count,
{
}

/// Open candles do not persist: any number of single-step updates with
/// `Open` candles, followed by an update with a `Closed` candle, leaves the
/// engine in exactly the state one update with the `Closed` candle alone
/// would have left it in.
pub proof fn lemma_open_candles_do_not_persist(
    s: EngineV,
    o1: Candlestick,
    o2: Candlestick,
    c: Candlestick,
)
    requires
        o1.state is Open,
        o2.state is Open,
    ensures
        next_state(next_state(next_state(s, o1), o2), c) == next_state(s, c),
{
}

/// Senkou span A is formed from the unrounded lines: its quarter-tick value
/// is the midpoint of the unrounded tenkan-sen and kijun-sen, so rounding
/// happens only at output, never on an intermediate value.
pub proof fn lemma_senkou_a_midpoint(e: ExtremaV)
    ensures
        senkou_a4(e) == (tenkan4(e) + kijun4(e)) / 2,
{
    let s = e.short_max + e.short_min + e.medium_max + e.medium_min;
    assert(tenkan4(e) + kijun4(e) == 2 * s);
    vstd::arithmetic::div_mod::lemma_div_multiples_vanish(s, 2);
}

/// The Ichimoku Cloud engine.
#[derive(Debug)]
pub struct IchimokuCloud {
    short_period_min: i64,
    short_period_max: i64,
    medium_period_min: i64,
    medium_period_max: i64,
    long_period_min: i64,
    long_period_max: i64,
    parameters: IchimokuCloudParameters,
    num_processed: usize,
}

impl View for IchimokuCloud {
    type V = EngineV;

    closed spec fn view(&self) -> EngineV {
        EngineV {
            extrema: ExtremaV {
                short_min: self.short_period_min as int,
                short_max: self.short_period_max as int,
                medium_min: self.medium_period_min as int,
                medium_max: self.medium_period_max as int,
                long_min: self.long_period_min as int,
                long_max: self.long_period_max as int,
            },
            count: self.num_processed as int,
            params: ParamsV {
                short: self.parameters.short_period as int,
                medium: self.parameters.medium_period as int,
                long: self.parameters.long_period as int,
            },
        }
    }
}

fn min_i64(a: i64, b: i64) -> (r: i64)
    ensures
        r == min2(a as int, b as int),
{
    if a <= b {
        a
    } else {
        b
    }
}

fn max_i64(a: i64, b: i64) -> (r: i64)
    ensures
        r == max2(a as int, b as int),
{
    if a >= b {
        a
    } else {
        b
    }
}

/// The five lines from six extrema and a close price, rounded at output.
fn compute_result(
    short_min: i64,
    short_max: i64,
    medium_min: i64,
    medium_max: i64,
    long_min: i64,
    long_max: i64,
    close: i64,
) -> (r: IchimokuCloudResult)
    requires
        extrema_bounded(
            (ExtremaV {
                short_min: short_min as int,
                short_max: short_max as int,
                medium_min: medium_min as int,
                medium_max: medium_max as int,
                long_min: long_min as int,
                long_max: long_max as int,
            }),
        ),
        -PRICE_LIMIT <= close <= PRICE_LIMIT,
    ensures
        result_matches(
            r,
            (ExtremaV {
                short_min: short_min as int,
                short_max: short_max as int,
                medium_min: medium_min as int,
                medium_max: medium_max as int,
                long_min: long_min as int,
                long_max: long_max as int,
            }),
            close as int,
        ),
{
    let tenkan_q: i64 = 2 * (short_max + short_min);
    let kijun_q: i64 = 2 * (medium_max + medium_min);
    let senkou_a_q: i64 = short_max + short_min + medium_max + medium_min;
    let senkou_b_q: i64 = 2 * (long_max + long_min);
    let chikou_q: i64 = 4 * close;
    IchimokuCloudResult {
        tenkan_sen: round8_quarter_ticks(tenkan_q),
        kijun_sen: round8_quarter_ticks(kijun_q),
        senkou_span_a: round8_quarter_ticks(senkou_a_q),
        senkou_span_b: round8_quarter_ticks(senkou_b_q),
        chikou_span: round8_quarter_ticks(chikou_q),
    }
}

impl IchimokuCloud {
    /// Well-formedness: the parameters are valid; before any candle is
    /// committed the extrema sit at their sentinels, and afterwards each lies
    /// within the fixed-point price range.
    pub open spec fn wf(self) -> bool {
        &&& 1 <= self@.params.short <= self@.params.medium <= self@.params.long
        &&& (self@.count == 0 ==> self@.extrema == init_extrema())
        &&& (self@.count > 0 ==> extrema_bounded(self@.extrema))
    }

    /// Builds a fresh engine, rejecting window lengths that are zero or not
    /// ordered `short <= medium <= long`.
    pub fn new(params: IchimokuCloudParameters) -> (r: Result<IchimokuCloud, IchimokuCloudError>)
        ensures
            r is Ok <==> params_valid(params),
            (match r {
                Ok(engine) => {
                    &&& engine.wf()
                    &&& engine@.count == 0
                    &&& engine@.extrema == init_extrema()
                    &&& engine@.params == (ParamsV {
                        short: params.short_period as int,
                        medium: params.medium_period as int,
                        long: params.long_period as int,
                    })
                },
                Err(e) => e is InvalidParameters,
            }),
    {
        if params.short_period >= 1 && params.short_period <= params.medium_period
            && params.medium_period <= params.long_period {
            Ok(IchimokuCloud {
                short_period_min: i64::MAX,
                short_period_max: i64::MIN,
                medium_period_min: i64::MAX,
                medium_period_max: i64::MIN,
                long_period_min: i64::MAX,
                long_period_max: i64::MIN,
                parameters: params,
                num_processed: 0,
            })
        } else {
            Err(IchimokuCloudError::InvalidParameters)
        }
    }

    /// How many candles the engine has committed so far.
    pub fn num_processed(&self) -> (n: usize)
        ensures
            n == self@.count,
    {
        self.num_processed
    }

    /// A snapshot of the persisted extrema and the parameters.
    pub fn state(&self) -> (s: IchimokuCloudState)
        ensures
            s.short_period_min == self@.extrema.short_min,
            s.short_period_max == self@.extrema.short_max,
            s.medium_period_min == self@.extrema.medium_min,
            s.medium_period_max == self@.extrema.medium_max,
            s.long_period_min == self@.extrema.long_min,
            s.long_period_max == self@.extrema.long_max,
            s.parameters.short_period == self@.params.short,
            s.parameters.medium_period == self@.params.medium,
            s.parameters.long_period == self@.params.long,
    {
        IchimokuCloudState {
            short_period_min: self.short_period_min,
            short_period_max: self.short_period_max,
            medium_period_min: self.medium_period_min,
            medium_period_max: self.medium_period_max,
            long_period_min: self.long_period_min,
            long_period_max: self.long_period_max,
            parameters: self.parameters,
        }
    }

    /// Bulk pass over historical candles. Every candle is committed, in
    /// order, whatever its lifecycle state; the returned sequence pairs each
    /// input candle with a result exactly when at least `long_period` candles
    /// have been committed by then (so, starting from a fresh engine, the
    /// first `long_period - 1` entries carry no result and every later entry
    /// carries one). An empty batch returns an empty sequence and leaves the
    /// engine unchanged.
    pub fn initialize(&mut self, candlesticks: &[Candlestick]) -> (results: Vec<
        (Candlestick, Option<IchimokuCloudResult>),
    >)
        requires
            old(self).wf(),
            forall|i: int|
                0 <= i < candlesticks@.len() ==> (#[trigger] candlesticks@[i]).valid(),
            old(self)@.count + candlesticks@.len() <= usize::MAX,
        ensures
            final(self).wf(),
            final(self)@ == init_state(old(self)@, candlesticks@),
            results@.len() == candlesticks@.len(),
            forall|i: int|
                0 <= i < candlesticks@.len() ==> output_ok(
                    old(self)@,
                    candlesticks@,
                    #[trigger] results@[i],
                    i,
                ),
    {
        let mut results: Vec<(Candlestick, Option<IchimokuCloudResult>)> = Vec::new();
        let mut idx: usize = 0;
        proof {
            assert(candlesticks@.take(0) =~= Seq::<Candlestick>::empty());
        }
        while idx < candlesticks.len()
            invariant
                idx <= candlesticks@.len(),
                old(self).wf(),
                forall|i: int|
                    0 <= i < candlesticks@.len() ==> (#[trigger] candlesticks@[i]).valid(),
                old(self)@.count + candlesticks@.len() <= usize::MAX,
                self@ == init_state(old(self)@, candlesticks@.take(idx as int)),
                self.wf(),
                results@.len() == idx,
                forall|i: int|
                    0 <= i < idx ==> output_ok(
                        old(self)@,
                        candlesticks@,
                        #[trigger] results@[i],
                        i,
                    ),
            decreases candlesticks@.len() - idx,
        {
            let candle = candlesticks[idx];
            proof {
                assert(candlesticks@.take(idx + 1).drop_last() =~= candlesticks@.take(idx as int));
                assert(candlesticks@.take(idx + 1).last() == candlesticks@[idx as int]);
            }
            self.num_processed = self.num_processed + 1;
            self.short_period_min = min_i64(self.short_period_min, candle.low);
            self.short_period_max = max_i64(self.short_period_max, candle.high);
            self.medium_period_min = min_i64(self.medium_period_min, candle.low);
            self.medium_period_max = max_i64(self.medium_period_max, candle.high);
            self.long_period_min = min_i64(self.long_period_min, candle.low);
            self.long_period_max = max_i64(self.long_period_max, candle.high);
            let result: Option<IchimokuCloudResult> = if self.num_processed
                >= self.parameters.long_period {
                Some(
                    compute_result(
                        self.short_period_min,
                        self.short_period_max,
                        self.medium_period_min,
                        self.medium_period_max,
                        self.long_period_min,
                        self.long_period_max,
                        candle.close,
                    ),
                )
            } else {
                None
            };
            results.push((candle, result));
            idx = idx + 1;
        }
        proof {
            assert(candlesticks@.take(idx as int) =~= candlesticks@);
        }
        results
    }

    /// Single-step update. The five lines are computed from the candidate
    /// extrema — the persisted extrema with this candle's low and high folded
    /// in — and a result is returned exactly when the count after any commit
    /// reaches `long_period`. A `Closed` candle commits the candidate extrema
    /// and advances the count; an `Open` candle leaves the persisted state
    /// untouched, so repeated calls with revisions of a still-forming candle
    /// give live previews without disturbing the engine.
    pub fn calculate(&mut self, candle: &Candlestick) -> (r: Option<IchimokuCloudResult>)
        requires
            old(self).wf(),
            candle.valid(),
            old(self)@.count < usize::MAX,
        ensures
            final(self).wf(),
            final(self)@ == next_state(old(self)@, *candle),
            r is Some <==> next_state(old(self)@, *candle).count >= old(self)@.params.long,
            (match r {
                Some(res) => result_matches(
                    res,
                    candidate_extrema(old(self)@, *candle),
                    candle.close as int,
                ),
                None => true,
            }),
    {
        let temp_short_min = min_i64(self.short_period_min, candle.low);
        let temp_short_max = max_i64(self.short_period_max, candle.high);
        let temp_medium_min = min_i64(self.medium_period_min, candle.low);
        let temp_medium_max = max_i64(self.medium_period_max, candle.high);
        let temp_long_min = min_i64(self.long_period_min, candle.low);
        let temp_long_max = max_i64(self.long_period_max, candle.high);

        match candle.state {
            CandlestickState::Closed => {
                self.short_period_min = temp_short_min;
                self.short_period_max = temp_short_max;
                self.medium_period_min = temp_medium_min;
                self.medium_period_max = temp_medium_max;
                self.long_period_min = temp_long_min;
                self.long_period_max = temp_long_max;
                self.num_processed = self.num_processed + 1;
            },
            CandlestickState::Open => {},
        }

        if self.num_processed >= self.parameters.long_period {
            Some(
                compute_result(
                    temp_short_min,
                    temp_short_max,
                    temp_medium_min,
                    temp_medium_max,
                    temp_long_min,
                    temp_long_max,
                    candle.close,
                ),
            )
        } else {
            None
        }
    }
}

} // verus!

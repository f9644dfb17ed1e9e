//! An ordered, insertion-order sequence of candles, with the price and
//! volume extrema that the axis and the volume pane are scaled from.

use vstd::prelude::*;

use crate::chart::Candle;

verus! {

#[derive(Debug, Clone)]
pub struct CandleSet {
    pub candles: Vec<Candle>,
}

/// The volume of a candle, `0` when none was recorded.
pub open spec fn spec_volume(c: Candle) -> u64 {
    match c.volume {
        Some(v) => v,
        None => 0u64,
    }
}

/// The least low among the candles; `0` when there are none.
pub open spec fn spec_min_low(s: Seq<Candle>) -> i64
    decreases s.len(),
{
    if s.len() == 0 {
        0i64
    } else if s.len() == 1 {
        s[0].low
    } else {
        let rest = spec_min_low(s.drop_last());
        if s.last().low < rest {
            s.last().low
        } else {
            rest
        }
    }
}

/// The greatest high among the candles; `0` when there are none.
pub open spec fn spec_max_high(s: Seq<Candle>) -> i64
    decreases s.len(),
{
    if s.len() == 0 {
        0i64
    } else if s.len() == 1 {
        s[0].high
    } else {
        let rest = spec_max_high(s.drop_last());
        if s.last().high > rest {
            s.last().high
        } else {
            rest
        }
    }
}

/// The greatest volume among the candles; `0` when there are none.
pub open spec fn spec_max_volume(s: Seq<Candle>) -> u64
    decreases s.len(),
{
    if s.len() == 0 {
        0u64
    } else {
        let rest = spec_max_volume(s.drop_last());
        if spec_volume(s.last()) > rest {
            spec_volume(s.last())
        } else {
            rest
        }
    }
}

impl CandleSet {
    pub fn new(candles: Vec<Candle>) -> (s: CandleSet)
        ensures
            s.candles@ == candles@,
    {
        CandleSet { candles }
    }

    pub fn set_candles(&mut self, candles: Vec<Candle>)
        ensures
            final(self).candles@ == candles@,
    {
        self.candles = candles;
    }

    /// The least low among the candles, `0` when the set is empty.
    pub fn min_low(&self) -> (r: i64)
        ensures
            r == spec_min_low(self.candles@),
    {
        let n = self.candles.len();
        if n == 0 {
            return 0;
        }
        let mut r: i64 = self.candles[0].low;
        let mut i: usize = 1;
        proof {
            assert(self.candles@.take(1) =~= seq![self.candles@[0]]);
        }
        while i < n
            invariant
                1 <= i <= n,
                n == self.candles@.len(),
                r == spec_min_low(self.candles@.take(i as int)),
            decreases n - i,
        {
            proof {
                assert(self.candles@.take(i + 1).drop_last() =~= self.candles@.take(i as int));
                assert(self.candles@.take(i + 1).last() == self.candles@[i as int]);
            }
            let c = self.candles[i].low;
            if c < r {
                r = c;
            }
            i += 1;
        }
        proof {
            assert(self.candles@.take(n as int) =~= self.candles@);
        }
        r
    }

    /// The greatest high among the candles, `0` when the set is empty.
    pub fn max_high(&self) -> (r: i64)
        ensures
            r == spec_max_high(self.candles@),
    {
        let n = self.candles.len();
        if n == 0 {
            return 0;
        }
        let mut r: i64 = self.candles[0].high;
        let mut i: usize = 1;
        proof {
            assert(self.candles@.take(1) =~= seq![self.candles@[0]]);
        }
        while i < n
            invariant
                1 <= i <= n,
                n == self.candles@.len(),
                r == spec_max_high(self.candles@.take(i as int)),
            decreases n - i,
        {
            proof {
                assert(self.candles@.take(i + 1).drop_last() =~= self.candles@.take(i as int));
                assert(self.candles@.take(i + 1).last() == self.candles@[i as int]);
            }
            let c = self.candles[i].high;
            if c > r {
                r = c;
            }
            i += 1;
        }
        proof {
            assert(self.candles@.take(n as int) =~= self.candles@);
        }
        r
    }

    /// The greatest volume among the candles, `0` when the set is empty
    /// or no candle carries one.
    pub fn max_volume(&self) -> (r: u64)
        ensures
            r == spec_max_volume(self.candles@),
    {
        let n = self.candles.len();
        let mut r: u64 = 0;
        let mut i: usize = 0;
        proof {
            assert(self.candles@.take(0) =~= Seq::<Candle>::empty());
        }
        while i < n
            invariant
                0 <= i <= n,
                n == self.candles@.len(),
                r == spec_max_volume(self.candles@.take(i as int)),
            decreases n - i,
        {
            proof {
                assert(self.candles@.take(i + 1).drop_last() =~= self.candles@.take(i as int));
                assert(self.candles@.take(i + 1).last() == self.candles@[i as int]);
            }
            let v: u64 = match self.candles[i].volume {
                Some(v) => v,
                None => 0,
            };
            if v > r {
                r = v;
            }
            i += 1;
        }
        proof {
            assert(self.candles@.take(n as int) =~= self.candles@);
        }
        r
    }
}

} // verus!

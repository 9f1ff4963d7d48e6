//! One instrument's candle series and the precision its prices carry.
use crate::candle::{decimal_candle, decimal_series, Candle, ToDecimal};
use crate::decimal::FixedDecimal;
use vstd::prelude::*;
use vstd::std_specs::iter::IteratorSpec;

verus! {

/// A candle series in the order it was supplied, with the number of
/// fractional digits that its instrument is quoted in.
#[derive(Debug)]
pub struct TickersData<T> {
    pub symbol: String,
    pub exchange: String,
    pub candles: Vec<Candle<T>>,
    pub precision: i32,
}

impl<T> TickersData<T> {
    /// The series, to walk from its first candle to its last.
    pub fn get_candles_iter(&self) -> (iter: core::slice::Iter<'_, Candle<T>>)
        ensures
            iter.remaining() == self.candles@.as_ref(),
    {
        self.candles.iter()
    }

    /// The series as it was supplied.
    pub fn get_candles(&self) -> (candles: &Vec<Candle<T>>)
        ensures
            *candles == self.candles,
    {
        &self.candles
    }
}

impl<T: ToDecimal> TickersData<T> {
    /// The series in exact decimals at this series' own precision, to walk
    /// from its first candle to its last.
    pub fn get_candles_decimal_iter(&self) -> (iter: std::vec::IntoIter<Candle<FixedDecimal>>)
        ensures
            decimal_series(self.candles@, self.precision as int, iter.remaining()),
    {
        self.get_candles_decimal().into_iter()
    }

    /// The series in exact decimals at this series' own precision. It is
    /// computed anew at each call.
    pub fn get_candles_decimal(&self) -> (out: Vec<Candle<FixedDecimal>>)
        ensures
            decimal_series(self.candles@, self.precision as int, out@),
    {
        let mut out: Vec<Candle<FixedDecimal>> = Vec::new();
        let mut i: usize = 0;
        while i < self.candles.len()
            invariant
                i <= self.candles.len(),
                out.len() == i,
                forall|j: int|
                    0 <= j < i ==> decimal_candle(
                        self.candles[j],
                        self.precision as int,
                        #[trigger] out[j],
                    ),
            decreases self.candles.len() - i,
        {
            out.push(self.candles[i].to_decimal(self.precision));
            i += 1;
        }
        out
    }
}

} // verus!

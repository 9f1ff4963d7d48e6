//! One price observation, and its exact decimal form.
use crate::decimal::{settled, FixedDecimal};
use vstd::prelude::*;

verus! {

/// The prices and the volume of one time interval.
#[derive(Clone, Debug, PartialEq)]
pub struct Candle<T> {
    pub open: T,
    pub high: T,
    pub low: T,
    pub close: T,
    pub volume: T,
}

/// A raw value for which an exact decimal counterpart can be looked for.
pub trait ToDecimal {
    /// The exact decimal counterpart of this value, or `None` where it has none
    /// within the limits of [`FixedDecimal`].
    fn to_decimal(&self) -> Option<FixedDecimal>;
}

impl ToDecimal for FixedDecimal {
    fn to_decimal(&self) -> (exact: Option<FixedDecimal>)
        ensures
            exact == Some(*self),
    {
        Some(*self)
    }
}

/// The mantissa and scale of a counterpart, where one was found.
pub open spec fn parts(exact: Option<FixedDecimal>) -> Option<(int, nat)> {
    match exact {
        Some(d) => Some(d@),
        None => None,
    }
}

/// `out` is what `raw` comes to at `precision`: its decimal counterpart
/// rounded to that many fractional digits, or zero where it has none.
pub open spec fn converts<T: ToDecimal>(raw: T, precision: int, out: FixedDecimal) -> bool {
    exists|exact: Option<FixedDecimal>| #[trigger]
        call_ensures(T::to_decimal, (&raw,), exact) && out@ == settled(parts(exact), precision)
}

/// `out` is `raw` with every field converted at `precision`.
pub open spec fn decimal_candle<T: ToDecimal>(
    raw: Candle<T>,
    precision: int,
    out: Candle<FixedDecimal>,
) -> bool {
    &&& converts(raw.open, precision, out.open)
    &&& converts(raw.high, precision, out.high)
    &&& converts(raw.low, precision, out.low)
    &&& converts(raw.close, precision, out.close)
    &&& converts(raw.volume, precision, out.volume)
}

/// `out` is `raw` candle by candle, in the same order, each converted at `precision`.
pub open spec fn decimal_series<T: ToDecimal>(
    raw: Seq<Candle<T>>,
    precision: int,
    out: Seq<Candle<FixedDecimal>>,
) -> bool {
    &&& out.len() == raw.len()
    &&& forall|i: int| 0 <= i < raw.len() ==> decimal_candle(raw[i], precision, #[trigger] out[i])
}

/// One raw value at `precision` fractional digits.
pub fn convert<T: ToDecimal>(raw: &T, precision: i32) -> (out: FixedDecimal)
    ensures
        converts(*raw, precision as int, out),
{
    let exact = raw.to_decimal();
    FixedDecimal::settle(exact, precision)
}

impl<T: ToDecimal> Candle<T> {
    /// This candle with every field at `precision` fractional digits.
    pub fn to_decimal(&self, precision: i32) -> (out: Candle<FixedDecimal>)
        ensures
            decimal_candle(*self, precision as int, out),
    {
        Candle {
            open: convert(&self.open, precision),
            high: convert(&self.high, precision),
            low: convert(&self.low, precision),
            close: convert(&self.close, precision),
            volume: convert(&self.volume, precision),
        }
    }
}

} // verus!

//! Exact base-10 fixed-point numbers and their rounding to a precision.
use vstd::prelude::*;

verus! {

/// The largest magnitude a mantissa may have: 96 bits, all set.
pub const MAX_MANTISSA: i128 = 79228162514264337593543950335;

/// The most fractional digits a value may carry.
pub const MAX_SCALE: u32 = 28;

/// Ten to the power `n`.
pub open spec fn pow10(n: nat) -> nat
    decreases n,
{
    if n == 0 {
        1
    } else {
        10 * pow10((n - 1) as nat)
    }
}

/// `mantissa` with its last `dropped` digits rounded off, a half going away from zero.
pub open spec fn round_half_away(mantissa: int, dropped: nat) -> int {
    let unit = pow10(dropped) as int;
    let magnitude = if mantissa < 0 {
        -mantissa
    } else {
        mantissa
    };
    let kept = magnitude / unit;
    let rounded = if 2 * (magnitude % unit) >= unit {
        kept + 1
    } else {
        kept
    };
    if mantissa < 0 {
        -rounded
    } else {
        rounded
    }
}

/// Mantissa and scale of the value `mantissa / 10^scale` brought to at most
/// `precision` fractional digits. A value that has no more digits than that
/// stays as it is, and so does every value under a negative precision.
pub open spec fn rescaled(mantissa: int, scale: nat, precision: int) -> (int, nat) {
    if precision < 0 || scale <= precision {
        (mantissa, scale)
    } else {
        (round_half_away(mantissa, (scale - precision) as nat), precision as nat)
    }
}

/// What a conversion that may have found no decimal counterpart settles on
/// at `precision`: the counterpart rescaled, or zero where there is none.
pub open spec fn settled(exact: Option<(int, nat)>, precision: int) -> (int, nat) {
    match exact {
        Some((mantissa, scale)) => rescaled(mantissa, scale, precision),
        None => (0, 0),
    }
}

/// A larger power of ten is no smaller, and none is below one.
pub proof fn lemma_pow10_monotone(a: nat, b: nat)
    requires
        a <= b,
    ensures
        1 <= pow10(a) <= pow10(b),
    decreases b,
{
    if a < b {
        lemma_pow10_monotone(a, (b - 1) as nat);
    } else if a > 0 {
        lemma_pow10_monotone((a - 1) as nat, (a - 1) as nat);
    }
}

/// The largest power of ten that a scale can ask for.
pub proof fn lemma_pow10_max()
    ensures
        pow10(28) == 10000000000000000000000000000,
{
    reveal_with_fuel(pow10, 30);
}

/// Rounding off at least one digit never leaves the 96 bits.
pub proof fn lemma_round_half_away_bound(mantissa: int, dropped: nat)
    requires
        -MAX_MANTISSA <= mantissa <= MAX_MANTISSA,
        dropped >= 1,
    ensures
        -MAX_MANTISSA <= round_half_away(mantissa, dropped) <= MAX_MANTISSA,
{
    lemma_pow10_monotone(1, dropped);
    assert(pow10(1) == 10) by {
        reveal_with_fuel(pow10, 2);
    }
    let unit = pow10(dropped) as int;
    let magnitude = if mantissa < 0 {
        -mantissa
    } else {
        mantissa
    };
    let kept = magnitude / unit;
    assert(kept * 10 <= magnitude) by (nonlinear_arith)
        requires
            kept == magnitude / unit,
            unit >= 10,
            magnitude >= 0,
    ;
}

/// The number `mantissa / 10^scale`: a mantissa of at most 96 bits and a scale of at most 28.
#[derive(Clone, Copy, Debug, PartialEq, Eq, Structural)]
pub struct FixedDecimal {
    mantissa: i128,
    scale: u32,
}

impl View for FixedDecimal {
    type V = (int, nat);

    closed spec fn view(&self) -> (int, nat) {
        (self.mantissa as int, self.scale as nat)
    }
}

/// Ten to the power `n`, for the powers that fit a mantissa.
fn ten_to(n: u32) -> (power: i128)
    requires
        n <= MAX_SCALE,
    ensures
        power == pow10(n as nat),
        1 <= power <= 10000000000000000000000000000,
{
    let mut power: i128 = 1;
    let mut i: u32 = 0;
    while i < n
        invariant
            i <= n <= MAX_SCALE,
            power == pow10(i as nat),
        decreases n - i,
    {
        proof {
            lemma_pow10_monotone((i + 1) as nat, 28);
            lemma_pow10_max();
        }
        power = power * 10;
        i += 1;
    }
    proof {
        lemma_pow10_monotone(n as nat, 28);
        lemma_pow10_max();
    }
    power
}

impl FixedDecimal {
    #[verifier::type_invariant]
    spec fn in_range(&self) -> bool {
        -MAX_MANTISSA <= self.mantissa <= MAX_MANTISSA && self.scale <= MAX_SCALE
    }

    /// Whether a mantissa and a scale are those of a value of this type.
    pub open spec fn representable(mantissa: int, scale: int) -> bool {
        -MAX_MANTISSA <= mantissa <= MAX_MANTISSA && 0 <= scale <= MAX_SCALE
    }

    /// Two values with the same mantissa and the same scale are one value.
    pub proof fn lemma_equal_by_view(a: FixedDecimal, b: FixedDecimal)
        requires
            a@ == b@,
        ensures
            a == b,
    {
    }

    /// The value `mantissa / 10^scale`, if it is within the limits.
    pub fn new(mantissa: i128, scale: u32) -> (made: Option<FixedDecimal>)
        ensures
            made is Some <==> Self::representable(mantissa as int, scale as int),
            made matches Some(d) ==> d@ == (mantissa as int, scale as nat),
    {
        if scale <= MAX_SCALE && -MAX_MANTISSA <= mantissa && mantissa <= MAX_MANTISSA {
            Some(FixedDecimal { mantissa, scale })
        } else {
            None
        }
    }

    /// Zero, with no fractional digit.
    pub fn zero() -> (z: FixedDecimal)
        ensures
            z@ == (0int, 0nat),
    {
        FixedDecimal { mantissa: 0, scale: 0 }
    }

    /// The digits of this value as a whole number.
    pub fn mantissa(&self) -> (m: i128)
        ensures
            m == self@.0,
            -MAX_MANTISSA <= m <= MAX_MANTISSA,
    {
        proof {
            use_type_invariant(self);
        }
        self.mantissa
    }

    /// How many of the digits are fractional.
    pub fn scale(&self) -> (s: u32)
        ensures
            s == self@.1,
            s <= MAX_SCALE,
    {
        proof {
            use_type_invariant(self);
        }
        self.scale
    }

    /// This value at `precision` fractional digits, a half rounded away from zero.
    pub fn round_dp(&self, precision: i32) -> (rounded: FixedDecimal)
        ensures
            rounded@ == rescaled(self@.0, self@.1, precision as int),
    {
        proof {
            use_type_invariant(self);
        }
        if precision < 0 || self.scale <= precision as u32 {
            return *self;
        }
        let dropped: u32 = self.scale - precision as u32;
        let unit: i128 = ten_to(dropped);
        let negative = self.mantissa < 0;
        let magnitude: i128 = if negative {
            -self.mantissa
        } else {
            self.mantissa
        };
        let kept: i128 = magnitude / unit;
        let rest: i128 = magnitude % unit;
        proof {
            lemma_round_half_away_bound(self.mantissa as int, dropped as nat);
        }
        let up: i128 = if rest >= unit - rest {
            kept + 1
        } else {
            kept
        };
        let mantissa: i128 = if negative {
            -up
        } else {
            up
        };
        FixedDecimal { mantissa, scale: precision as u32 }
    }

    /// What a raw value comes to at `precision`, given the exact decimal
    /// counterpart that was found for it, if any.
    pub fn settle(exact: Option<FixedDecimal>, precision: i32) -> (out: FixedDecimal)
        ensures
            out@ == settled(
                match exact {
                    Some(d) => Some(d@),
                    None => None,
                },
                precision as int,
            ),
    {
        match exact {
            Some(d) => d.round_dp(precision),
            None => FixedDecimal::zero(),
        }
    }
}

} // verus!

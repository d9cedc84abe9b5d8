//! Load-average readings and their normalisation.
//!
//! Readings arrive as fixed-point numbers in millionths (six decimal places);
//! a stored sample keeps each reading rounded to hundredths.

use vstd::prelude::*;

verus! {

/// Decimal places of a raw reading: a raw value `r` stands for `r / 10^6`.
pub const READING_PLACES: u32 = 6;

/// Decimal places kept in a stored sample: a field `v` stands for `v / 100`.
pub const SAMPLE_PLACES: u32 = 2;

/// `10^n`.
pub open spec fn pow10(n: nat) -> nat
    decreases n,
{
    if n == 0 {
        1
    } else {
        10 * pow10((n - 1) as nat)
    }
}

/// `raw` (in units of `10^-READING_PLACES`) rounded to the nearest multiple of
/// `10^-places`, ties away from zero, counted in units of `10^-places`.
/// That is the quotient by the unit, plus one when the remainder is at least
/// half the unit.
pub open spec fn rounded(raw: nat, places: nat) -> nat
    recommends
        places <= READING_PLACES,
{
    let unit = pow10((READING_PLACES - places) as nat);
    let q = raw / unit;
    let r = raw % unit;
    if 2 * r >= unit {
        q + 1
    } else {
        q
    }
}

/// Rounds a raw reading, given in millionths, to `decimal_places` decimal
/// places, half away from zero. The result counts units of
/// `10^-decimal_places`: `round_to(1_234_560, 2) == 123` (1.23456 becomes 1.23).
pub fn round_to(raw: u64, decimal_places: u32) -> (r: u64)
    requires
        decimal_places <= READING_PLACES,
    ensures
        r == rounded(raw as nat, decimal_places as nat),
{
    let mut unit: u64 = 1;
    let mut k: u32 = 0;
    while k < READING_PLACES - decimal_places
        invariant
            decimal_places <= READING_PLACES,
            k <= READING_PLACES - decimal_places,
            unit == pow10(k as nat),
            1 <= unit <= 1_000_000,
        decreases READING_PLACES - decimal_places - k,
    {
        unit = unit * 10;
        k = k + 1;
        assert(1 <= unit <= 1_000_000) by {
            assert(pow10(k as nat) == 10 * pow10((k - 1) as nat));
            lemma_pow10_bound(k as nat);
        }
    }
    let q = raw / unit;
    let rem = raw % unit;
    if 2 * rem >= unit {
        assert(q < u64::MAX) by (nonlinear_arith)
            requires
                q == raw / unit,
                unit >= 1,
                2 * rem >= unit,
                rem == raw % unit,
        ;
        q + 1
    } else {
        q
    }
}

/// One sample: the 1-, 5- and 15-minute load averages taken at one instant,
/// each in hundredths (`15` stands for 0.15). Equality is field by field.
#[derive(Debug, Clone, Copy, PartialEq, Eq, Structural)]
pub struct LoadAvgValue {
    pub one_m: u64,
    pub five_m: u64,
    pub fifteen_m: u64,
}

/// The all-zero sample that fills a window before real data arrives.
pub open spec fn sentinel() -> LoadAvgValue {
    LoadAvgValue { one_m: 0, five_m: 0, fifteen_m: 0 }
}

impl Default for LoadAvgValue {
    fn default() -> (r: Self)
        ensures
            r == sentinel(),
    {
        LoadAvgValue { one_m: 0, five_m: 0, fifteen_m: 0 }
    }
}

/// Three raw load averages as the sampler reports them, in millionths
/// (`154_000` stands for 0.154).
#[derive(Debug, Clone, Copy, PartialEq, Eq, Structural)]
pub struct RawLoadAvg {
    pub one: u64,
    pub five: u64,
    pub fifteen: u64,
}

/// The sample stored for a raw reading: each field rounded to
/// `SAMPLE_PLACES` decimal places.
pub open spec fn normalized(raw: RawLoadAvg) -> LoadAvgValue {
    LoadAvgValue {
        one_m: rounded(raw.one as nat, SAMPLE_PLACES as nat) as u64,
        five_m: rounded(raw.five as nat, SAMPLE_PLACES as nat) as u64,
        fifteen_m: rounded(raw.fifteen as nat, SAMPLE_PLACES as nat) as u64,
    }
}

impl LoadAvgValue {
    /// The sample for a raw reading, each field rounded to hundredths.
    pub fn from_raw(raw: RawLoadAvg) -> (r: LoadAvgValue)
        ensures
            r == normalized(raw),
    {
        LoadAvgValue {
            one_m: round_to(raw.one, SAMPLE_PLACES),
            five_m: round_to(raw.five, SAMPLE_PLACES),
            fifteen_m: round_to(raw.fifteen, SAMPLE_PLACES),
        }
    }
}

proof fn lemma_pow10_bound(k: nat)
    requires
        k <= READING_PLACES,
    ensures
        pow10(k) <= 1_000_000,
{
    reveal_with_fuel(pow10, 7);
}

} // verus!

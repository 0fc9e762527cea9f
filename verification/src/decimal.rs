//! Fixed-point money with exactly four fractional digits.
//!
//! A [`Decimal4`] counts ten-thousandths in an `i64`, which gives a range of a
//! little over ±9.2e14 whole units. Text is read, rounded and written by
//! `rust_decimal`; sums, differences and comparisons are integer arithmetic on
//! the count.

use rust_decimal::Decimal;
use rust_decimal::RoundingStrategy;
use std::str::FromStr;
use vstd::prelude::*;
use vstd::std_specs::convert::FromSpecImpl;
use vstd::std_specs::ops::AddSpecImpl;
use vstd::std_specs::ops::SubSpecImpl;

verus! {

/// Ten-thousandths in one whole unit.
pub const UNITS_PER_WHOLE: i64 = 10_000;

/// Largest magnitude of the coefficient of a 96-bit decimal: `2^96 - 1`.
pub const MAX_COEFFICIENT: i128 = 0xFFFF_FFFF_FFFF_FFFF_FFFF_FFFF;

/// Largest scale (number of fractional digits) of a 96-bit decimal.
pub const MAX_SCALE: u32 = 28;

/// Why a value could not become a [`Decimal4`].
#[derive(Debug, Clone, Copy, PartialEq, Eq, Structural)]
pub enum Decimal4Error {
    /// The text is not a decimal number.
    Invalid,
    /// The number, rounded to four places, does not fit.
    OutOfRange,
}

/// A signed amount with four fractional digits.
#[derive(Debug, Clone, Copy, PartialEq, Eq, PartialOrd, Ord, Hash, Structural)]
pub struct Decimal4 {
    units: i64,
}

impl View for Decimal4 {
    type V = int;

    /// The amount in ten-thousandths.
    closed spec fn view(&self) -> int {
        self.units as int
    }
}

/// `10^n`.
pub open spec fn pow10(n: nat) -> int
    decreases n,
{
    if n == 0 {
        1
    } else {
        10 * pow10((n - 1) as nat)
    }
}

/// `coefficient / divisor` rounded to the nearest integer, a tie going toward
/// zero.
pub open spec fn half_toward_zero(coefficient: int, divisor: int) -> int
    recommends
        divisor > 0,
{
    let magnitude = if coefficient < 0 { -coefficient } else { coefficient };
    let quotient = magnitude / divisor;
    let rest = magnitude % divisor;
    let rounded = if 2 * rest > divisor { quotient + 1 } else { quotient };
    if coefficient < 0 { -rounded } else { rounded }
}

/// Whether `coefficient * 10^-scale` is a value that a 96-bit decimal holds.
pub open spec fn representable(coefficient: int, scale: int) -> bool {
    -MAX_COEFFICIENT <= coefficient <= MAX_COEFFICIENT && 0 <= scale <= MAX_SCALE
}

/// `coefficient * 10^-scale` in ten-thousandths, rounded half toward zero
/// where it has more than four fractional digits.
pub open spec fn rounded_units(coefficient: int, scale: int) -> int
    recommends
        scale >= 0,
{
    if scale <= 4 {
        coefficient * pow10((4 - scale) as nat)
    } else {
        half_toward_zero(coefficient, pow10((scale - 4) as nat))
    }
}

/// The amount that `coefficient * 10^-scale` becomes, in ten-thousandths, or
/// the reason why it becomes none.
pub open spec fn scaled_units(coefficient: int, scale: int) -> Result<int, Decimal4Error> {
    if !representable(coefficient, scale) {
        Err(Decimal4Error::OutOfRange)
    } else if i64::MIN <= rounded_units(coefficient, scale) <= i64::MAX {
        Ok(rounded_units(coefficient, scale))
    } else {
        Err(Decimal4Error::OutOfRange)
    }
}

/// The coefficient and scale that `rust_decimal` reads from `text`, or `None`
/// where it rejects the text.
pub uninterp spec fn decimal_text_value(text: Seq<char>) -> Option<(int, int)>;

/// The amount that a text stands for, in ten-thousandths.
pub open spec fn text_units(text: Seq<char>) -> Result<int, Decimal4Error> {
    match decimal_text_value(text) {
        None => Err(Decimal4Error::Invalid),
        Some((coefficient, scale)) => scaled_units(coefficient, scale),
    }
}

/// The character of a decimal digit.
pub open spec fn digit_char(digit: int) -> char
    recommends
        0 <= digit <= 9,
{
    (digit + 48) as char
}

/// The decimal digits of `n`, most significant first, without leading zeros.
pub open spec fn decimal_digits(n: nat) -> Seq<char>
    decreases n,
{
    if n < 10 {
        seq![digit_char(n as int)]
    } else {
        decimal_digits(n / 10).push(digit_char((n % 10) as int))
    }
}

/// An amount of ten-thousandths written with exactly four fractional digits:
/// a minus sign where it is negative, the whole part, a point, four digits.
pub open spec fn units_text(units: int) -> Seq<char> {
    let magnitude = if units < 0 { -units } else { units };
    let sign = if units < 0 { seq!['-'] } else { Seq::<char>::empty() };
    let fraction = magnitude % 10_000;
    sign + decimal_digits((magnitude / 10_000) as nat) + seq![
        '.',
        digit_char(fraction / 1000),
        digit_char(fraction / 100 % 10),
        digit_char(fraction / 10 % 10),
        digit_char(fraction % 10),
    ]
}

/// Reads a decimal number with `Decimal::from_str` and hands out its
/// coefficient and scale.
///
/// Trusted: the result is the one that the name `decimal_text_value` stands
/// for; a coefficient has at most 96 bits and a scale is at most 28; and a
/// text made of an optional minus sign, digits, a point and four digits reads
/// back as that many ten-thousandths.
#[verifier::external_body]
fn read_decimal(text: &str) -> (r: Option<(i128, u32)>)
    ensures
        decimal_text_value(text@) == match r {
            Some((coefficient, scale)) => Some((coefficient as int, scale as int)),
            None => None,
        },
        r matches Some((coefficient, scale)) ==> representable(coefficient as int, scale as int),
        forall|units: int|
            i64::MIN <= units <= i64::MAX && text@ == #[trigger] units_text(units) ==> r == Some(
                (units as i128, 4u32),
            ),
{
    match Decimal::from_str(text) {
        Ok(d) => Some((d.mantissa(), d.scale())),
        Err(_) => None,
    }
}

/// Rounds `coefficient * 10^-scale` to four places with
/// `Decimal::round_dp_with_strategy` and `RoundingStrategy::MidpointTowardZero`.
///
/// Trusted: a number with at most four places comes back unchanged; one with
/// more comes back with scale 4 and the coefficient rounded to the nearest,
/// a tie going toward zero.
#[verifier::external_body]
fn round_to_four_places(coefficient: i128, scale: u32) -> (r: (i128, u32))
    requires
        representable(coefficient as int, scale as int),
    ensures
        scale <= 4 ==> r == (coefficient, scale),
        scale > 4 ==> r.1 == 4 && r.0 == half_toward_zero(
            coefficient as int,
            pow10((scale - 4) as nat),
        ),
{
    let rounded = Decimal::from_i128_with_scale(coefficient, scale).round_dp_with_strategy(
        4,
        RoundingStrategy::MidpointTowardZero,
    );
    (rounded.mantissa(), rounded.scale())
}

/// Writes `units` ten-thousandths with `Decimal`'s `Display` at precision 4.
///
/// Trusted: the text is the one that `units_text` describes.
#[verifier::external_body]
fn write_four_places(units: i64) -> (r: String)
    ensures
        r@ == units_text(units as int),
{
    format!("{:.4}", Decimal::new(units, 4))
}

impl Decimal4 {
    /// The amount of `units` ten-thousandths, as a specification value.
    pub closed spec fn of_units(units: int) -> Decimal4 {
        Decimal4 { units: units as i64 }
    }

    /// `of_units` and the view are inverse to each other on the `i64` range,
    /// which holds every view.
    pub broadcast proof fn lemma_of_units(units: int)
        requires
            i64::MIN <= units <= i64::MAX,
        ensures
            (#[trigger] Decimal4::of_units(units))@ == units,
    {
    }

    /// Every amount lies in the `i64` range and is determined by its view.
    pub proof fn lemma_view(self)
        ensures
            i64::MIN <= self@ <= i64::MAX,
            Decimal4::of_units(self@) == self,
    {
    }

    /// The amount zero.
    pub fn zero() -> (r: Decimal4)
        ensures
            r@ == 0,
    {
        Decimal4 { units: 0 }
    }

    /// The amount of `units` ten-thousandths.
    pub fn from_units(units: i64) -> (r: Decimal4)
        ensures
            r@ == units,
            r == Decimal4::of_units(units as int),
    {
        Decimal4 { units }
    }

    /// The amount in ten-thousandths.
    pub fn units(&self) -> (r: i64)
        ensures
            r == self@,
    {
        self.units
    }

    /// Whether the amount is greater than zero.
    pub fn is_positive(&self) -> (r: bool)
        ensures
            r == (self@ > 0),
    {
        self.units > 0
    }

    /// Whether the amount is less than zero.
    pub fn is_negative(&self) -> (r: bool)
        ensures
            r == (self@ < 0),
    {
        self.units < 0
    }

    /// The sum, or `None` where it does not fit.
    pub fn checked_add(self, other: Decimal4) -> (r: Option<Decimal4>)
        ensures
            r is Some <==> i64::MIN <= self@ + other@ <= i64::MAX,
            r matches Some(sum) ==> sum@ == self@ + other@,
    {
        let sum: i128 = self.units as i128 + other.units as i128;
        if sum < i64::MIN as i128 || sum > i64::MAX as i128 {
            None
        } else {
            Some(Decimal4 { units: sum as i64 })
        }
    }

    /// The difference, or `None` where it does not fit.
    pub fn checked_sub(self, other: Decimal4) -> (r: Option<Decimal4>)
        ensures
            r is Some <==> i64::MIN <= self@ - other@ <= i64::MAX,
            r matches Some(difference) ==> difference@ == self@ - other@,
    {
        let difference: i128 = self.units as i128 - other.units as i128;
        if difference < i64::MIN as i128 || difference > i64::MAX as i128 {
            None
        } else {
            Some(Decimal4 { units: difference as i64 })
        }
    }

    /// The amount `coefficient * 10^-scale`, rounded half toward zero to four
    /// places. Fails with `OutOfRange` where the number is none that a 96-bit
    /// decimal holds, or where the rounded amount does not fit.
    pub fn from_scaled(coefficient: i128, scale: u32) -> (r: Result<Decimal4, Decimal4Error>)
        ensures
            match r {
                Ok(amount) => scaled_units(coefficient as int, scale as int) == Ok::<
                    int,
                    Decimal4Error,
                >(amount@),
                Err(e) => scaled_units(coefficient as int, scale as int) == Err::<
                    int,
                    Decimal4Error,
                >(e),
            },
    {
        if coefficient > MAX_COEFFICIENT || coefficient < -MAX_COEFFICIENT || scale > MAX_SCALE {
            return Err(Decimal4Error::OutOfRange);
        }
        let (rounded, places) = round_to_four_places(coefficient, scale);
        let factor: i128 = match places {
            0 => 10_000,
            1 => 1_000,
            2 => 100,
            3 => 10,
            _ => 1,
        };
        proof {
            reveal_with_fuel(pow10, 5);
            assert(factor == pow10((4 - places) as nat));
            if scale > 4 {
                lemma_pow10_positive((scale - 5) as nat);
                lemma_half_toward_zero_bound(coefficient as int, pow10((scale - 4) as nat));
            }
            assert(-MAX_COEFFICIENT <= rounded <= MAX_COEFFICIENT);
            assert(rounded * factor == rounded_units(coefficient as int, scale as int));
            assert(-MAX_COEFFICIENT * 10_000 <= rounded * factor <= MAX_COEFFICIENT * 10_000)
                by (nonlinear_arith)
                requires
                    -MAX_COEFFICIENT <= rounded <= MAX_COEFFICIENT,
                    1 <= factor <= 10_000,
            ;
        }
        let units: i128 = rounded * factor;
        if units < i64::MIN as i128 || units > i64::MAX as i128 {
            return Err(Decimal4Error::OutOfRange);
        }
        Ok(Decimal4 { units: units as i64 })
    }

    /// Reads an amount from decimal text, rounding half toward zero to four
    /// places. Fails with `Invalid` where the text is no decimal number and
    /// with `OutOfRange` where the amount does not fit.
    pub fn from_str(text: &str) -> (r: Result<Decimal4, Decimal4Error>)
        ensures
            match r {
                Ok(amount) => text_units(text@) == Ok::<int, Decimal4Error>(amount@),
                Err(e) => text_units(text@) == Err::<int, Decimal4Error>(e),
            },
            forall|amount: Decimal4|
                text@ == #[trigger] units_text(amount@) ==> r == Ok::<Decimal4, Decimal4Error>(
                    amount,
                ),
    {
        proof {
            reveal_with_fuel(pow10, 1);
        }
        match read_decimal(text) {
            Some((coefficient, scale)) => Decimal4::from_scaled(coefficient, scale),
            None => Err(Decimal4Error::Invalid),
        }
    }

    /// The amount written with exactly four fractional digits.
    pub fn to_string(&self) -> (r: String)
        ensures
            r@ == units_text(self@),
    {
        write_four_places(self.units)
    }
}

impl Default for Decimal4 {
    /// The amount zero.
    fn default() -> (r: Decimal4)
        ensures
            r@ == 0,
    {
        Decimal4 { units: 0 }
    }
}

impl From<i32> for Decimal4 {
    /// The amount of `value` whole units.
    fn from(value: i32) -> (r: Decimal4) {
        Decimal4 { units: (value as i64) * UNITS_PER_WHOLE }
    }
}

impl FromSpecImpl<i32> for Decimal4 {
    open spec fn obeys_from_spec() -> bool {
        true
    }

    open spec fn from_spec(value: i32) -> Decimal4 {
        Decimal4::of_units(value * UNITS_PER_WHOLE)
    }
}

impl From<u32> for Decimal4 {
    /// The amount of `value` whole units.
    fn from(value: u32) -> (r: Decimal4) {
        Decimal4 { units: (value as i64) * UNITS_PER_WHOLE }
    }
}

impl FromSpecImpl<u32> for Decimal4 {
    open spec fn obeys_from_spec() -> bool {
        true
    }

    open spec fn from_spec(value: u32) -> Decimal4 {
        Decimal4::of_units(value * UNITS_PER_WHOLE)
    }
}

impl std::ops::Add for Decimal4 {
    type Output = Decimal4;

    /// The sum; the operands are those whose sum fits.
    fn add(self, other: Decimal4) -> (r: Decimal4) {
        Decimal4 { units: self.units + other.units }
    }
}

impl AddSpecImpl for Decimal4 {
    open spec fn obeys_add_spec() -> bool {
        true
    }

    open spec fn add_req(self, other: Decimal4) -> bool {
        i64::MIN <= self@ + other@ <= i64::MAX
    }

    open spec fn add_spec(self, other: Decimal4) -> Decimal4 {
        Decimal4::of_units(self@ + other@)
    }
}

impl std::ops::Sub for Decimal4 {
    type Output = Decimal4;

    /// The difference; the operands are those whose difference fits.
    fn sub(self, other: Decimal4) -> (r: Decimal4) {
        Decimal4 { units: self.units - other.units }
    }
}

impl SubSpecImpl for Decimal4 {
    open spec fn obeys_sub_spec() -> bool {
        true
    }

    open spec fn sub_req(self, other: Decimal4) -> bool {
        i64::MIN <= self@ - other@ <= i64::MAX
    }

    open spec fn sub_spec(self, other: Decimal4) -> Decimal4 {
        Decimal4::of_units(self@ - other@)
    }
}

impl std::ops::AddAssign for Decimal4 {
    /// Adds `other`; the operands are those whose sum fits.
    fn add_assign(&mut self, other: Decimal4)
        requires
            i64::MIN <= old(self)@ + other@ <= i64::MAX,
        ensures
            final(self)@ == old(self)@ + other@,
    {
        self.units = self.units + other.units;
    }
}

impl std::ops::SubAssign for Decimal4 {
    /// Subtracts `other`; the operands are those whose difference fits.
    fn sub_assign(&mut self, other: Decimal4)
        requires
            i64::MIN <= old(self)@ - other@ <= i64::MAX,
        ensures
            final(self)@ == old(self)@ - other@,
    {
        self.units = self.units - other.units;
    }
}

impl FromStr for Decimal4 {
    type Err = Decimal4Error;

    /// Reads an amount as [`Decimal4::from_str`] does: decimal text, rounded
    /// half toward zero to four places, `Invalid` where the text is no
    /// decimal number and `OutOfRange` where the amount does not fit.
    fn from_str(text: &str) -> (r: Result<Decimal4, Decimal4Error>)
        ensures
            match r {
                Ok(amount) => text_units(text@) == Ok::<int, Decimal4Error>(amount@),
                Err(e) => text_units(text@) == Err::<int, Decimal4Error>(e),
            },
            forall|amount: Decimal4|
                text@ == #[trigger] units_text(amount@) ==> r == Ok::<Decimal4, Decimal4Error>(
                    amount,
                ),
    {
        Decimal4::from_str(text)
    }
}

/// Powers of ten are positive.
pub proof fn lemma_pow10_positive(n: nat)
    ensures
        pow10(n) >= 1,
    decreases n,
{
    if n > 0 {
        lemma_pow10_positive((n - 1) as nat);
    }
}

/// Rounding a quotient does not leave the range of the dividend.
pub proof fn lemma_half_toward_zero_bound(coefficient: int, divisor: int)
    requires
        divisor >= 10,
    ensures
        coefficient >= 0 ==> 0 <= half_toward_zero(coefficient, divisor) <= coefficient,
        coefficient <= 0 ==> coefficient <= half_toward_zero(coefficient, divisor) <= 0,
{
    let magnitude = if coefficient < 0 { -coefficient } else { coefficient };
    assert(0 <= magnitude / divisor && (magnitude / divisor) * divisor + magnitude % divisor
        == magnitude && 0 <= magnitude % divisor < divisor && (magnitude / divisor >= 1
        ==> magnitude / divisor + 1 <= magnitude) && (magnitude / divisor == 0 && 2 * (magnitude
        % divisor) > divisor ==> magnitude >= 1)) by (nonlinear_arith)
        requires
            magnitude >= 0,
            divisor >= 10,
    ;
}

} // verus!

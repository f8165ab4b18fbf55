use crate::error::ContractError;
use vstd::prelude::*;

verus! {

/// Number of atomic units in one whole unit of a `Decimal` (18 fractional digits).
pub const DECIMAL_FRACTIONAL: u128 = 1_000_000_000_000_000_000u128;

/// `10^18`, the scale of a `Decimal`.
pub open spec fn scale() -> int {
    1_000_000_000_000_000_000int
}

/// `value * numerator / denominator`, rounded down.
pub open spec fn ratio(value: int, numerator: int, denominator: int) -> int {
    value * numerator / denominator
}

/// The result of a checked `value * numerator / denominator` on 128-bit unsigned integers.
pub open spec fn checked_ratio(value: int, numerator: int, denominator: int) -> Result<
    u128,
    ContractError,
> {
    if denominator == 0 {
        Err(ContractError::DivideByZeroError)
    } else if ratio(value, numerator, denominator) > u128::MAX {
        Err(ContractError::Overflow)
    } else {
        Ok(ratio(value, numerator, denominator) as u128)
    }
}

/// A non-negative fixed-point number with 18 fractional digits: it stands for `atomics / 10^18`.
#[derive(Clone, Copy, Debug, PartialEq, Eq, Structural)]
pub struct Decimal {
    pub atomics: u128,
}

/// `Uint128::checked_multiply_ratio` of cosmwasm-std: the product is taken in 256 bits, then
/// divided and rounded down; a zero denominator and a quotient beyond 128 bits are errors.
#[verifier::external_body]
fn uint128_checked_multiply_ratio(value: u128, numerator: u128, denominator: u128) -> (r: Result<
    u128,
    ContractError,
>)
    ensures
        r == checked_ratio(value as int, numerator as int, denominator as int),
{
    match cosmwasm_std::Uint128::new(value).checked_multiply_ratio(numerator, denominator) {
        Ok(v) => Ok(v.u128()),
        Err(cosmwasm_std::CheckedMultiplyRatioError::DivideByZero) => Err(
            ContractError::DivideByZeroError,
        ),
        Err(cosmwasm_std::CheckedMultiplyRatioError::Overflow) => Err(ContractError::Overflow),
    }
}

/// `Decimal::checked_from_ratio` of cosmwasm-std: the decimal whose atomics are
/// `numerator * 10^18 / denominator` rounded down; a zero denominator and atomics beyond 128 bits
/// are errors.
#[verifier::external_body]
fn decimal_checked_from_ratio(numerator: u128, denominator: u128) -> (r: Result<
    u128,
    ContractError,
>)
    ensures
        r == checked_ratio(numerator as int, scale(), denominator as int),
{
    match cosmwasm_std::Decimal::checked_from_ratio(numerator, denominator) {
        Ok(d) => Ok(d.atomics().u128()),
        Err(cosmwasm_std::CheckedFromRatioError::DivideByZero) => Err(
            ContractError::DivideByZeroError,
        ),
        Err(cosmwasm_std::CheckedFromRatioError::Overflow) => Err(ContractError::Overflow),
    }
}

/// `Decimal::checked_mul` of cosmwasm-std: the product of the atomics is taken in 256 bits and
/// divided by `10^18`, rounded down; atomics beyond 128 bits are an overflow.
#[verifier::external_body]
fn decimal_checked_mul(a: u128, b: u128) -> (r: Result<u128, ContractError>)
    ensures
        r == checked_ratio(a as int, b as int, scale()),
{
    match cosmwasm_std::Decimal::raw(a).checked_mul(cosmwasm_std::Decimal::raw(b)) {
        Ok(d) => Ok(d.atomics().u128()),
        Err(_) => Err(ContractError::Overflow),
    }
}

/// `value * numerator / denominator` rounded down, computed without intermediate overflow.
pub fn multiply_ratio(value: u128, numerator: u128, denominator: u128) -> (r: Result<
    u128,
    ContractError,
>)
    ensures
        r == checked_ratio(value as int, numerator as int, denominator as int),
{
    uint128_checked_multiply_ratio(value, numerator, denominator)
}

impl Decimal {
    /// The value as a fraction: `atomics / 10^18`.
    pub open spec fn value_atomics(self) -> int {
        self.atomics as int
    }

    pub fn zero() -> (d: Decimal)
        ensures
            d.atomics == 0,
    {
        Decimal { atomics: 0 }
    }

    pub fn one() -> (d: Decimal)
        ensures
            d.atomics == scale(),
    {
        Decimal { atomics: DECIMAL_FRACTIONAL }
    }

    /// `x / 100`.
    pub fn percent(x: u64) -> (d: Decimal)
        ensures
            d.atomics == x * 10_000_000_000_000_000int,
    {
        Decimal { atomics: (x as u128) * 10_000_000_000_000_000u128 }
    }

    /// The decimal with the given atomics.
    pub fn raw(atomics: u128) -> (d: Decimal)
        ensures
            d.atomics == atomics,
    {
        Decimal { atomics }
    }

    pub fn is_zero(&self) -> (b: bool)
        ensures
            b == (self.atomics == 0),
    {
        self.atomics == 0
    }

    pub fn checked_add(self, other: Decimal) -> (r: Result<Decimal, ContractError>)
        ensures
            self.atomics + other.atomics <= u128::MAX ==> r == Ok::<Decimal, ContractError>(
                Decimal { atomics: (self.atomics + other.atomics) as u128 },
            ),
            self.atomics + other.atomics > u128::MAX ==> r == Err::<Decimal, ContractError>(
                ContractError::Overflow,
            ),
    {
        match self.atomics.checked_add(other.atomics) {
            Some(a) => Ok(Decimal { atomics: a }),
            None => Err(ContractError::Overflow),
        }
    }

    pub fn checked_sub(self, other: Decimal) -> (r: Result<Decimal, ContractError>)
        ensures
            self.atomics >= other.atomics ==> r == Ok::<Decimal, ContractError>(
                Decimal { atomics: (self.atomics - other.atomics) as u128 },
            ),
            self.atomics < other.atomics ==> r == Err::<Decimal, ContractError>(
                ContractError::Overflow,
            ),
    {
        match self.atomics.checked_sub(other.atomics) {
            Some(a) => Ok(Decimal { atomics: a }),
            None => Err(ContractError::Overflow),
        }
    }

    /// Product of two decimals, rounded down to 18 fractional digits.
    pub fn checked_mul(self, other: Decimal) -> (r: Result<Decimal, ContractError>)
        ensures
            ratio(self.atomics as int, other.atomics as int, scale()) <= u128::MAX ==> r == Ok::<
                Decimal,
                ContractError,
            >(Decimal { atomics: ratio(self.atomics as int, other.atomics as int, scale()) as u128 }),
            ratio(self.atomics as int, other.atomics as int, scale()) > u128::MAX ==> r == Err::<
                Decimal,
                ContractError,
            >(ContractError::Overflow),
    {
        match decimal_checked_mul(self.atomics, other.atomics) {
            Ok(a) => Ok(Decimal { atomics: a }),
            Err(e) => Err(e),
        }
    }

    /// `numerator / denominator` rounded down to 18 fractional digits.
    pub fn from_ratio(numerator: u128, denominator: u128) -> (r: Result<Decimal, ContractError>)
        ensures
            denominator == 0 ==> r == Err::<Decimal, ContractError>(
                ContractError::DivideByZeroError,
            ),
            denominator != 0 && ratio(numerator as int, scale(), denominator as int) > u128::MAX
                ==> r == Err::<Decimal, ContractError>(ContractError::Overflow),
            denominator != 0 && ratio(numerator as int, scale(), denominator as int)
                <= u128::MAX ==> r == Ok::<Decimal, ContractError>(
                Decimal {
                    atomics: ratio(numerator as int, scale(), denominator as int) as u128,
                },
            ),
    {
        match decimal_checked_from_ratio(numerator, denominator) {
            Ok(a) => Ok(Decimal { atomics: a }),
            Err(e) => Err(e),
        }
    }

    /// The whole part, rounded down (the decimal multiplied by the integer one).
    pub fn to_uint_floor(self) -> (r: u128)
        ensures
            r == (self.atomics as int) / scale(),
    {
        self.atomics / DECIMAL_FRACTIONAL
    }

    /// The fractional part: what is left once the whole part is taken away.
    pub fn fractional_part(self) -> (r: Decimal)
        ensures
            r.atomics == (self.atomics as int) % scale(),
    {
        Decimal { atomics: self.atomics % DECIMAL_FRACTIONAL }
    }
}

/// Multiplying by a factor no greater than the denominator gives no more than the value.
pub proof fn lemma_ratio_le(value: int, numerator: int, denominator: int)
    requires
        value >= 0,
        0 <= numerator <= denominator,
        denominator > 0,
    ensures
        0 <= ratio(value, numerator, denominator) <= value,
{
    assert(value * numerator <= value * denominator) by (nonlinear_arith)
        requires
            value >= 0,
            0 <= numerator <= denominator,
    ;
    assert(value * numerator >= 0) by (nonlinear_arith)
        requires
            value >= 0,
            numerator >= 0,
    ;
    vstd::arithmetic::div_mod::lemma_div_is_ordered(
        value * numerator,
        value * denominator,
        denominator,
    );
    vstd::arithmetic::div_mod::lemma_div_multiples_vanish(value, denominator);
    assert(value * denominator == denominator * value) by (nonlinear_arith);
    vstd::arithmetic::div_mod::lemma_div_pos_is_pos(value * numerator, denominator);
}

/// A factor strictly below the denominator leaves a positive value strictly smaller.
pub proof fn lemma_ratio_lt(value: int, numerator: int, denominator: int)
    requires
        value > 0,
        0 <= numerator < denominator,
    ensures
        ratio(value, numerator, denominator) < value,
{
    assert(value * numerator < value * denominator) by (nonlinear_arith)
        requires
            value > 0,
            0 <= numerator < denominator,
    ;
    assert(value * numerator >= 0) by (nonlinear_arith)
        requires
            value > 0,
            numerator >= 0,
    ;
    assert(value * numerator / denominator < value) by (nonlinear_arith)
        requires
            value * numerator < value * denominator,
            value * numerator >= 0,
            denominator > 0,
    ;
}

/// A ratio of a numerator at most the denominator, scaled by `10^18`, is at most `10^18`.
pub proof fn lemma_scaled_ratio_le_scale(numerator: int, denominator: int)
    requires
        0 <= numerator <= denominator,
        denominator > 0,
    ensures
        0 <= ratio(numerator, scale(), denominator) <= scale(),
{
    assert(numerator * scale() <= denominator * scale()) by (nonlinear_arith)
        requires
            0 <= numerator <= denominator,
    ;
    assert(numerator * scale() >= 0) by (nonlinear_arith)
        requires
            numerator >= 0,
    ;
    vstd::arithmetic::div_mod::lemma_div_is_ordered(
        numerator * scale(),
        denominator * scale(),
        denominator,
    );
    vstd::arithmetic::div_mod::lemma_div_multiples_vanish(scale(), denominator);
    assert(denominator * scale() == scale() * denominator) by (nonlinear_arith);
    assert(scale() * denominator == denominator * scale());
    vstd::arithmetic::div_mod::lemma_div_pos_is_pos(numerator * scale(), denominator);
}

/// `x` as a wide decimal's whole part and fraction (for `0 <= x < 2^128 * 10^18`).
pub open spec fn wide(x: int) -> WideDecimal {
    WideDecimal { units: (x / scale()) as u128, frac: (x % scale()) as u128 }
}

/// The largest value, in atomics, that a wide decimal holds with its fraction below one.
pub open spec fn wide_limit() -> int {
    (u128::MAX + 1) * scale()
}

/// A non-negative fixed-point number with 18 fractional digits and a 128-bit whole part: it
/// stands for `units + frac / 10^18`, `frac` being below `10^18` for every value this library
/// makes. Distribution indexes and prices, which are ratios of 128-bit amounts, always fit.
#[derive(Clone, Copy, Debug, PartialEq, Eq, Structural)]
pub struct WideDecimal {
    pub units: u128,
    pub frac: u128,
}

impl WideDecimal {
    /// The value in atomics: `units * 10^18 + frac`.
    pub open spec fn val(self) -> int {
        self.units * scale() + self.frac
    }

    pub fn zero() -> (d: WideDecimal)
        ensures
            d == wide(0),
    {
        WideDecimal { units: 0, frac: 0 }
    }

    /// The wide decimal with the given atomics.
    pub fn raw(atomics: u128) -> (d: WideDecimal)
        ensures
            d == wide(atomics as int),
    {
        WideDecimal { units: atomics / DECIMAL_FRACTIONAL, frac: atomics % DECIMAL_FRACTIONAL }
    }

    /// The wide decimal with the value of `d`.
    pub fn from_decimal(d: Decimal) -> (r: WideDecimal)
        ensures
            r == wide(d.atomics as int),
    {
        WideDecimal::raw(d.atomics)
    }

    /// The same value with its fraction below one; an error when its whole part does not fit.
    pub fn normalized(self) -> (r: Result<WideDecimal, ContractError>)
        ensures
            self.val() < wide_limit() ==> r == Ok::<WideDecimal, ContractError>(wide(self.val())),
            self.val() >= wide_limit() ==> r == Err::<WideDecimal, ContractError>(
                ContractError::Overflow,
            ),
    {
        proof {
            lemma_wide_parts(self.units as int, self.frac as int);
        }
        match self.units.checked_add(self.frac / DECIMAL_FRACTIONAL) {
            Some(u) => WideDecimal { units: u, frac: self.frac % DECIMAL_FRACTIONAL }.ok(),
            None => Err(ContractError::Overflow),
        }
    }

    fn ok(self) -> (r: Result<WideDecimal, ContractError>)
        ensures
            r == Ok::<WideDecimal, ContractError>(self),
    {
        Ok(self)
    }

    pub fn checked_add(self, other: WideDecimal) -> (r: Result<WideDecimal, ContractError>)
        ensures
            self.val() + other.val() < wide_limit() ==> r == Ok::<WideDecimal, ContractError>(
                wide(self.val() + other.val()),
            ),
            self.val() + other.val() >= wide_limit() ==> r == Err::<WideDecimal, ContractError>(
                ContractError::Overflow,
            ),
    {
        let a = match self.normalized() {
            Ok(v) => v,
            Err(e) => return Err(e),
        };
        let b = match other.normalized() {
            Ok(v) => v,
            Err(e) => return Err(e),
        };
        proof {
            lemma_wide_val(self.val());
            lemma_wide_val(other.val());
        }
        let f = a.frac + b.frac;
        let units = match a.units.checked_add(b.units) {
            Some(u) => u,
            None => return Err(ContractError::Overflow),
        };
        let sum = WideDecimal { units, frac: f };
        sum.normalized()
    }

    pub fn checked_sub(self, other: WideDecimal) -> (r: Result<WideDecimal, ContractError>)
        ensures
            self.val() < wide_limit() && other.val() <= self.val() ==> r == Ok::<
                WideDecimal,
                ContractError,
            >(wide(self.val() - other.val())),
            self.val() < other.val() || self.val() >= wide_limit() ==> r == Err::<
                WideDecimal,
                ContractError,
            >(ContractError::Overflow),
    {
        let a = match self.normalized() {
            Ok(v) => v,
            Err(e) => return Err(e),
        };
        let b = match other.normalized() {
            Ok(v) => v,
            Err(_) => return Err(ContractError::Overflow),
        };
        proof {
            lemma_wide_val(self.val());
            lemma_wide_val(other.val());
        }
        if a.units < b.units || (a.units == b.units && a.frac < b.frac) {
            return Err(ContractError::Overflow);
        }
        let r = if a.frac >= b.frac {
            WideDecimal { units: a.units - b.units, frac: a.frac - b.frac }
        } else {
            WideDecimal { units: a.units - b.units - 1, frac: a.frac + DECIMAL_FRACTIONAL - b.frac }
        };
        proof {
            lemma_wide_parts(r.units as int, r.frac as int);
        }
        Ok(r)
    }

    /// `numerator / denominator` rounded down to 18 fractional digits.
    pub fn from_ratio(numerator: u128, denominator: u128) -> (r: Result<WideDecimal, ContractError>)
        ensures
            denominator == 0 ==> r == Err::<WideDecimal, ContractError>(
                ContractError::DivideByZeroError,
            ),
            denominator != 0 ==> r == Ok::<WideDecimal, ContractError>(
                wide(ratio(numerator as int, scale(), denominator as int)),
            ),
    {
        if denominator == 0 {
            return Err(ContractError::DivideByZeroError);
        }
        let units = numerator / denominator;
        let rest = numerator % denominator;
        proof {
            lemma_ratio_lt_scale(rest as int, denominator as int);
        }
        let frac = match multiply_ratio(rest, DECIMAL_FRACTIONAL, denominator) {
            Ok(f) => f,
            Err(e) => return Err(e),
        };
        proof {
            lemma_wide_ratio(numerator as int, denominator as int, frac as int);
        }
        Ok(WideDecimal { units, frac })
    }
}

/// `rest * 10^18 / d` is below `10^18` when `rest < d`.
proof fn lemma_ratio_lt_scale(rest: int, d: int)
    requires
        0 <= rest < d,
    ensures
        0 <= ratio(rest, scale(), d) < scale(),
{
    assert(rest * scale() < d * scale()) by (nonlinear_arith)
        requires
            0 <= rest < d,
    ;
    assert(rest * scale() >= 0) by (nonlinear_arith)
        requires
            rest >= 0,
    ;
    assert(rest * scale() / d < scale()) by (nonlinear_arith)
        requires
            rest * scale() < d * scale(),
            rest * scale() >= 0,
            d > 0,
    ;
    vstd::arithmetic::div_mod::lemma_div_pos_is_pos(rest * scale(), d);
}

/// `n * 10^18 / d` has whole part `n / d` and fraction `(n mod d) * 10^18 / d`.
proof fn lemma_wide_ratio(n: int, d: int, frac: int)
    requires
        n >= 0,
        d > 0,
        frac == ratio(n % d, scale(), d),
    ensures
        wide(ratio(n, scale(), d)) == (WideDecimal { units: (n / d) as u128, frac: frac as u128 }),
        0 <= n / d <= n,
{
    let s = scale();
    vstd::arithmetic::div_mod::lemma_fundamental_div_mod(n, d);
    vstd::arithmetic::div_mod::lemma_mod_bound(n, d);
    vstd::arithmetic::div_mod::lemma_div_pos_is_pos(n, d);
    vstd::arithmetic::div_mod::lemma_div_is_ordered_by_denominator(n, 1, d);
    let q = n / d;
    let rest = n % d;
    lemma_ratio_lt_scale(rest, d);
    vstd::arithmetic::div_mod::lemma_fundamental_div_mod(rest * s, d);
    vstd::arithmetic::div_mod::lemma_mod_bound(rest * s, d);
    assert(n * s == (q * s + frac) * d + (rest * s) % d) by (nonlinear_arith)
        requires
            n == d * q + rest,
            rest * s == d * ((rest * s) / d) + (rest * s) % d,
            frac == (rest * s) / d,
    ;
    vstd::arithmetic::div_mod::lemma_fundamental_div_mod_converse(n * s, d, q * s + frac, (rest * s) % d);
    vstd::arithmetic::div_mod::lemma_fundamental_div_mod_converse(q * s + frac, s, q, frac);
}

/// The value of a whole part and a fraction splits back into them once normalized.
pub proof fn lemma_wide_parts(units: int, frac: int)
    requires
        units >= 0,
        frac >= 0,
    ensures
        (units * scale() + frac) / scale() == units + frac / scale(),
        (units * scale() + frac) % scale() == frac % scale(),
        0 <= frac % scale() < scale(),
{
    vstd::arithmetic::div_mod::lemma_fundamental_div_mod(frac, scale());
    vstd::arithmetic::div_mod::lemma_mod_bound(frac, scale());
    assert(units * scale() + frac == (units + frac / scale()) * scale() + frac % scale())
        by (nonlinear_arith)
        requires
            frac == scale() * (frac / scale()) + frac % scale(),
    ;
    vstd::arithmetic::div_mod::lemma_fundamental_div_mod_converse(
        units * scale() + frac,
        scale(),
        units + frac / scale(),
        frac % scale(),
    );
}

/// A wide decimal made from a value below the limit gives that value back.
pub proof fn lemma_wide_val(x: int)
    requires
        0 <= x < wide_limit(),
    ensures
        wide(x).val() == x,
        wide(x).frac < scale(),
{
    vstd::arithmetic::div_mod::lemma_fundamental_div_mod(x, scale());
    vstd::arithmetic::div_mod::lemma_mod_bound(x, scale());
    vstd::arithmetic::div_mod::lemma_div_pos_is_pos(x, scale());
    assert(x / scale() <= u128::MAX) by (nonlinear_arith)
        requires
            0 <= x < (u128::MAX + 1) * scale(),
            x == scale() * (x / scale()) + x % scale(),
            0 <= x % scale() < scale(),
    ;
    assert(wide(x).val() == (x / scale()) * scale() + x % scale());
    assert((x / scale()) * scale() == scale() * (x / scale())) by (nonlinear_arith);
}

/// `released * 10^18 / shares`, with a 128-bit `released` and `shares` at least one, fits a
/// wide decimal.
pub proof fn lemma_ratio_fits_wide(released: int, shares: int)
    requires
        0 <= released <= u128::MAX,
        shares >= 1,
    ensures
        0 <= ratio(released, scale(), shares) < wide_limit(),
{
    assert(released * scale() >= 0) by (nonlinear_arith)
        requires
            released >= 0,
    ;
    vstd::arithmetic::div_mod::lemma_div_pos_is_pos(released * scale(), shares);
    vstd::arithmetic::div_mod::lemma_div_is_ordered_by_denominator(released * scale(), 1, shares);
    assert(released * scale() < wide_limit()) by (nonlinear_arith)
        requires
            0 <= released <= u128::MAX,
    ;
}

} // verus!

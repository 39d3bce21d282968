//! Fixed-point quotations with eighteen fractional digits.
//!
//! A [`Price`] holds the count of atomic units (1.0 is `10^18` units) of a
//! `cosmwasm_std::Decimal`. Every operation on it is carried out by that type;
//! the functions below that are marked `external_body` make those calls, and
//! their contracts are taken on trust from the `cosmwasm-std` source.

use core::str::FromStr;
use vstd::prelude::*;

verus! {

/// Atomic units in 1.0.
pub const UNITS_PER_ONE: u128 = 1_000_000_000_000_000_000u128;

/// Number of fractional digits of a quotation.
pub const FRACTIONAL_DIGITS: u32 = 18u32;

/// Ten to the power `n`.
pub open spec fn pow10(n: nat) -> nat
    decreases n,
{
    if n == 0 {
        1
    } else {
        10 * pow10((n - 1) as nat)
    }
}

/// The atomic units of the quotation written as `atomics` units of
/// `10^-places`, or `None` when it exceeds the representable range. Digits
/// beyond the eighteenth fractional one are cut off.
pub open spec fn scaled_atomics(atomics: u128, places: u32) -> Option<u128> {
    if places <= FRACTIONAL_DIGITS {
        let scaled = atomics * pow10((FRACTIONAL_DIGITS - places) as nat);
        if scaled <= u128::MAX {
            Some(scaled as u128)
        } else {
            None
        }
    } else {
        Some((atomics as nat / pow10((places - FRACTIONAL_DIGITS) as nat)) as u128)
    }
}

/// Atomic units of the quotient of two quotations given by their atomic
/// units: `a * 10^18 / b`, rounded down.
pub open spec fn quotient_atomics(a: u128, b: u128) -> nat
    recommends
        b != 0,
{
    (a as nat * UNITS_PER_ONE as nat) / (b as nat)
}

/// What `cosmwasm_std::Decimal`'s `FromStr` makes of a text: the atomic
/// units of the decimal it reads, or `None` where it rejects the text.
pub uninterp spec fn parsed_decimal(text: Seq<char>) -> Option<u128>;

/// What `cosmwasm_std::Decimal`'s `Display` writes for a decimal of
/// `atomics` atomic units.
pub uninterp spec fn decimal_text(atomics: u128) -> Seq<char>;

/// `Decimal::zero()`: the decimal of no atomic units.
#[verifier::external_body]
pub(crate) fn decimal_zero() -> (atomics: u128)
    ensures
        atomics == 0,
{
    cosmwasm_std::Decimal::zero().atomics().u128()
}

/// `Decimal::from_atomics`: up to eighteen places the units are multiplied by
/// the missing power of ten, and the call fails when the product leaves the
/// 128-bit range; beyond eighteen places they are divided by the surplus
/// power of ten, rounding down.
#[verifier::external_body]
pub(crate) fn decimal_from_atomics(atomics: u128, places: u32) -> (scaled: Option<u128>)
    ensures
        scaled == scaled_atomics(atomics, places),
{
    match cosmwasm_std::Decimal::from_atomics(atomics, places) {
        Ok(d) => Some(d.atomics().u128()),
        Err(_) => None,
    }
}

/// `Decimal + Decimal`: adds the atomic units. The outside addition panics on
/// overflow, which the precondition excludes.
#[verifier::external_body]
pub(crate) fn decimal_add(a: u128, b: u128) -> (sum: u128)
    requires
        a + b <= u128::MAX,
    ensures
        sum == a + b,
{
    (cosmwasm_std::Decimal::raw(a) + cosmwasm_std::Decimal::raw(b)).atomics().u128()
}

/// `Decimal / Decimal`: `a * 10^18 / b` in atomic units, rounded down. The
/// outside division panics on a zero divisor and on a quotient beyond the
/// 128-bit range, which the preconditions exclude.
#[verifier::external_body]
pub(crate) fn decimal_div(a: u128, b: u128) -> (quotient: u128)
    requires
        b != 0,
        quotient_atomics(a, b) <= u128::MAX,
    ensures
        quotient == quotient_atomics(a, b),
{
    (cosmwasm_std::Decimal::raw(a) / cosmwasm_std::Decimal::raw(b)).atomics().u128()
}

/// `Decimal::from_str`: the result is named by [`parsed_decimal`]; the
/// outside error's text is dropped.
#[verifier::external_body]
pub(crate) fn decimal_parse(text: &str) -> (parsed: Option<u128>)
    ensures
        parsed == parsed_decimal(text@),
{
    match cosmwasm_std::Decimal::from_str(text) {
        Ok(d) => Some(d.atomics().u128()),
        Err(_) => None,
    }
}

/// `Decimal`'s `to_string`: the result is named by [`decimal_text`].
#[verifier::external_body]
pub(crate) fn decimal_to_string(atomics: u128) -> (text: String)
    ensures
        text@ == decimal_text(atomics),
{
    cosmwasm_std::Decimal::raw(atomics).to_string()
}

/// A non-negative fixed-point quotation, held as its count of atomic units.
#[derive(Clone, Copy, Debug, PartialEq, Eq, Structural)]
pub struct Price {
    pub atomics: u128,
}

impl View for Price {
    type V = nat;

    open spec fn view(&self) -> nat {
        self.atomics as nat
    }
}

impl Price {
    /// The quotation of the given atomic units, where there are any.
    pub open spec fn of(atomics: Option<u128>) -> Option<Price> {
        match atomics {
            Some(atomics) => Some(Price { atomics }),
            None => None,
        }
    }

    /// The quotation 0.
    pub fn zero() -> (p: Price)
        ensures
            p@ == 0,
    {
        Price { atomics: decimal_zero() }
    }

    /// The quotation of `atomics` units of `10^-decimal_places`, or `None`
    /// where it exceeds the representable range.
    pub fn from_atomics(atomics: u128, decimal_places: u32) -> (p: Option<Price>)
        ensures
            p == Price::of(scaled_atomics(atomics, decimal_places)),
    {
        match decimal_from_atomics(atomics, decimal_places) {
            Some(scaled) => Some(Price { atomics: scaled }),
            None => None,
        }
    }

    /// Reads a decimal literal such as `1.25`, or returns `None` where the
    /// text is none.
    pub fn parse(text: &str) -> (p: Option<Price>)
        ensures
            p == Price::of(parsed_decimal(text@)),
    {
        match decimal_parse(text) {
            Some(atomics) => Some(Price { atomics }),
            None => None,
        }
    }

    /// The decimal literal of this quotation.
    pub fn text(&self) -> (s: String)
        ensures
            s@ == decimal_text(self.atomics),
    {
        decimal_to_string(self.atomics)
    }
}

/// Three whole units scale to `3 * 10^18` atomic units.
pub proof fn lemma_three_scaled()
    ensures
        scaled_atomics(3, 0) == Some(3_000_000_000_000_000_000u128),
{
    reveal_with_fuel(pow10, 19);
}

/// Dividing by three whole units divides the atomic units by three.
pub proof fn lemma_quotient_by_three(a: u128)
    ensures
        quotient_atomics(a, 3_000_000_000_000_000_000u128) == a as nat / 3,
{
    let unit = UNITS_PER_ONE as int;
    vstd::arithmetic::div_mod::lemma_div_multiples_vanish_quotient(unit, a as int, 3);
    assert(unit * (a as int) == (a as nat * UNITS_PER_ONE as nat) as int) by (nonlinear_arith)
        requires
            unit == UNITS_PER_ONE as int,
    ;
}

} // verus!

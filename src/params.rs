//! The real parameters of a contract, as an immutable value.
//!
//! The record is generic in how a real number is represented; a Greek
//! prices copies of it with one parameter moved, and never the record it
//! was asked on.
use vstd::prelude::*;
use crate::domain::Parameter;

verus! {

/// Underlying price, strike, maturity, volatility and risk-free rate.
#[derive(Debug, Clone, Copy)]
pub struct MarketParams<R> {
    pub underlying: R,
    pub strike: R,
    pub maturity: R,
    pub volatility: R,
    pub risk_free_rate: R,
}

/// The value of `p` in `m`, or `None` for a count, which the record does
/// not hold.
pub open spec fn field_of<R>(m: MarketParams<R>, p: Parameter) -> Option<R> {
    match p {
        Parameter::Underlying => Some(m.underlying),
        Parameter::Strike => Some(m.strike),
        Parameter::Maturity => Some(m.maturity),
        Parameter::Volatility => Some(m.volatility),
        Parameter::RiskFreeRate => Some(m.risk_free_rate),
        Parameter::Steps | Parameter::Simulations => None,
    }
}

impl<R: Copy> MarketParams<R> {
    /// The value of `p`, if the record holds it.
    pub fn get(&self, p: Parameter) -> (r: Option<R>)
        ensures
            r == field_of(*self, p),
    {
        match p {
            Parameter::Underlying => Some(self.underlying),
            Parameter::Strike => Some(self.strike),
            Parameter::Maturity => Some(self.maturity),
            Parameter::Volatility => Some(self.volatility),
            Parameter::RiskFreeRate => Some(self.risk_free_rate),
            Parameter::Steps | Parameter::Simulations => None,
        }
    }

    /// A copy with `p` moved by `shift` and every other parameter as it is.
    pub fn bumped<F: Fn(R) -> R>(&self, p: Parameter, shift: F) -> (r: Self)
        requires
            forall|x: R| #[trigger] shift.requires((x,)),
        ensures
            forall|q: Parameter| q != p ==> #[trigger] field_of(r, q) == field_of(*self, q),
            field_of(*self, p) matches Some(x) ==> (field_of(r, p) matches Some(y) && shift.ensures(
                (x,),
                y,
            )),
            field_of(*self, p) is None ==> r == *self,
    {
        let mut r = *self;
        match p {
            Parameter::Underlying => r.underlying = shift(self.underlying),
            Parameter::Strike => r.strike = shift(self.strike),
            Parameter::Maturity => r.maturity = shift(self.maturity),
            Parameter::Volatility => r.volatility = shift(self.volatility),
            Parameter::RiskFreeRate => r.risk_free_rate = shift(self.risk_free_rate),
            Parameter::Steps | Parameter::Simulations => {},
        }
        r
    }
}

} // verus!

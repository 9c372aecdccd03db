//! The domain of the contract parameters.
//!
//! A real parameter enters the checks by its sign class, which the caller
//! reads off the number; a count enters as it is.
use vstd::prelude::*;

verus! {

/// The sign class of a real parameter.
#[derive(PartialEq, Eq, Structural, Debug, Clone, Copy)]
pub enum Sign {
    Negative,
    Zero,
    Positive,
    /// Not a number: no comparison holds of it.
    Undefined,
}

/// A parameter of an option contract or of a pricing model.
#[derive(PartialEq, Eq, Structural, Debug, Clone, Copy)]
pub enum Parameter {
    Underlying,
    Strike,
    Maturity,
    Volatility,
    RiskFreeRate,
    Steps,
    Simulations,
}

/// Why a set of parameters is refused at construction.
#[derive(PartialEq, Eq, Structural, Debug, Clone, Copy)]
pub enum ValidationError {
    /// The underlying price is not greater than zero.
    NonPositiveUnderlying,
    /// The strike is not greater than zero.
    NonPositiveStrike,
    /// The maturity is below zero (or not a number).
    NegativeMaturity,
    /// The volatility is below zero (or not a number).
    NegativeVolatility,
    /// A lattice or a path has no time step.
    ZeroSteps,
    /// A simulation has no path.
    ZeroSimulations,
}

/// The sign classes of the real parameters that every model but the
/// baseline reads. The risk-free rate may have any sign and is not among them.
#[derive(PartialEq, Eq, Structural, Debug, Clone, Copy)]
pub struct MarketSigns {
    pub underlying: Sign,
    pub strike: Sign,
    pub maturity: Sign,
    pub volatility: Sign,
}

pub open spec fn parameter_of(e: ValidationError) -> Parameter {
    match e {
        ValidationError::NonPositiveUnderlying => Parameter::Underlying,
        ValidationError::NonPositiveStrike => Parameter::Strike,
        ValidationError::NegativeMaturity => Parameter::Maturity,
        ValidationError::NegativeVolatility => Parameter::Volatility,
        ValidationError::ZeroSteps => Parameter::Steps,
        ValidationError::ZeroSimulations => Parameter::Simulations,
    }
}

impl ValidationError {
    /// The parameter whose constraint was violated.
    pub fn parameter(&self) -> (r: Parameter)
        ensures
            r == parameter_of(*self),
    {
        match self {
            ValidationError::NonPositiveUnderlying => Parameter::Underlying,
            ValidationError::NonPositiveStrike => Parameter::Strike,
            ValidationError::NegativeMaturity => Parameter::Maturity,
            ValidationError::NegativeVolatility => Parameter::Volatility,
            ValidationError::ZeroSteps => Parameter::Steps,
            ValidationError::ZeroSimulations => Parameter::Simulations,
        }
    }
}

pub open spec fn non_negative(s: Sign) -> bool {
    s == Sign::Zero || s == Sign::Positive
}

/// The first constraint, in parameter order, that an underlying price and a
/// strike violate: both must be greater than zero.
pub open spec fn spot_strike_violation(underlying: Sign, strike: Sign) -> Option<ValidationError> {
    if underlying != Sign::Positive {
        Some(ValidationError::NonPositiveUnderlying)
    } else if strike != Sign::Positive {
        Some(ValidationError::NonPositiveStrike)
    } else {
        None
    }
}

/// The first constraint that `m` violates: besides the underlying price and
/// the strike, the maturity and the volatility must not be below zero.
pub open spec fn market_violation(m: MarketSigns) -> Option<ValidationError> {
    if spot_strike_violation(m.underlying, m.strike) is Some {
        spot_strike_violation(m.underlying, m.strike)
    } else if !non_negative(m.maturity) {
        Some(ValidationError::NegativeMaturity)
    } else if !non_negative(m.volatility) {
        Some(ValidationError::NegativeVolatility)
    } else {
        None
    }
}

/// The first constraint that the parameters of a lattice violate: it needs
/// at least one time step.
pub open spec fn lattice_violation(m: MarketSigns, steps: u32) -> Option<ValidationError> {
    if market_violation(m) is Some {
        market_violation(m)
    } else if steps == 0 {
        Some(ValidationError::ZeroSteps)
    } else {
        None
    }
}

/// The first constraint that the parameters of a simulation violate: each
/// path needs at least one time step, and there is at least one path.
pub open spec fn simulation_violation(m: MarketSigns, steps: u32, simulations: u32) -> Option<
    ValidationError,
> {
    if lattice_violation(m, steps) is Some {
        lattice_violation(m, steps)
    } else if simulations == 0 {
        Some(ValidationError::ZeroSimulations)
    } else {
        None
    }
}

pub open spec fn as_result(v: Option<ValidationError>) -> Result<(), ValidationError> {
    match v {
        Some(e) => Err(e),
        None => Ok(()),
    }
}

/// Checks the parameters of the intrinsic-value baseline.
pub fn check_spot_strike(underlying: Sign, strike: Sign) -> (r: Result<(), ValidationError>)
    ensures
        r == as_result(spot_strike_violation(underlying, strike)),
{
    if underlying != Sign::Positive {
        Err(ValidationError::NonPositiveUnderlying)
    } else if strike != Sign::Positive {
        Err(ValidationError::NonPositiveStrike)
    } else {
        Ok(())
    }
}

fn is_non_negative(s: Sign) -> (r: bool)
    ensures
        r == non_negative(s),
{
    s == Sign::Zero || s == Sign::Positive
}

impl MarketSigns {
    /// Checks the parameters of the Black-Scholes model.
    pub fn check(&self) -> (r: Result<(), ValidationError>)
        ensures
            r == as_result(market_violation(*self)),
    {
        let spot_strike = check_spot_strike(self.underlying, self.strike);
        if spot_strike.is_err() {
            spot_strike
        } else if !is_non_negative(self.maturity) {
            Err(ValidationError::NegativeMaturity)
        } else if !is_non_negative(self.volatility) {
            Err(ValidationError::NegativeVolatility)
        } else {
            Ok(())
        }
    }

    /// Checks the parameters of a binomial lattice of `steps` time steps.
    pub fn check_lattice(&self, steps: u32) -> (r: Result<(), ValidationError>)
        ensures
            r == as_result(lattice_violation(*self, steps)),
    {
        let market = self.check();
        if market.is_err() {
            market
        } else if steps == 0 {
            Err(ValidationError::ZeroSteps)
        } else {
            Ok(())
        }
    }

    /// Checks the parameters of a Monte Carlo simulation of `simulations`
    /// paths of `steps` time steps each.
    pub fn check_simulation(&self, steps: u32, simulations: u32) -> (r: Result<(), ValidationError>)
        ensures
            r == as_result(simulation_violation(*self, steps, simulations)),
    {
        let lattice = self.check_lattice(steps);
        if lattice.is_err() {
            lattice
        } else if simulations == 0 {
            Err(ValidationError::ZeroSimulations)
        } else {
            Ok(())
        }
    }

    /// Whether the Black-Scholes closed form is defined: `d1` and `d2` divide
    /// by `σ·√T`, so a zero maturity or volatility leaves them undefined and
    /// the price is then the intrinsic value.
    pub fn closed_form_defined(&self) -> (r: bool)
        ensures
            r == (self.maturity == Sign::Positive && self.volatility == Sign::Positive),
    {
        self.maturity == Sign::Positive && self.volatility == Sign::Positive
    }
}

} // verus!

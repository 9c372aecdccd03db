//! How each pricing model obtains its Greeks.
//!
//! A Greek is either given by a closed form of the model, identically zero
//! (the model does not depend on the parameter), or a finite difference: a
//! few copies of the model, each with one parameter bumped by a whole multiple
//! of a step `ε`, are priced, and the prices are combined with integer weights:
//!
//! `estimate = Σ weight · price(x + offset·ε) / (divisor · ε^order)`.
//!
//! The receiver is never bumped itself: every tap prices a copy.
use vstd::prelude::*;
use crate::domain::Parameter;

verus! {

/// The four pricing models.
#[derive(PartialEq, Eq, Structural, Debug, Clone, Copy)]
pub enum Model {
    /// The unsigned intrinsic value `|S − K|`.
    Baseline,
    /// The closed form under geometric Brownian motion.
    BlackScholes,
    /// The Cox-Ross-Rubinstein lattice.
    Binomial,
    /// The average discounted payoff of simulated paths.
    MonteCarlo,
}

/// The sensitivities of a price.
#[derive(PartialEq, Eq, Structural, Debug, Clone, Copy)]
pub enum Greek {
    /// To the underlying price.
    Delta,
    /// Of delta to the underlying price.
    Gamma,
    /// To the time to maturity.
    Theta,
    /// To the volatility.
    Vega,
    /// To the risk-free rate.
    Rho,
}

/// A finite-difference scheme.
#[derive(PartialEq, Eq, Structural, Debug, Clone, Copy)]
pub enum Scheme {
    /// `(f(x + ε) − f(x − ε)) / 2ε`.
    Central,
    /// `(f(x + ε) − f(x)) / ε`.
    Forward,
    /// `(f(x) − f(x − ε)) / ε`.
    Backward,
    /// `(f(x + ε) − 2·f(x) + f(x − ε)) / ε²`.
    Second,
}

/// One priced copy of a finite difference: the parameter is bumped by
/// `offset·ε` and the price enters the sum with `weight`.
#[derive(PartialEq, Eq, Structural, Debug, Clone, Copy)]
pub struct Tap {
    pub offset: i32,
    pub weight: i32,
}

/// How a model obtains one Greek.
#[derive(PartialEq, Eq, Structural, Debug, Clone, Copy)]
pub enum Method {
    /// A closed form of the model.
    Analytic,
    /// Identically zero: the model does not read the parameter.
    Zero,
    /// A finite difference of the price on one parameter.
    Difference { parameter: Parameter, scheme: Scheme },
}

pub open spec fn taps_of(s: Scheme) -> Seq<Tap> {
    match s {
        Scheme::Central => seq![Tap { offset: 1, weight: 1 }, Tap { offset: -1i32, weight: -1i32 }],
        Scheme::Forward => seq![Tap { offset: 1, weight: 1 }, Tap { offset: 0, weight: -1i32 }],
        Scheme::Backward => seq![Tap { offset: 0, weight: 1 }, Tap { offset: -1i32, weight: -1i32 }],
        Scheme::Second => seq![
            Tap { offset: 1, weight: 1 },
            Tap { offset: 0, weight: -2i32 },
            Tap { offset: -1i32, weight: 1 },
        ],
    }
}

pub open spec fn divisor_of(s: Scheme) -> u32 {
    match s {
        Scheme::Central => 2,
        _ => 1,
    }
}

pub open spec fn order_of(s: Scheme) -> u32 {
    match s {
        Scheme::Second => 2,
        _ => 1,
    }
}

pub open spec fn power(b: int, e: nat) -> int
    decreases e,
{
    if e == 0 {
        1
    } else {
        b * power(b, (e - 1) as nat)
    }
}

pub open spec fn factorial(n: nat) -> nat
    decreases n,
{
    if n == 0 {
        1
    } else {
        n * factorial((n - 1) as nat)
    }
}

/// `Σ weight · offset^j` over `taps`: the `j`-th moment of a stencil.
pub open spec fn moment(taps: Seq<Tap>, j: nat) -> int
    decreases taps.len(),
{
    if taps.len() == 0 {
        0
    } else {
        taps[0].weight * power(taps[0].offset as int, j) + moment(taps.drop_first(), j)
    }
}

/// The stencil is exact on polynomials of degree up to `order`: it cancels
/// every power below `order` and returns the `order`-th derivative of the
/// power `order`. So a price that does not move gives a zero estimate, and
/// the estimate of a smooth price tends to its derivative as `ε` shrinks.
pub open spec fn exact_to_order(taps: Seq<Tap>, divisor: u32, order: u32) -> bool {
    &&& forall|j: nat| j < order ==> #[trigger] moment(taps, j) == 0
    &&& moment(taps, order as nat) == divisor * factorial(order as nat)
}

proof fn lemma_moment_two(a: Tap, b: Tap, j: nat)
    ensures
        moment(seq![a, b], j) == a.weight * power(a.offset as int, j) + b.weight * power(
            b.offset as int,
            j,
        ),
{
    let t = seq![a, b];
    assert(t.drop_first() =~= seq![b]);
    assert(t.drop_first().drop_first() =~= Seq::<Tap>::empty());
    assert(moment(t.drop_first().drop_first(), j) == 0);
    assert(moment(t.drop_first(), j) == b.weight * power(b.offset as int, j));
}

proof fn lemma_moment_three(a: Tap, b: Tap, c: Tap, j: nat)
    ensures
        moment(seq![a, b, c], j) == a.weight * power(a.offset as int, j) + moment(seq![b, c], j),
{
    assert(seq![a, b, c].drop_first() =~= seq![b, c]);
}

/// Every scheme is exact to its order: its derivative estimate of a
/// polynomial of that degree has no truncation error.
pub proof fn lemma_scheme_exact(s: Scheme)
    ensures
        exact_to_order(taps_of(s), divisor_of(s), order_of(s)),
{
    let t = taps_of(s);
    assert(power(1, 0) == 1 && power(0, 0) == 1 && power(-1, 0) == 1);
    assert(power(1, 1) == 1 && power(0, 1) == 0 && power(-1, 1) == -1) by {
        reveal_with_fuel(power, 2);
    }
    assert(power(1, 2) == 1 && power(0, 2) == 0 && power(-1, 2) == 1) by {
        reveal_with_fuel(power, 3);
    }
    assert(factorial(1) == 1 && factorial(2) == 2) by {
        reveal_with_fuel(factorial, 3);
    }
    match s {
        Scheme::Second => {
            let (a, b, c) = (t[0], t[1], t[2]);
            assert(t == seq![a, b, c]);
            lemma_moment_three(a, b, c, 0);
            lemma_moment_three(a, b, c, 1);
            lemma_moment_three(a, b, c, 2);
            lemma_moment_two(b, c, 0);
            lemma_moment_two(b, c, 1);
            lemma_moment_two(b, c, 2);
            assert forall|j: nat| j < 2 implies #[trigger] moment(t, j) == 0 by {}
        },
        _ => {
            let (a, b) = (t[0], t[1]);
            assert(t == seq![a, b]);
            lemma_moment_two(a, b, 0);
            lemma_moment_two(a, b, 1);
            assert forall|j: nat| j < 1 implies #[trigger] moment(t, j) == 0 by {}
        },
    }
}

impl Scheme {
    /// The priced copies of this scheme.
    pub fn taps(self) -> (r: Vec<Tap>)
        ensures
            r@ == taps_of(self),
            exact_to_order(r@, divisor_of(self), order_of(self)),
    {
        let r = match self {
            Scheme::Central => vec![Tap { offset: 1, weight: 1 }, Tap { offset: -1, weight: -1 }],
            Scheme::Forward => vec![Tap { offset: 1, weight: 1 }, Tap { offset: 0, weight: -1 }],
            Scheme::Backward => vec![Tap { offset: 0, weight: 1 }, Tap { offset: -1, weight: -1 }],
            Scheme::Second => vec![
                Tap { offset: 1, weight: 1 },
                Tap { offset: 0, weight: -2 },
                Tap { offset: -1, weight: 1 },
            ],
        };
        proof {
            assert(r@ =~= taps_of(self));
            lemma_scheme_exact(self);
        }
        r
    }

    /// The integer factor of the denominator.
    pub fn divisor(self) -> (r: u32)
        ensures
            r == divisor_of(self),
    {
        match self {
            Scheme::Central => 2,
            _ => 1,
        }
    }

    /// The power of `ε` in the denominator: the order of the derivative.
    pub fn order(self) -> (r: u32)
        ensures
            r == order_of(self),
    {
        match self {
            Scheme::Second => 2,
            _ => 1,
        }
    }
}

/// The finite difference of a model that prices by re-computation: central
/// on the underlying, backward on the maturity (time decay), forward on the
/// volatility and the rate.
pub open spec fn difference_of(greek: Greek) -> Method {
    match greek {
        Greek::Delta => Method::Difference { parameter: Parameter::Underlying, scheme: Scheme::Central },
        Greek::Gamma => Method::Difference { parameter: Parameter::Underlying, scheme: Scheme::Second },
        Greek::Theta => Method::Difference { parameter: Parameter::Maturity, scheme: Scheme::Backward },
        Greek::Vega => Method::Difference { parameter: Parameter::Volatility, scheme: Scheme::Forward },
        Greek::Rho => Method::Difference { parameter: Parameter::RiskFreeRate, scheme: Scheme::Forward },
    }
}

/// How `model` obtains `greek`. The baseline reads neither maturity,
/// volatility nor rate, so those Greeks are zero; Black-Scholes has closed
/// forms for all but rho.
pub open spec fn method_of(model: Model, greek: Greek) -> Method {
    match model {
        Model::Baseline => match greek {
            Greek::Delta | Greek::Gamma => difference_of(greek),
            _ => Method::Zero,
        },
        Model::BlackScholes => match greek {
            Greek::Rho => difference_of(greek),
            _ => Method::Analytic,
        },
        Model::Binomial | Model::MonteCarlo => difference_of(greek),
    }
}

/// `ε = 10^-k` for the `k` of `model`: the smooth prices take a fine step,
/// the lattice and the simulation, whose prices are not smooth at fine
/// scales, a coarse one.
pub open spec fn epsilon_decimals_of(model: Model) -> u32 {
    match model {
        Model::Baseline | Model::BlackScholes => 4,
        Model::Binomial | Model::MonteCarlo => 2,
    }
}

/// The bound `b` of the range `[−b, b]` that a Greek of `model` is clamped
/// to. Only Monte Carlo estimates are clamped: each bumped copy is priced
/// on freshly drawn paths, and the sampling noise can swamp the difference.
/// The bounds are a policy, not derived from the model.
pub open spec fn clamp_bound_of(model: Model, greek: Greek) -> Option<u32> {
    match model {
        Model::MonteCarlo => Some(
            match greek {
                Greek::Delta => 2u32,
                Greek::Gamma => 5u32,
                Greek::Theta => 10u32,
                Greek::Vega => 50u32,
                Greek::Rho => 100u32,
            },
        ),
        _ => None,
    }
}

/// The finite difference of `greek`, for a model without a closed form, or
/// where its closed form is not defined.
pub fn finite_difference(greek: Greek) -> (r: Method)
    ensures
        r == difference_of(greek),
{
    match greek {
        Greek::Delta => Method::Difference { parameter: Parameter::Underlying, scheme: Scheme::Central },
        Greek::Gamma => Method::Difference { parameter: Parameter::Underlying, scheme: Scheme::Second },
        Greek::Theta => Method::Difference { parameter: Parameter::Maturity, scheme: Scheme::Backward },
        Greek::Vega => Method::Difference { parameter: Parameter::Volatility, scheme: Scheme::Forward },
        Greek::Rho => Method::Difference { parameter: Parameter::RiskFreeRate, scheme: Scheme::Forward },
    }
}

impl Model {
    /// How this model obtains `greek`.
    pub fn method(self, greek: Greek) -> (r: Method)
        ensures
            r == method_of(self, greek),
    {
        match self {
            Model::Baseline => match greek {
                Greek::Delta | Greek::Gamma => finite_difference(greek),
                _ => Method::Zero,
            },
            Model::BlackScholes => match greek {
                Greek::Rho => finite_difference(greek),
                _ => Method::Analytic,
            },
            Model::Binomial | Model::MonteCarlo => finite_difference(greek),
        }
    }

    /// The number of decimals of this model's finite-difference step.
    pub fn epsilon_decimals(self) -> (r: u32)
        ensures
            r == epsilon_decimals_of(self),
    {
        match self {
            Model::Baseline | Model::BlackScholes => 4,
            Model::Binomial | Model::MonteCarlo => 2,
        }
    }

    /// The bound that this model's `greek` is clamped to, if it is clamped.
    pub fn clamp_bound(self, greek: Greek) -> (r: Option<u32>)
        ensures
            r == clamp_bound_of(self, greek),
    {
        match self {
            Model::MonteCarlo => Some(
                match greek {
                    Greek::Delta => 2,
                    Greek::Gamma => 5,
                    Greek::Theta => 10,
                    Greek::Vega => 50,
                    Greek::Rho => 100,
                },
            ),
            _ => None,
        }
    }
}

} // verus!

//! Pricing European options: the parts of the pricing machinery that are
//! decided without real arithmetic, verified.
//!
//! - [`option`]: the option kind that every payoff is computed for.
//! - [`domain`]: which contract parameters a model accepts, and when the
//!   Black-Scholes closed form is defined.
//! - [`lattice`]: the backward induction of a recombining binomial tree.
//! - [`greeks`]: the finite-difference plan of each Greek of each model, and
//!   the bounds that Monte Carlo Greeks are clamped to.
//! - [`params`]: the real parameters of a contract, and their bumped copies.
//!
//! The real-valued arithmetic (logarithms, exponentials, the normal
//! distribution, random draws) is done by the callers of this crate.

pub mod option;
pub mod domain;
pub mod lattice;
pub mod greeks;
pub mod params;

pub use option::OptionType;

use options_pricing_rusty::domain::Parameter;
use options_pricing_rusty::greeks::{finite_difference, Greek, Method, Model, Scheme, Tap};
use options_pricing_rusty::OptionType;

fn estimate(scheme: Scheme, eps: f64, f: impl Fn(f64) -> f64, x: f64) -> f64 {
    let mut sum = 0.0;
    for tap in scheme.taps() {
        sum += tap.weight as f64 * f(x + tap.offset as f64 * eps);
    }
    sum / (scheme.divisor() as f64 * eps.powi(scheme.order() as i32))
}

#[test]
fn central_scheme_taps() {
    let taps = Scheme::Central.taps();
    assert_eq!(taps, vec![Tap { offset: 1, weight: 1 }, Tap { offset: -1, weight: -1 }]);
    assert_eq!(Scheme::Central.divisor(), 2);
    assert_eq!(Scheme::Central.order(), 1);
}

#[test]
fn second_scheme_taps() {
    let taps = Scheme::Second.taps();
    assert_eq!(
        taps,
        vec![Tap { offset: 1, weight: 1 }, Tap { offset: 0, weight: -2 }, Tap { offset: -1, weight: 1 }]
    );
    assert_eq!(Scheme::Second.divisor(), 1);
    assert_eq!(Scheme::Second.order(), 2);
}

#[test]
fn one_sided_scheme_taps() {
    assert_eq!(Scheme::Forward.taps(), vec![Tap { offset: 1, weight: 1 }, Tap { offset: 0, weight: -1 }]);
    assert_eq!(Scheme::Backward.taps(), vec![Tap { offset: 0, weight: 1 }, Tap { offset: -1, weight: -1 }]);
    assert_eq!(Scheme::Forward.divisor(), 1);
    assert_eq!(Scheme::Backward.order(), 1);
}

#[test]
fn schemes_differentiate_polynomials_exactly() {
    let quadratic = |x: f64| 3.0 * x * x - 2.0 * x + 5.0;
    // f'(x) = 6x − 2, f''(x) = 6
    assert!((estimate(Scheme::Central, 0.5, quadratic, 2.0) - 10.0).abs() < 1e-12);
    assert!((estimate(Scheme::Second, 0.5, quadratic, 2.0) - 6.0).abs() < 1e-12);
    let linear = |x: f64| 4.0 * x - 1.0;
    assert!((estimate(Scheme::Forward, 0.25, linear, 1.0) - 4.0).abs() < 1e-12);
    assert!((estimate(Scheme::Backward, 0.25, linear, 1.0) - 4.0).abs() < 1e-12);
    for scheme in [Scheme::Central, Scheme::Forward, Scheme::Backward, Scheme::Second] {
        assert_eq!(estimate(scheme, 0.01, |_| 7.0, 3.0), 0.0);
    }
}

#[test]
fn baseline_has_no_time_or_volatility_dependence() {
    assert_eq!(Model::Baseline.method(Greek::Theta), Method::Zero);
    assert_eq!(Model::Baseline.method(Greek::Vega), Method::Zero);
    assert_eq!(Model::Baseline.method(Greek::Rho), Method::Zero);
    assert_eq!(
        Model::Baseline.method(Greek::Delta),
        Method::Difference { parameter: Parameter::Underlying, scheme: Scheme::Central }
    );
    assert_eq!(
        Model::Baseline.method(Greek::Gamma),
        Method::Difference { parameter: Parameter::Underlying, scheme: Scheme::Second }
    );
}

#[test]
fn black_scholes_differences_only_rho() {
    for greek in [Greek::Delta, Greek::Gamma, Greek::Theta, Greek::Vega] {
        assert_eq!(Model::BlackScholes.method(greek), Method::Analytic);
    }
    assert_eq!(
        Model::BlackScholes.method(Greek::Rho),
        Method::Difference { parameter: Parameter::RiskFreeRate, scheme: Scheme::Forward }
    );
}

#[test]
fn lattice_and_simulation_difference_every_greek() {
    for model in [Model::Binomial, Model::MonteCarlo] {
        for greek in [Greek::Delta, Greek::Gamma, Greek::Theta, Greek::Vega, Greek::Rho] {
            assert_eq!(model.method(greek), finite_difference(greek));
        }
    }
    assert_eq!(
        finite_difference(Greek::Theta),
        Method::Difference { parameter: Parameter::Maturity, scheme: Scheme::Backward }
    );
    assert_eq!(
        finite_difference(Greek::Vega),
        Method::Difference { parameter: Parameter::Volatility, scheme: Scheme::Forward }
    );
}

#[test]
fn coarse_step_for_lattice_and_simulation() {
    assert_eq!(Model::Baseline.epsilon_decimals(), 4);
    assert_eq!(Model::BlackScholes.epsilon_decimals(), 4);
    assert_eq!(Model::Binomial.epsilon_decimals(), 2);
    assert_eq!(Model::MonteCarlo.epsilon_decimals(), 2);
}

#[test]
fn only_monte_carlo_greeks_are_clamped() {
    assert_eq!(Model::MonteCarlo.clamp_bound(Greek::Delta), Some(2));
    assert_eq!(Model::MonteCarlo.clamp_bound(Greek::Gamma), Some(5));
    assert_eq!(Model::MonteCarlo.clamp_bound(Greek::Theta), Some(10));
    assert_eq!(Model::MonteCarlo.clamp_bound(Greek::Vega), Some(50));
    assert_eq!(Model::MonteCarlo.clamp_bound(Greek::Rho), Some(100));
    for model in [Model::Baseline, Model::BlackScholes, Model::Binomial] {
        assert_eq!(model.clamp_bound(Greek::Delta), None);
    }
}

#[test]
fn option_kinds_compare_by_value() {
    assert_eq!(OptionType::Call, OptionType::Call);
    assert_ne!(OptionType::Call, OptionType::Put);
}

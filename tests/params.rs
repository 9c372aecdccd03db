use options_pricing_rusty::domain::Parameter;
use options_pricing_rusty::params::MarketParams;

fn sample() -> MarketParams<i64> {
    MarketParams { underlying: 120, strike: 100, maturity: 1, volatility: 20, risk_free_rate: 5 }
}

#[test]
fn get_reads_each_real_parameter() {
    let m = sample();
    assert_eq!(m.get(Parameter::Underlying), Some(120));
    assert_eq!(m.get(Parameter::Strike), Some(100));
    assert_eq!(m.get(Parameter::Maturity), Some(1));
    assert_eq!(m.get(Parameter::Volatility), Some(20));
    assert_eq!(m.get(Parameter::RiskFreeRate), Some(5));
    assert_eq!(m.get(Parameter::Steps), None);
    assert_eq!(m.get(Parameter::Simulations), None);
}

#[test]
fn bumped_copy_moves_one_parameter_and_leaves_the_original() {
    let m = sample();
    let up = m.bumped(Parameter::Volatility, |x: i64| x + 3);
    assert_eq!(up.volatility, 23);
    assert_eq!((up.underlying, up.strike, up.maturity, up.risk_free_rate), (120, 100, 1, 5));
    assert_eq!(m.volatility, 20);
    let down = m.bumped(Parameter::Underlying, |x: i64| x - 1);
    assert_eq!(down.underlying, 119);
    assert_eq!(down.volatility, 20);
}

#[test]
fn bumping_a_count_changes_nothing() {
    let m = sample();
    let same = m.bumped(Parameter::Steps, |x: i64| x * 1000);
    assert_eq!(
        (same.underlying, same.strike, same.maturity, same.volatility, same.risk_free_rate),
        (120, 100, 1, 20, 5)
    );
}

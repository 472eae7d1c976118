use kiomq::job::backoff::{BackOff, BackOffJobOptions, BackOffOptions, StoredFn, Strategy};

type Custom = fn(i64, i64) -> i64;

fn opts(name: &str, delay: i64) -> BackOffOptions {
    BackOffOptions {
        delay: Some(delay),
        type_: Some(name.to_string()),
    }
}

fn linear(delay: i64, attempts: i64) -> i64 {
    delay * attempts
}

#[test]
fn test_expotential_backoff() {
    let backoff: BackOff<Custom> = BackOff::new();
    let strategy_found = backoff.lookup_strategy(
        BackOffOptions {
            delay: Some(100),
            type_: Some("exponential".to_string()),
        },
        None,
    );
    assert!(strategy_found.is_some());
    if let Some(strategy) = strategy_found {
        assert_eq!(strategy.call(1), 200);
        assert_eq!(strategy.call(2), 400);
        assert_eq!(strategy.call(3), 800);
        assert_eq!(strategy.call(4), 1600);
        assert_eq!(strategy.call(5), 3200);
    }
}

#[test]
fn test_fixed_back() {
    let backoff: BackOff<Custom> = BackOff::new();
    let strategy_found = backoff.lookup_strategy(
        BackOffOptions {
            delay: Some(100),
            type_: Some("fixed".to_string()),
        },
        None,
    );
    assert!(strategy_found.is_some());
    if let Some(strategy) = strategy_found {
        assert_eq!(strategy.call(2), 100);
        assert_eq!(strategy.call(3), 100);
        assert_eq!(strategy.call(3), 100);
    }
}

#[test]
fn largest_exponent_is_reached() {
    let backoff: BackOff<Custom> = BackOff::new();
    let delay = backoff.calculate(Some(opts("exponential", 1)), 62, None);
    assert_eq!(delay, Some(1_i64 << 62));
}

#[test]
fn custom_strategy_is_registered_and_replaced() {
    let mut backoff: BackOff<Custom> = BackOff::new();
    assert!(!backoff.has_strategy("linear"));
    backoff.register("linear", Strategy::Custom(linear));
    assert!(backoff.has_strategy("linear"));
    assert_eq!(backoff.calculate(Some(opts("linear", 7)), 3, None), Some(21));
    backoff.register("linear", Strategy::Fixed);
    assert_eq!(backoff.calculate(Some(opts("linear", 7)), 3, None), Some(7));
    assert!(backoff.has_strategy("fixed"));
    assert!(backoff.has_strategy("exponential"));
}

#[test]
fn unknown_strategy_falls_back() {
    let backoff: BackOff<Custom> = BackOff::empty();
    assert!(!backoff.has_strategy("fixed"));
    assert_eq!(backoff.calculate(Some(opts("fixed", 7)), 3, None), None);
    let fallback = StoredFn::Fixed(11);
    assert_eq!(backoff.calculate(Some(opts("fixed", 7)), 3, Some(fallback)), Some(11));
    assert_eq!(backoff.calculate(None, 3, Some(StoredFn::Fixed(11))), None);
}

#[test]
fn policy_is_normalized() {
    assert!(BackOff::<Custom>::normalize(None).is_none());
    assert!(BackOff::<Custom>::normalize(Some(&BackOffJobOptions::Number(0))).is_none());
    let fixed = BackOff::<Custom>::normalize(Some(&BackOffJobOptions::Number(40))).unwrap();
    assert_eq!(fixed.delay, Some(40));
    assert_eq!(fixed.type_.as_deref(), Some("fixed"));
    let given = BackOff::<Custom>::normalize(Some(&BackOffJobOptions::Opts(opts("exponential", 5))));
    let given = given.unwrap();
    assert_eq!(given.delay, Some(5));
    assert_eq!(given.type_.as_deref(), Some("exponential"));
}

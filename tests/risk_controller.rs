use risk_controller::{
    decode_breaker_state, encode_breaker_state, finish_trade, read_breaker_state, transition_alert,
    AlertKind, CircuitBreaker, LimitCheck, RiskParameters, RiskParamsUpdate, StoreError,
    TradeStep, TradeVerdict, UpdateError, ValidationError, RATE_SCALE,
};

const NO_UPDATE: RiskParamsUpdate = RiskParamsUpdate {
    account_balance: None,
    position_sizing_pct: None,
    daily_loss_limit_pct: None,
    monthly_drawdown_pct: None,
};

fn params_2000() -> RiskParameters {
    RiskParameters::new(200_000)
}

#[test]
fn default_rates() {
    let p = params_2000();
    assert_eq!(p.position_sizing_pct, 5_000);
    assert_eq!(p.daily_loss_limit_pct, 20_000);
    assert_eq!(p.monthly_drawdown_pct, 150_000);
    assert_eq!(p.account_balance, 200_000);
}

#[test]
fn limits_for_balance_2000() {
    let p = params_2000();
    assert_eq!(p.max_position_size(), 1_000);
    assert_eq!(p.daily_loss_limit(), 4_000);
    assert_eq!(p.monthly_drawdown_limit(), 30_000);
}

#[test]
fn position_at_limit_passes() {
    let p = params_2000();
    assert_eq!(p.validate_position_size(1_000), Ok(()));
    assert_eq!(p.validate_position_size(0), Ok(()));
}

#[test]
fn position_one_cent_over_fails() {
    let p = params_2000();
    assert_eq!(
        p.validate_position_size(1_001),
        Err(ValidationError::PositionTooLarge { size: 1_001, limit: 1_000 })
    );
}

#[test]
fn limit_is_compared_exactly_not_rounded() {
    // 0.5% of $20.01 is 10.005 cents: 10 passes, 11 does not.
    let p = RiskParameters::new(2_001);
    assert_eq!(p.max_position_size(), 10);
    assert_eq!(p.validate_position_size(10), Ok(()));
    assert!(p.validate_position_size(11).is_err());
}

#[test]
fn daily_loss_boundary() {
    let p = params_2000();
    assert_eq!(p.check_daily_loss(4_000), Ok(()));
    assert_eq!(
        p.check_daily_loss(4_001),
        Err(ValidationError::DailyLossExceeded { loss: 4_001, limit: 4_000 })
    );
    assert_eq!(p.check_daily_loss(-50_000), Ok(()));
}

#[test]
fn monthly_drawdown_boundary() {
    let p = params_2000();
    assert_eq!(p.check_monthly_drawdown(30_000), Ok(()));
    assert_eq!(
        p.check_monthly_drawdown(30_001),
        Err(ValidationError::MonthlyDrawdownExceeded { drawdown: 30_001, limit: 30_000 })
    );
}

#[test]
fn largest_balance_and_rates() {
    let mut p = RiskParameters::new(u64::MAX);
    let full = RiskParamsUpdate {
        position_sizing_pct: Some(RATE_SCALE),
        daily_loss_limit_pct: Some(RATE_SCALE),
        monthly_drawdown_pct: Some(RATE_SCALE),
        ..NO_UPDATE
    };
    assert_eq!(p.apply_update(&full), Ok(()));
    assert_eq!(p.max_position_size(), u64::MAX);
    assert_eq!(p.validate_position_size(u64::MAX), Ok(()));
    assert_eq!(p.check_daily_loss(i64::MAX), Ok(()));
    assert_eq!(p.check_monthly_drawdown(i64::MIN), Ok(()));
}

#[test]
fn check_limits_daily_breach_trips() {
    let cb = CircuitBreaker::new(params_2000());
    let c = cb.check_limits(4_100, 0);
    assert!(c.breached);
    assert_eq!(c.breach, Some(ValidationError::DailyLossExceeded { loss: 4_100, limit: 4_000 }));
    assert_eq!(cb.check_limits_write(4_100, 0), "true");
}

#[test]
fn check_limits_within_closes() {
    let cb = CircuitBreaker::new(params_2000());
    let c = cb.check_limits(3_900, 29_900);
    assert_eq!(c, LimitCheck { breached: false, breach: None });
    assert_eq!(cb.check_limits_write(3_900, 29_900), "false");
}

#[test]
fn check_limits_monthly_breach_trips() {
    let cb = CircuitBreaker::new(params_2000());
    let c = cb.check_limits(0, 30_001);
    assert!(c.breached);
    assert_eq!(
        c.breach,
        Some(ValidationError::MonthlyDrawdownExceeded { drawdown: 30_001, limit: 30_000 })
    );
}

#[test]
fn check_limits_names_daily_loss_first() {
    let cb = CircuitBreaker::new(params_2000());
    let c = cb.check_limits(5_000, 40_000);
    assert_eq!(c.breach, Some(ValidationError::DailyLossExceeded { loss: 5_000, limit: 4_000 }));
}

#[test]
fn passing_check_clears_prior_trip() {
    let cb = CircuitBreaker::new(params_2000());
    let mut stored: Option<&str> = Some(cb.activate());
    assert_eq!(cb.is_activated(stored), Ok(true));
    let write = cb.check_limits_write(100, 100);
    let alert = transition_alert(stored, false);
    stored = Some(write);
    assert_eq!(cb.is_activated(stored), Ok(false));
    assert_eq!(alert, Some(AlertKind::BreakerDeactivated));
}

#[test]
fn activate_then_read_is_open() {
    let cb = CircuitBreaker::new(params_2000());
    assert_eq!(cb.activate(), "true");
    assert_eq!(cb.is_activated(Some(cb.activate())), Ok(true));
}

#[test]
fn deactivate_then_read_is_closed() {
    let cb = CircuitBreaker::new(params_2000());
    assert_eq!(cb.deactivate(), "false");
    assert_eq!(cb.is_activated(Some(cb.deactivate())), Ok(false));
}

#[test]
fn manual_writes_are_idempotent() {
    let cb = CircuitBreaker::new(params_2000());
    assert_eq!(transition_alert(None, true), Some(AlertKind::BreakerActivated));
    assert_eq!(transition_alert(Some(cb.activate()), true), None);
    assert_eq!(transition_alert(Some(cb.deactivate()), false), None);
    assert_eq!(transition_alert(None, false), None);
}

#[test]
fn repeated_breaching_checks_stay_open_and_alert_once() {
    let cb = CircuitBreaker::new(params_2000());
    let mut stored: Option<&str> = Some(cb.deactivate());
    let mut alerts = 0;
    for _ in 0..16 {
        let write = cb.check_limits_write(4_100, 0);
        if transition_alert(stored, true).is_some() {
            alerts += 1;
        }
        stored = Some(write);
        assert_eq!(cb.is_activated(stored), Ok(true));
    }
    assert_eq!(alerts, 1);
}

#[test]
fn never_written_flag_is_closed() {
    assert_eq!(read_breaker_state(None), Ok(false));
}

#[test]
fn invalid_stored_flag_is_an_error() {
    assert_eq!(decode_breaker_state("TRUE"), Err(StoreError::InvalidState));
    assert_eq!(decode_breaker_state(""), Err(StoreError::InvalidState));
    assert_eq!(decode_breaker_state("true "), Err(StoreError::InvalidState));
    assert_eq!(read_breaker_state(Some("1")), Err(StoreError::InvalidState));
}

#[test]
fn encodings_round_trip() {
    assert_eq!(encode_breaker_state(true), "true");
    assert_eq!(encode_breaker_state(false), "false");
    assert_eq!(decode_breaker_state(encode_breaker_state(true)), Ok(true));
    assert_eq!(decode_breaker_state(encode_breaker_state(false)), Ok(false));
}

#[test]
fn unknown_prior_state_still_alerts() {
    assert_eq!(transition_alert(Some("garbage"), true), Some(AlertKind::BreakerActivated));
    assert_eq!(transition_alert(Some("garbage"), false), Some(AlertKind::BreakerDeactivated));
}

#[test]
fn balance_update_changes_limits_at_once() {
    let mut p = params_2000();
    let update = RiskParamsUpdate { account_balance: Some(400_000), ..NO_UPDATE };
    assert_eq!(p.apply_update(&update), Ok(()));
    assert_eq!(p.max_position_size(), 2_000);
    assert_eq!(p.position_sizing_pct, 5_000);
    assert_eq!(p.daily_loss_limit_pct, 20_000);
    assert_eq!(p.monthly_drawdown_pct, 150_000);
    assert_eq!(p.validate_position_size(2_000), Ok(()));
}

#[test]
fn partial_update_keeps_other_fields() {
    let mut p = params_2000();
    let update = RiskParamsUpdate { daily_loss_limit_pct: Some(10_000), ..NO_UPDATE };
    assert_eq!(p.apply_update(&update), Ok(()));
    assert_eq!(p.daily_loss_limit(), 2_000);
    assert_eq!(p.account_balance, 200_000);
    assert_eq!(p.max_position_size(), 1_000);
}

#[test]
fn update_with_zero_balance_is_refused() {
    let mut p = params_2000();
    let update = RiskParamsUpdate {
        account_balance: Some(0),
        position_sizing_pct: Some(1),
        ..NO_UPDATE
    };
    assert_eq!(p.apply_update(&update), Err(UpdateError::NonPositiveBalance));
    assert_eq!(p, params_2000());
}

#[test]
fn update_with_bad_rate_is_refused() {
    let mut p = params_2000();
    let zero = RiskParamsUpdate { position_sizing_pct: Some(0), ..NO_UPDATE };
    assert_eq!(p.apply_update(&zero), Err(UpdateError::RateOutOfRange));
    let over = RiskParamsUpdate { monthly_drawdown_pct: Some(RATE_SCALE + 1), ..NO_UPDATE };
    assert_eq!(p.apply_update(&over), Err(UpdateError::RateOutOfRange));
    assert_eq!(p, params_2000());
}

#[test]
fn trade_halted_when_breaker_open_or_unknown() {
    let cb = CircuitBreaker::new(params_2000());
    assert_eq!(cb.begin_trade(Ok(true), 10, 0, 0), TradeStep::Respond(TradeVerdict::Halted));
    assert_eq!(
        cb.begin_trade(Err(StoreError::Unavailable), 10, 0, 0),
        TradeStep::Respond(TradeVerdict::Halted)
    );
    assert_eq!(
        cb.begin_trade(Err(StoreError::InvalidState), 10, 0, 0),
        TradeStep::Respond(TradeVerdict::Halted)
    );
}

#[test]
fn trade_with_oversized_position_rejected() {
    let cb = CircuitBreaker::new(params_2000());
    assert_eq!(
        cb.begin_trade(Ok(false), 1_001, 0, 0),
        TradeStep::Respond(TradeVerdict::PositionRejected(ValidationError::PositionTooLarge {
            size: 1_001,
            limit: 1_000
        }))
    );
}

#[test]
fn trade_within_limits_validated() {
    let cb = CircuitBreaker::new(params_2000());
    let step = cb.begin_trade(Ok(false), 1_000, 3_900, 29_900);
    let check = LimitCheck { breached: false, breach: None };
    assert_eq!(step, TradeStep::Persist(check));
    assert_eq!(finish_trade(check, Ok(Some("false"))), (TradeVerdict::Validated, None));
    assert_eq!(finish_trade(check, Ok(None)), (TradeVerdict::Validated, None));
}

#[test]
fn trade_breaching_limits_trips_and_alerts() {
    let cb = CircuitBreaker::new(params_2000());
    let step = cb.begin_trade(Ok(false), 500, 4_100, 0);
    let breach = ValidationError::DailyLossExceeded { loss: 4_100, limit: 4_000 };
    let check = LimitCheck { breached: true, breach: Some(breach) };
    assert_eq!(step, TradeStep::Persist(check));
    assert_eq!(
        finish_trade(check, Ok(Some("false"))),
        (TradeVerdict::LimitBreached(breach), Some(AlertKind::BreakerActivated))
    );
    assert_eq!(
        finish_trade(check, Ok(Some("true"))),
        (TradeVerdict::LimitBreached(breach), None)
    );
}

#[test]
fn trade_halted_when_write_fails() {
    let check = LimitCheck { breached: false, breach: None };
    assert_eq!(
        finish_trade(check, Err(StoreError::Unavailable)),
        (TradeVerdict::Halted, None)
    );
}

#[test]
fn well_formedness_check() {
    assert!(params_2000().is_well_formed());
    let mut p = params_2000();
    p.daily_loss_limit_pct = 0;
    assert!(!p.is_well_formed());
    p = params_2000();
    p.monthly_drawdown_pct = RATE_SCALE + 1;
    assert!(!p.is_well_formed());
    p = params_2000();
    p.account_balance = 0;
    assert!(!p.is_well_formed());
}

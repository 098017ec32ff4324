use vstd::prelude::*;
use crate::breaker_codec::{
    decode_breaker_state, decoded_state, encode_breaker_state, encoded_state, StoreError,
};
use crate::risk_management::{RiskParameters, ValidationError};

verus! {

/// A notification that the breaker changed state.
#[derive(Debug, Clone, Copy, PartialEq, Eq, Structural)]
pub enum AlertKind {
    /// The breaker went OPEN: trading is halted.
    BreakerActivated,
    /// The breaker went CLOSED: trading resumes.
    BreakerDeactivated,
}

/// The outcome of evaluating the limits: the state to persist, and the first
/// breach found, if any.
#[derive(Debug, Clone, Copy, PartialEq, Eq, Structural)]
pub struct LimitCheck {
    /// The breaker must be persisted OPEN.
    pub breached: bool,
    /// The first limit found breached: daily loss before monthly drawdown.
    pub breach: Option<ValidationError>,
}

/// The answer to a request to trade.
#[derive(Debug, Clone, Copy, PartialEq, Eq, Structural)]
pub enum TradeVerdict {
    /// The trade passed every check and the breaker is CLOSED.
    Validated,
    /// The position is too large; nothing was persisted.
    PositionRejected(ValidationError),
    /// The breaker was OPEN, or its state could not be confirmed.
    Halted,
    /// A limit was breached and the breaker was persisted OPEN.
    LimitBreached(ValidationError),
}

/// The next thing to do for a request to trade.
#[derive(Debug, Clone, Copy, PartialEq, Eq, Structural)]
pub enum TradeStep {
    /// Answer with this verdict; the store is left alone.
    Respond(TradeVerdict),
    /// Persist `check.breached` with one atomic write that hands back the
    /// previous stored text, then hand the reply to `finish_trade`.
    Persist(LimitCheck),
}

/// A breaker decides on a snapshot of the risk parameters. The breaker's state
/// itself lives in a shared store: every write to it is one atomic
/// replace-and-return-previous, so concurrent writers never lose an update and
/// each learns exactly which transition its own write made.
#[derive(Debug, Clone, Copy, PartialEq, Eq, Structural)]
pub struct CircuitBreaker {
    pub risk_params: RiskParameters,
}

/// The first limit that the metrics breach: daily loss first, then monthly
/// drawdown.
pub open spec fn first_breach(p: RiskParameters, daily_loss: i64, monthly_drawdown: i64) -> Option<
    ValidationError,
> {
    if !p.daily_loss_allowed(daily_loss as int) {
        Some(
            ValidationError::DailyLossExceeded {
                loss: daily_loss,
                limit: p.spec_daily_loss_limit() as u64,
            },
        )
    } else if !p.monthly_drawdown_allowed(monthly_drawdown as int) {
        Some(
            ValidationError::MonthlyDrawdownExceeded {
                drawdown: monthly_drawdown,
                limit: p.spec_monthly_drawdown_limit() as u64,
            },
        )
    } else {
        None
    }
}

/// At least one of the two metrics is above its limit.
pub open spec fn limits_breached(p: RiskParameters, daily_loss: i64, monthly_drawdown: i64) -> bool {
    !p.daily_loss_allowed(daily_loss as int) || !p.monthly_drawdown_allowed(monthly_drawdown as int)
}

/// The state that a store read of the previous text gives, where it can be
/// known: a key never written was CLOSED; an undecodable text leaves it unknown.
pub open spec fn prior_state(previous: Option<Seq<char>>) -> Option<bool> {
    match previous {
        None => Some(false),
        Some(raw) => match decoded_state(raw) {
            Ok(b) => Some(b),
            Err(_) => None,
        },
    }
}

/// The alert that a write of `now` owes: one only on an actual change, or when
/// the previous state cannot be known.
pub open spec fn alert_for(prior: Option<bool>, now: bool) -> Option<AlertKind> {
    if prior == Some(now) {
        None
    } else if now {
        Some(AlertKind::BreakerActivated)
    } else {
        Some(AlertKind::BreakerDeactivated)
    }
}

/// The view of an optional text.
pub open spec fn text_view(t: Option<&str>) -> Option<Seq<char>> {
    match t {
        Some(s) => Some(s@),
        None => None,
    }
}

/// The alert owed after a write of `now` whose store reply was `reply`.
pub open spec fn write_outcome(now: bool, reply: Result<Option<&str>, StoreError>) -> Result<
    Option<AlertKind>,
    StoreError,
> {
    match reply {
        Ok(previous) => Ok(alert_for(prior_state(text_view(previous)), now)),
        Err(e) => Err(e),
    }
}

/// The alert owed after a write of `now` that replaced `previous`.
pub fn transition_alert(previous: Option<&str>, now: bool) -> (r: Option<AlertKind>)
    ensures
        r == alert_for(prior_state(text_view(previous)), now),
{
    let prior: Option<bool> = match previous {
        None => Some(false),
        Some(raw) => match decode_breaker_state(raw) {
            Ok(b) => Some(b),
            Err(_) => None,
        },
    };
    match prior {
        Some(b) if b == now => None,
        _ => if now {
            Some(AlertKind::BreakerActivated)
        } else {
            Some(AlertKind::BreakerDeactivated)
        },
    }
}

/// What a persisted write of `now` means for the caller: the alert it owes, or
/// the store's failure passed on.
pub fn complete_write(now: bool, reply: Result<Option<&str>, StoreError>) -> (r: Result<
    Option<AlertKind>,
    StoreError,
>)
    ensures
        r == write_outcome(now, reply),
{
    match reply {
        Ok(previous) => Ok(transition_alert(previous, now)),
        Err(e) => Err(e),
    }
}

impl CircuitBreaker {
    pub open spec fn wf(&self) -> bool {
        self.risk_params.wf()
    }

    pub fn new(risk_params: RiskParameters) -> (r: Self)
        requires
            risk_params.wf(),
        ensures
            r.wf(),
            r.risk_params == risk_params,
    {
        CircuitBreaker { risk_params }
    }

    /// Evaluates the daily loss, then the monthly drawdown. On the first breach
    /// the breaker is to be persisted OPEN; when neither breaches it is to be
    /// persisted CLOSED, whatever it was before.
    pub fn check_limits(&self, daily_loss: i64, monthly_drawdown: i64) -> (r: LimitCheck)
        requires
            self.wf(),
        ensures
            r.breached == limits_breached(self.risk_params, daily_loss, monthly_drawdown),
            r.breach == first_breach(self.risk_params, daily_loss, monthly_drawdown),
    {
        if let Err(e) = self.risk_params.check_daily_loss(daily_loss) {
            return LimitCheck { breached: true, breach: Some(e) };
        }
        if let Err(e) = self.risk_params.check_monthly_drawdown(monthly_drawdown) {
            return LimitCheck { breached: true, breach: Some(e) };
        }
        LimitCheck { breached: false, breach: None }
    }

    /// The text that persists the breaker for a limit check.
    pub fn check_limits_write(&self, daily_loss: i64, monthly_drawdown: i64) -> (r: &'static str)
        requires
            self.wf(),
        ensures
            r@ == encoded_state(limits_breached(self.risk_params, daily_loss, monthly_drawdown)),
    {
        let check = self.check_limits(daily_loss, monthly_drawdown);
        encode_breaker_state(check.breached)
    }

    /// The breaker's state from the stored text; `None` is a key never written,
    /// which is CLOSED. A text other than the two encodings is an error, never
    /// a default.
    pub fn is_activated(&self, stored: Option<&str>) -> (r: Result<bool, StoreError>)
        ensures
            r == crate::breaker_codec::read_state(text_view(stored)),
    {
        crate::breaker_codec::read_breaker_state(stored)
    }

    /// The text that a manual halt persists: OPEN, whatever the metrics.
    pub fn activate(&self) -> (r: &'static str)
        ensures
            r@ == encoded_state(true),
    {
        encode_breaker_state(true)
    }

    /// The text that a manual resumption persists: CLOSED, whatever the metrics.
    pub fn deactivate(&self) -> (r: &'static str)
        ensures
            r@ == encoded_state(false),
    {
        encode_breaker_state(false)
    }

    /// The first step of a request to trade. A breaker that is OPEN, or whose
    /// state could not be read, halts the request (fail-closed); a position
    /// that is too large is rejected; otherwise the limits are evaluated and
    /// the result is to be persisted.
    pub fn begin_trade(
        &self,
        breaker: Result<bool, StoreError>,
        position_size: u64,
        daily_loss: i64,
        monthly_drawdown: i64,
    ) -> (r: TradeStep)
        requires
            self.wf(),
        ensures
            r == (if breaker != Ok::<bool, StoreError>(false) {
                TradeStep::Respond(TradeVerdict::Halted)
            } else if !self.risk_params.position_allowed(position_size as int) {
                TradeStep::Respond(
                    TradeVerdict::PositionRejected(
                        ValidationError::PositionTooLarge {
                            size: position_size,
                            limit: self.risk_params.spec_max_position_size() as u64,
                        },
                    ),
                )
            } else {
                TradeStep::Persist(
                    LimitCheck {
                        breached: limits_breached(self.risk_params, daily_loss, monthly_drawdown),
                        breach: first_breach(self.risk_params, daily_loss, monthly_drawdown),
                    },
                )
            }),
    {
        match breaker {
            Ok(false) => {},
            _ => {
                return TradeStep::Respond(TradeVerdict::Halted);
            },
        }
        if let Err(e) = self.risk_params.validate_position_size(position_size) {
            return TradeStep::Respond(TradeVerdict::PositionRejected(e));
        }
        TradeStep::Persist(self.check_limits(daily_loss, monthly_drawdown))
    }
}

/// The verdict of a request to trade once the limit check was persisted, and
/// the alert owed. A write that failed leaves the breaker unconfirmed, so the
/// request is halted.
pub open spec fn trade_outcome(check: LimitCheck, reply: Result<Option<&str>, StoreError>) -> (
    TradeVerdict,
    Option<AlertKind>,
) {
    match write_outcome(check.breached, reply) {
        Err(_) => (TradeVerdict::Halted, None),
        Ok(alert) => (
            if check.breached {
                match check.breach {
                    Some(e) => TradeVerdict::LimitBreached(e),
                    None => TradeVerdict::Halted,
                }
            } else {
                TradeVerdict::Validated
            },
            alert,
        ),
    }
}

/// The second step of a request to trade: `reply` is the store's answer to the
/// write of `check.breached`.
pub fn finish_trade(check: LimitCheck, reply: Result<Option<&str>, StoreError>) -> (r: (
    TradeVerdict,
    Option<AlertKind>,
))
    ensures
        r == trade_outcome(check, reply),
{
    match complete_write(check.breached, reply) {
        Err(_) => (TradeVerdict::Halted, None),
        Ok(alert) => {
            let verdict = if check.breached {
                match check.breach {
                    Some(e) => TradeVerdict::LimitBreached(e),
                    None => TradeVerdict::Halted,
                }
            } else {
                TradeVerdict::Validated
            };
            (verdict, alert)
        },
    }
}

} // verus!

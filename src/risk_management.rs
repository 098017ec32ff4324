use vstd::prelude::*;

verus! {

/// Rates are fractions of the account balance, written in millionths.
pub const RATE_SCALE: u64 = 1_000_000;

/// Default share of the balance that one position may take (0.5%).
pub const DEFAULT_POSITION_SIZING: u64 = 5_000;

/// Default share of the balance that may be lost in one day (2%).
pub const DEFAULT_DAILY_LOSS_LIMIT: u64 = 20_000;

/// Default share of the balance that may be lost in one month (15%).
pub const DEFAULT_MONTHLY_DRAWDOWN: u64 = 150_000;

/// `amount` lies within `rate` of `balance`: `amount <= balance * rate / RATE_SCALE`,
/// compared exactly, without rounding the limit.
pub open spec fn within_limit(amount: int, balance: int, rate: int) -> bool {
    amount * (RATE_SCALE as int) <= balance * rate
}

/// The absolute limit that `rate` gives on `balance`, rounded down to a cent.
pub open spec fn limit_of(balance: int, rate: int) -> int {
    (balance * rate) / (RATE_SCALE as int)
}

/// A rate that is a fraction in (0, 1].
pub open spec fn valid_rate(rate: int) -> bool {
    0 < rate <= RATE_SCALE as int
}

/// Why a value was refused against the limits.
#[derive(Debug, Clone, Copy, PartialEq, Eq, Structural)]
pub enum ValidationError {
    /// The position, in cents, is larger than the largest allowed position.
    PositionTooLarge { size: u64, limit: u64 },
    /// The day's loss, in cents, is above the daily loss limit.
    DailyLossExceeded { loss: i64, limit: u64 },
    /// The month's drawdown, in cents, is above the monthly drawdown limit.
    MonthlyDrawdownExceeded { drawdown: i64, limit: u64 },
}

/// Why an update of the parameters was refused.
#[derive(Debug, Clone, Copy, PartialEq, Eq, Structural)]
pub enum UpdateError {
    /// The account balance must be above zero.
    NonPositiveBalance,
    /// A rate must be a fraction in (0, 1], that is in `1..=RATE_SCALE`.
    RateOutOfRange,
}

/// The configuration against which trades and losses are measured.
#[derive(Debug, Clone, Copy, PartialEq, Eq, Structural)]
pub struct RiskParameters {
    /// Largest position, in millionths of the balance.
    pub position_sizing_pct: u64,
    /// Largest daily loss, in millionths of the balance.
    pub daily_loss_limit_pct: u64,
    /// Largest monthly drawdown, in millionths of the balance.
    pub monthly_drawdown_pct: u64,
    /// Current account equity, in cents.
    pub account_balance: u64,
}

/// A partial update: each field that is `Some` replaces the current one.
#[derive(Debug, Clone, Copy, PartialEq, Eq, Structural)]
pub struct RiskParamsUpdate {
    pub account_balance: Option<u64>,
    pub position_sizing_pct: Option<u64>,
    pub daily_loss_limit_pct: Option<u64>,
    pub monthly_drawdown_pct: Option<u64>,
}

/// A supplied update value is acceptable as a rate.
pub open spec fn update_rate_ok(r: Option<u64>) -> bool {
    match r {
        Some(v) => valid_rate(v as int),
        None => true,
    }
}

/// The field after an update: the supplied value, or the current one.
pub open spec fn updated(current: u64, supplied: Option<u64>) -> u64 {
    match supplied {
        Some(v) => v,
        None => current,
    }
}

impl RiskParameters {
    /// A positive balance and three rates in (0, 1].
    pub open spec fn wf(&self) -> bool {
        &&& self.account_balance > 0
        &&& valid_rate(self.position_sizing_pct as int)
        &&& valid_rate(self.daily_loss_limit_pct as int)
        &&& valid_rate(self.monthly_drawdown_pct as int)
    }

    pub open spec fn spec_max_position_size(&self) -> int {
        limit_of(self.account_balance as int, self.position_sizing_pct as int)
    }

    pub open spec fn spec_daily_loss_limit(&self) -> int {
        limit_of(self.account_balance as int, self.daily_loss_limit_pct as int)
    }

    pub open spec fn spec_monthly_drawdown_limit(&self) -> int {
        limit_of(self.account_balance as int, self.monthly_drawdown_pct as int)
    }

    /// A position of `size` cents is allowed.
    pub open spec fn position_allowed(&self, size: int) -> bool {
        within_limit(size, self.account_balance as int, self.position_sizing_pct as int)
    }

    /// A daily loss of `loss` cents is within the limit.
    pub open spec fn daily_loss_allowed(&self, loss: int) -> bool {
        within_limit(loss, self.account_balance as int, self.daily_loss_limit_pct as int)
    }

    /// A monthly drawdown of `drawdown` cents is within the limit.
    pub open spec fn monthly_drawdown_allowed(&self, drawdown: int) -> bool {
        within_limit(drawdown, self.account_balance as int, self.monthly_drawdown_pct as int)
    }
}

/// Whether `amount` lies within `rate` of `balance`, computed exactly.
fn amount_within(amount: i128, balance: u64, rate: u64) -> (r: bool)
    requires
        -0x8000_0000_0000_0000 <= amount <= 0xffff_ffff_ffff_ffff,
        valid_rate(rate as int),
    ensures
        r == within_limit(amount as int, balance as int, rate as int),
{
    assert((balance as int) * (rate as int) <= 0xffff_ffff_ffff_ffff * 1_000_000)
        by (nonlinear_arith)
        requires
            balance <= 0xffff_ffff_ffff_ffff,
            rate <= 1_000_000,
    ;
    assert(-0x8000_0000_0000_0000 * 1_000_000 <= amount * 1_000_000 <= 0xffff_ffff_ffff_ffff
        * 1_000_000) by (nonlinear_arith)
        requires
            -0x8000_0000_0000_0000 <= amount <= 0xffff_ffff_ffff_ffff,
    ;
    let cap = (balance as i128) * (rate as i128);
    amount * (RATE_SCALE as i128) <= cap
}

/// The limit that `rate` gives on `balance`, in cents, rounded down.
fn limit_amount(balance: u64, rate: u64) -> (r: u64)
    requires
        valid_rate(rate as int),
    ensures
        r == limit_of(balance as int, rate as int),
        r <= balance,
{
    assert((balance as int) * (rate as int) <= (balance as int) * (RATE_SCALE as int))
        by (nonlinear_arith)
        requires
            rate <= RATE_SCALE,
    ;
    let product = (balance as u128) * (rate as u128);
    let r = product / (RATE_SCALE as u128);
    assert(r <= balance) by (nonlinear_arith)
        requires
            r == product / 1_000_000u128,
            product <= (balance as int) * 1_000_000,
    ;
    r as u64
}

impl RiskParameters {
    /// Parameters with the default rates: 0.5% per position, 2% per day,
    /// 15% per month.
    pub fn new(account_balance: u64) -> (r: Self)
        requires
            account_balance > 0,
        ensures
            r.wf(),
            r.account_balance == account_balance,
            r.position_sizing_pct == DEFAULT_POSITION_SIZING,
            r.daily_loss_limit_pct == DEFAULT_DAILY_LOSS_LIMIT,
            r.monthly_drawdown_pct == DEFAULT_MONTHLY_DRAWDOWN,
    {
        RiskParameters {
            position_sizing_pct: DEFAULT_POSITION_SIZING,
            daily_loss_limit_pct: DEFAULT_DAILY_LOSS_LIMIT,
            monthly_drawdown_pct: DEFAULT_MONTHLY_DRAWDOWN,
            account_balance,
        }
    }

    /// Whether the parameters hold a positive balance and three rates in (0, 1].
    pub fn is_well_formed(&self) -> (r: bool)
        ensures
            r == self.wf(),
    {
        self.account_balance > 0 && 0 < self.position_sizing_pct && self.position_sizing_pct
            <= RATE_SCALE && 0 < self.daily_loss_limit_pct && self.daily_loss_limit_pct
            <= RATE_SCALE && 0 < self.monthly_drawdown_pct && self.monthly_drawdown_pct
            <= RATE_SCALE
    }

    /// Largest allowed position, in cents.
    pub fn max_position_size(&self) -> (r: u64)
        requires
            self.wf(),
        ensures
            r == self.spec_max_position_size(),
    {
        limit_amount(self.account_balance, self.position_sizing_pct)
    }

    /// Daily loss limit, in cents.
    pub fn daily_loss_limit(&self) -> (r: u64)
        requires
            self.wf(),
        ensures
            r == self.spec_daily_loss_limit(),
    {
        limit_amount(self.account_balance, self.daily_loss_limit_pct)
    }

    /// Monthly drawdown limit, in cents.
    pub fn monthly_drawdown_limit(&self) -> (r: u64)
        requires
            self.wf(),
        ensures
            r == self.spec_monthly_drawdown_limit(),
    {
        limit_amount(self.account_balance, self.monthly_drawdown_pct)
    }

    /// Accepts a position of `position_size` cents when it is at most the
    /// largest allowed position; a position exactly at the limit passes.
    pub fn validate_position_size(&self, position_size: u64) -> (r: Result<(), ValidationError>)
        requires
            self.wf(),
        ensures
            r is Ok <==> self.position_allowed(position_size as int),
            !self.position_allowed(position_size as int) ==> r == Err::<(), ValidationError>(
                ValidationError::PositionTooLarge {
                    size: position_size,
                    limit: self.spec_max_position_size() as u64,
                },
            ),
    {
        if amount_within(position_size as i128, self.account_balance, self.position_sizing_pct) {
            Ok(())
        } else {
            Err(ValidationError::PositionTooLarge { size: position_size, limit: self.max_position_size() })
        }
    }

    /// Accepts a daily loss of `daily_loss` cents when it is at most the daily
    /// loss limit; a negative loss (a gain) always passes.
    pub fn check_daily_loss(&self, daily_loss: i64) -> (r: Result<(), ValidationError>)
        requires
            self.wf(),
        ensures
            r is Ok <==> self.daily_loss_allowed(daily_loss as int),
            !self.daily_loss_allowed(daily_loss as int) ==> r == Err::<(), ValidationError>(
                ValidationError::DailyLossExceeded {
                    loss: daily_loss,
                    limit: self.spec_daily_loss_limit() as u64,
                },
            ),
    {
        if amount_within(daily_loss as i128, self.account_balance, self.daily_loss_limit_pct) {
            Ok(())
        } else {
            Err(ValidationError::DailyLossExceeded { loss: daily_loss, limit: self.daily_loss_limit() })
        }
    }

    /// Accepts a monthly drawdown of `monthly_drawdown` cents when it is at
    /// most the monthly drawdown limit.
    pub fn check_monthly_drawdown(&self, monthly_drawdown: i64) -> (r: Result<(), ValidationError>)
        requires
            self.wf(),
        ensures
            r is Ok <==> self.monthly_drawdown_allowed(monthly_drawdown as int),
            !self.monthly_drawdown_allowed(monthly_drawdown as int) ==> r == Err::<(), ValidationError>(
                ValidationError::MonthlyDrawdownExceeded {
                    drawdown: monthly_drawdown,
                    limit: self.spec_monthly_drawdown_limit() as u64,
                },
            ),
    {
        if amount_within(monthly_drawdown as i128, self.account_balance, self.monthly_drawdown_pct) {
            Ok(())
        } else {
            Err(ValidationError::MonthlyDrawdownExceeded {
                drawdown: monthly_drawdown,
                limit: self.monthly_drawdown_limit(),
            })
        }
    }

    /// Applies a partial update. Each supplied field replaces the current one
    /// and the others stay; an update with a non-positive balance or a rate
    /// outside (0, 1] is refused as a whole and changes nothing.
    pub fn apply_update(&mut self, update: &RiskParamsUpdate) -> (r: Result<(), UpdateError>)
        requires
            old(self).wf(),
        ensures
            final(self).wf(),
            update.account_balance == Some(0u64) ==> r == Err::<(), UpdateError>(
                UpdateError::NonPositiveBalance,
            ),
            update.account_balance != Some(0u64) && !(update_rate_ok(update.position_sizing_pct)
                && update_rate_ok(update.daily_loss_limit_pct) && update_rate_ok(
                update.monthly_drawdown_pct,
            )) ==> r == Err::<(), UpdateError>(UpdateError::RateOutOfRange),
            r is Err ==> *final(self) == *old(self),
            r is Ok ==> *final(self) == (RiskParameters {
                account_balance: updated(old(self).account_balance, update.account_balance),
                position_sizing_pct: updated(old(self).position_sizing_pct, update.position_sizing_pct),
                daily_loss_limit_pct: updated(old(self).daily_loss_limit_pct, update.daily_loss_limit_pct),
                monthly_drawdown_pct: updated(old(self).monthly_drawdown_pct, update.monthly_drawdown_pct),
            }),
            r is Ok <==> (update.account_balance != Some(0u64) && update_rate_ok(
                update.position_sizing_pct,
            ) && update_rate_ok(update.daily_loss_limit_pct) && update_rate_ok(
                update.monthly_drawdown_pct,
            )),
    {
        if update.account_balance == Some(0u64) {
            return Err(UpdateError::NonPositiveBalance);
        }
        if !(rate_ok(update.position_sizing_pct) && rate_ok(update.daily_loss_limit_pct)
            && rate_ok(update.monthly_drawdown_pct)) {
            return Err(UpdateError::RateOutOfRange);
        }
        if let Some(balance) = update.account_balance {
            self.account_balance = balance;
        }
        if let Some(pct) = update.position_sizing_pct {
            self.position_sizing_pct = pct;
        }
        if let Some(pct) = update.daily_loss_limit_pct {
            self.daily_loss_limit_pct = pct;
        }
        if let Some(pct) = update.monthly_drawdown_pct {
            self.monthly_drawdown_pct = pct;
        }
        Ok(())
    }
}

/// Whether a supplied update value is acceptable as a rate.
fn rate_ok(r: Option<u64>) -> (b: bool)
    ensures
        b == update_rate_ok(r),
{
    match r {
        Some(v) => 0 < v && v <= RATE_SCALE,
        None => true,
    }
}

} // verus!

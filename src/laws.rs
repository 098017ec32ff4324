use vstd::prelude::*;
use crate::breaker_codec::{encoded_state, read_state};
use crate::circuit_breaker::{alert_for, limits_breached, prior_state};
use crate::risk_management::RiskParameters;

verus! {

/// The stored breaker text after a run of writes, each of which replaces the
/// text atomically; `None` is a key never written.
pub open spec fn stored_after(initial: Option<Seq<char>>, writes: Seq<Seq<char>>) -> Option<
    Seq<char>,
>
    decreases writes.len(),
{
    if writes.len() == 0 {
        initial
    } else {
        stored_after(Some(writes[0]), writes.subrange(1, writes.len() as int))
    }
}

/// After a run of writes, the store holds the last one.
pub proof fn lemma_stored_after_last(initial: Option<Seq<char>>, writes: Seq<Seq<char>>)
    requires
        writes.len() > 0,
    ensures
        stored_after(initial, writes) == Some(writes.last()),
    decreases writes.len(),
{
    let rest = writes.subrange(1, writes.len() as int);
    if writes.len() > 1 {
        lemma_stored_after_last(Some(writes[0]), rest);
        assert(rest.last() == writes.last());
    } else {
        assert(rest.len() == 0);
        assert(stored_after(Some(writes[0]), rest) == Some(writes[0]));
    }
}

/// Each stored text decodes back to the state it encodes.
pub proof fn lemma_encoding_round_trip(tripped: bool)
    ensures
        read_state(Some(encoded_state(tripped))) == Ok::<bool, crate::breaker_codec::StoreError>(
            tripped,
        ),
{
    assert(encoded_state(true) != encoded_state(false)) by {
        assert(encoded_state(true).len() != encoded_state(false).len());
    }
}

/// A limit check whose metrics are both within their limits leaves the breaker
/// CLOSED, whatever it was before.
pub proof fn lemma_passing_check_closes(
    p: RiskParameters,
    daily_loss: i64,
    monthly_drawdown: i64,
    prior: Option<Seq<char>>,
)
    requires
        p.wf(),
        p.daily_loss_allowed(daily_loss as int),
        p.monthly_drawdown_allowed(monthly_drawdown as int),
    ensures
        !limits_breached(p, daily_loss, monthly_drawdown),
        read_state(
            stored_after(prior, seq![encoded_state(limits_breached(p, daily_loss, monthly_drawdown))]),
        ) == Ok::<bool, crate::breaker_codec::StoreError>(false),
{
    lemma_stored_after_last(prior, seq![encoded_state(false)]);
    lemma_encoding_round_trip(false);
}

/// A limit check where at least one metric is above its limit leaves the
/// breaker OPEN, whatever it was before.
pub proof fn lemma_breaching_check_opens(
    p: RiskParameters,
    daily_loss: i64,
    monthly_drawdown: i64,
    prior: Option<Seq<char>>,
)
    requires
        p.wf(),
        !p.daily_loss_allowed(daily_loss as int) || !p.monthly_drawdown_allowed(
            monthly_drawdown as int,
        ),
    ensures
        limits_breached(p, daily_loss, monthly_drawdown),
        read_state(
            stored_after(prior, seq![encoded_state(limits_breached(p, daily_loss, monthly_drawdown))]),
        ) == Ok::<bool, crate::breaker_codec::StoreError>(true),
{
    lemma_stored_after_last(prior, seq![encoded_state(true)]);
    lemma_encoding_round_trip(true);
}

/// A manual write of a state, repeated any number of times, reads back as that
/// state; every repetition after the first leaves the store as it was and owes
/// no alert.
pub proof fn lemma_manual_write_idempotent(tripped: bool, prior: Option<Seq<char>>, times: nat)
    requires
        times > 0,
    ensures
        read_state(stored_after(prior, Seq::new(times, |i: int| encoded_state(tripped))))
            == Ok::<bool, crate::breaker_codec::StoreError>(tripped),
        stored_after(prior, Seq::new(times, |i: int| encoded_state(tripped))) == stored_after(
            prior,
            seq![encoded_state(tripped)],
        ),
        alert_for(prior_state(stored_after(prior, seq![encoded_state(tripped)])), tripped) is None,
{
    let writes = Seq::new(times, |i: int| encoded_state(tripped));
    lemma_stored_after_last(prior, writes);
    lemma_stored_after_last(prior, seq![encoded_state(tripped)]);
    lemma_encoding_round_trip(tripped);
}

/// Any number of limit checks with the same breaching metrics, their writes
/// landing in any order, leave the breaker OPEN after every write: a later read
/// sees OPEN, no write in between undoes it, and only the first write can owe
/// an alert.
pub proof fn lemma_concurrent_breaching_checks(
    p: RiskParameters,
    daily_loss: i64,
    monthly_drawdown: i64,
    prior: Option<Seq<char>>,
    writes: Seq<Seq<char>>,
)
    requires
        p.wf(),
        !p.daily_loss_allowed(daily_loss as int) || !p.monthly_drawdown_allowed(
            monthly_drawdown as int,
        ),
        forall|i: int|
            0 <= i < writes.len() ==> #[trigger] writes[i] == encoded_state(
                limits_breached(p, daily_loss, monthly_drawdown),
            ),
    ensures
        forall|k: int|
            1 <= k <= writes.len() ==> read_state(#[trigger] stored_after(prior, writes.take(k)))
                == Ok::<bool, crate::breaker_codec::StoreError>(true),
        forall|k: int|
            1 <= k < writes.len() ==> alert_for(
                prior_state(#[trigger] stored_after(prior, writes.take(k))),
                true,
            ) is None,
{
    lemma_encoding_round_trip(true);
    assert forall|k: int| 1 <= k <= writes.len() implies #[trigger] stored_after(
        prior,
        writes.take(k),
    ) == Some(encoded_state(true)) by {
        lemma_stored_after_last(prior, writes.take(k));
        assert(writes.take(k).last() == writes[k - 1]);
    }
}

} // verus!

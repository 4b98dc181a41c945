//! The fee that accrues on a quest that lingers.
//!
//! A placement payment is refundable, less a penalty for lingering: once
//! `delay` time units have passed since creation, `fee` is owed for every
//! whole `period` that has passed since, up to the whole payment.

use vstd::prelude::*;

verus! {

/// How a placement payment is divided when its record is closed.
#[derive(Clone, Copy, Debug, PartialEq, Eq, Structural)]
pub struct PlacementSplit {
    /// Goes to the treasury.
    pub decay_owed: u64,
    /// Goes back to the owner.
    pub refund: u64,
}

/// Number of whole decay periods that have passed `delay` time units after
/// `created_at`, seen at time `now`. Nothing accrues before the delay is over,
/// nor when the clock reads earlier than the creation time.
pub open spec fn decay_periods(created_at: int, now: int, delay: int, period: int) -> int
    recommends
        period > 0,
{
    if now - created_at - delay <= 0 {
        0
    } else {
        (now - created_at - delay) / period
    }
}

/// The decay fee owed after `periods` whole periods: `fee` for each, and
/// never more than the placement payment itself.
pub open spec fn decay_owed(fee: int, periods: int, placement_paid: int) -> int {
    if fee * periods <= placement_paid {
        fee * periods
    } else {
        placement_paid
    }
}

/// The division of a placement payment of a quest created at `created_at`
/// and closed at `now`.
pub open spec fn split_placement(
    fee: int,
    delay: int,
    period: int,
    created_at: int,
    now: int,
    placement_paid: int,
) -> PlacementSplit
    recommends
        period > 0,
{
    let owed = decay_owed(fee, decay_periods(created_at, now, delay, period), placement_paid);
    PlacementSplit { decay_owed: owed as u64, refund: (placement_paid - owed) as u64 }
}

/// Divides a placement payment between the treasury and the owner.
pub(crate) fn placement_split(
    fee: u64,
    delay: u64,
    period: u64,
    created_at: u64,
    now: u64,
    placement_paid: u64,
) -> (s: PlacementSplit)
    requires
        period > 0,
    ensures
        s == split_placement(
            fee as int,
            delay as int,
            period as int,
            created_at as int,
            now as int,
            placement_paid as int,
        ),
        s.decay_owed + s.refund == placement_paid,
        s.decay_owed == decay_owed(
            fee as int,
            decay_periods(created_at as int, now as int, delay as int, period as int),
            placement_paid as int,
        ),
{
    let mut periods: u64 = 0;
    if now > created_at && now - created_at > delay {
        periods = (now - created_at - delay) / period;
    }
    assert(periods == decay_periods(created_at as int, now as int, delay as int, period as int));
    assert(0 <= fee * periods <= u64::MAX * u64::MAX) by (nonlinear_arith)
        requires
            0 <= fee <= u64::MAX,
            0 <= periods <= u64::MAX,
    ;
    let accrued: u128 = (fee as u128) * (periods as u128);
    let owed: u64 = if accrued <= placement_paid as u128 {
        accrued as u64
    } else {
        placement_paid
    };
    PlacementSplit { decay_owed: owed, refund: placement_paid - owed }
}

/// Until the delay and one whole period have passed since creation, no
/// decay fee is owed and the whole placement payment goes back to the owner.
pub proof fn lemma_no_decay_within_window(
    fee: u64,
    delay: u64,
    period: u64,
    created_at: u64,
    now: u64,
    placement_paid: u64,
)
    requires
        period > 0,
        now - created_at - delay < period,
    ensures
        split_placement(
            fee as int,
            delay as int,
            period as int,
            created_at as int,
            now as int,
            placement_paid as int,
        ) == (PlacementSplit { decay_owed: 0, refund: placement_paid }),
{
    let elapsed = now - created_at - delay;
    if elapsed > 0 {
        assert(elapsed / (period as int) == 0) by (nonlinear_arith)
            requires
                0 < elapsed < period,
        ;
    }
    assert(fee * 0 == 0);
}

/// Once `n` whole periods, and less than one more, have passed since the end
/// of the delay, the decay fee owed is `n` times the fee, or the whole
/// placement payment where that is less; the owner gets back the rest.
pub proof fn lemma_decay_after_whole_periods(
    fee: u64,
    delay: u64,
    period: u64,
    created_at: u64,
    now: u64,
    placement_paid: u64,
    n: nat,
)
    requires
        period > 0,
        n * period <= now - created_at - delay < (n + 1) * period,
    ensures
        ({
            let split = split_placement(
                fee as int,
                delay as int,
                period as int,
                created_at as int,
                now as int,
                placement_paid as int,
            );
            &&& n * fee <= placement_paid ==> split.decay_owed == n * fee
            &&& n * fee >= placement_paid ==> split.decay_owed == placement_paid
            &&& split.refund == placement_paid - split.decay_owed
        }),
{
    let elapsed = now - created_at - delay;
    let p = period as int;
    assert(n * p >= 0) by (nonlinear_arith)
        requires
            n >= 0,
            p > 0,
    ;
    if elapsed > 0 {
        assert(elapsed / p == n) by (nonlinear_arith)
            requires
                p > 0,
                n * p <= elapsed < (n + 1) * p,
        ;
    } else {
        assert(n == 0) by (nonlinear_arith)
            requires
                p > 0,
                n >= 0,
                n * p <= 0,
        ;
    }
    assert(decay_periods(created_at as int, now as int, delay as int, p) == n);
    assert(fee * n == n * fee) by (nonlinear_arith);
    assert(fee * n >= 0) by (nonlinear_arith)
        requires
            fee >= 0,
            n >= 0,
    ;
}

} // verus!

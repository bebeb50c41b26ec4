//! Guarantees that relate several operations of the throttle.

use vstd::prelude::*;
use crate::throttle::{
    fresh_spec, lemma_refill_wf, min_usize, EPOCH_MS, refill_overdue, refill_spec, request_spec, sat_add, set_rate_spec, Admission,
    ThrottleModel, HIGH, LOW, MEDIUM,
};

verus! {

/// While the limiter is on, a refill leaves the medium and the low tier a
/// budget of at least one byte each.
pub proof fn lemma_lower_tiers_stay_alive(s: ThrottleModel, now: u64)
    requires
        s.wf(),
        s.epochs_countable(),
        s.per_epoch[HIGH as int] > 0,
    ensures
        refill_spec(s, now).per_epoch[MEDIUM as int] >= 1,
        refill_spec(s, now).per_epoch[LOW as int] >= 1,
{
    lemma_refill_wf(s, now);
}

/// Switching the limiter off and then on again at `rate` gives every tier the
/// budget that a fresh limiter set to `rate` has.
pub proof fn lemma_toggle_matches_fresh(s: ThrottleModel, rate: usize, now: u64)
    requires
        s.wf(),
    ensures
        set_rate_spec(set_rate_spec(s, 0), rate).per_epoch =~= set_rate_spec(
            fresh_spec(now),
            rate,
        ).per_epoch,
{
}

/// A refill never increases the debt of a priority.
pub proof fn lemma_refill_never_grows_debt(s: ThrottleModel, now: u64, p: int)
    requires
        s.wf(),
        0 <= p < 3,
    ensures
        refill_spec(s, now).pending[p] <= s.pending[p],
{
}

/// A write admitted without waiting keeps the bytes admitted to the epoch at
/// its priority within the epoch's budget. One admitted with a wait, and
/// that does not find the periodic refill overdue, adds what it was granted
/// to the debt of its priority (saturating at the largest value).
pub proof fn lemma_admission_accounting(s: ThrottleModel, p: int, amount: usize, now: u64)
    requires
        s.wf(),
        0 <= p < 3,
        s.per_epoch[p] > 0,
    ensures
        ({
            let (t, r) = request_spec(s, p, amount, now);
            &&& r matches Admission::Granted(g) ==> t.through[p] <= s.per_epoch[p]
                && t.through[p] == s.through[p] + g
            &&& r matches Admission::Wait { bytes, .. } ==> (!refill_overdue(s.next_refill, now)
                ==> t.pending[p] == sat_add(s.pending[p], bytes))
        }),
{
}

/// A request that overflows its epoch's budget while the periodic refill is
/// more than half an epoch late runs the refill itself: the new epoch ends
/// one epoch after `now`, the counter of every tier restarts from its debt
/// (this request's bytes included), the requester waits one epoch for each
/// whole budget owed, and no request in the next one and a half epochs finds
/// the refill overdue again.
pub proof fn lemma_overdue_request_refills(s: ThrottleModel, p: int, amount: usize, now: u64)
    requires
        s.wf(),
        0 <= p < 3,
        s.per_epoch[p] > 0,
        s.through[p] + min_usize(amount, s.per_epoch[p]) > s.per_epoch[p],
        refill_overdue(s.next_refill, now),
        now + EPOCH_MS <= u64::MAX,
    ensures
        ({
            let (t, r) = request_spec(s, p, amount, now);
            let b = s.per_epoch[p];
            let a = min_usize(amount, b);
            let pend = sat_add(s.pending[p], a);
            &&& t.next_refill == now + EPOCH_MS
            &&& t.through[p] == pend
            &&& forall|q: int| 0 <= q < 3 && q != p ==> t.through[q] == s.pending[q]
            &&& r == (Admission::Wait {
                bytes: a,
                wait_ms: ((EPOCH_MS as nat) * (pend as nat / b as nat)) as u128,
            })
            &&& forall|n: u64| now <= n <= now + EPOCH_MS + EPOCH_MS / 2 ==> !refill_overdue(t.next_refill, n)
        }),
{
}

} // verus!

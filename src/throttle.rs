use vstd::prelude::*;
use crate::estimator::{estimate_step, lemma_window_position, IOThroughputEstimator, WINDOW_SIZE};
use crate::types::{IOPriority, PRIORITY_COUNT};

verus! {

/// Length of one epoch, in milliseconds.
pub const EPOCH_MS: u64 = 40;

/// Slack, in milliseconds, by which a request tolerates a coarse clock when
/// it checks whether a refill has just happened.
pub const CLOCK_SLACK_MS: u64 = 1;

/// Index of the high priority in per-priority tables.
pub const HIGH: usize = 2;

/// Index of the medium priority in per-priority tables.
pub const MEDIUM: usize = 1;

/// Index of the low priority in per-priority tables.
pub const LOW: usize = 0;

/// Largest budget an epoch can have: that of the largest rate.
pub open spec fn max_budget() -> nat {
    (usize::MAX as nat) * (EPOCH_MS as nat) / 1000
}

/// The budget of one epoch under a rate of `rate` bytes per second.
pub open spec fn epoch_budget(rate: nat) -> nat {
    rate * (EPOCH_MS as nat) / 1000
}

/// `t + d` on the millisecond clock, saturating at its largest instant.
pub open spec fn later(t: u64, d: u64) -> u64 {
    if t + d > u64::MAX {
        u64::MAX
    } else {
        (t + d) as u64
    }
}

pub open spec fn min_usize(a: usize, b: usize) -> usize {
    if a < b {
        a
    } else {
        b
    }
}

pub open spec fn sat_add(a: usize, b: usize) -> usize {
    if a + b > usize::MAX {
        usize::MAX
    } else {
        (a + b) as usize
    }
}

pub open spec fn sat_sub(a: usize, b: usize) -> usize {
    if a > b {
        (a - b) as usize
    } else {
        0
    }
}

/// The state of the throttle as plain values. Each sequence is indexed by
/// [`IOPriority::idx`].
pub struct ThrottleModel {
    /// bytes admitted to the current epoch
    pub through: Seq<usize>,
    /// budget of the current epoch; zero disables the limiter at a priority
    pub per_epoch: Seq<usize>,
    /// instant, in milliseconds, at which the current epoch ends
    pub next_refill: u64,
    /// bytes drawn in advance from future epochs
    pub pending: Seq<usize>,
    /// throughput estimators
    pub est: Seq<IOThroughputEstimator>,
}

impl ThrottleModel {
    /// Table lengths, budget bounds and estimator states.
    pub open spec fn shape_ok(self) -> bool {
        &&& self.through.len() == PRIORITY_COUNT
        &&& self.per_epoch.len() == PRIORITY_COUNT
        &&& self.pending.len() == PRIORITY_COUNT
        &&& self.est.len() == PRIORITY_COUNT
        &&& forall|i: int| 0 <= i < PRIORITY_COUNT ==> self.per_epoch[i] <= max_budget()
        &&& forall|i: int| 0 <= i < PRIORITY_COUNT ==> (#[trigger] self.est[i]).wf()
    }

    /// The estimators that a refill feeds, those of the high and the medium
    /// tier, can count one more epoch.
    pub open spec fn epochs_countable(self) -> bool {
        &&& self.est[HIGH as int].count < usize::MAX
        &&& self.est[MEDIUM as int].count < usize::MAX
    }

    /// The limiter is on at every priority or at none, and a lower tier that
    /// is on has a budget of at least one byte.
    pub open spec fn wf(self) -> bool {
        &&& self.shape_ok()
        &&& self.per_epoch[HIGH as int] == 0 ==> self.per_epoch[MEDIUM as int] == 0
            && self.per_epoch[LOW as int] == 0
        &&& self.per_epoch[HIGH as int] > 0 ==> self.per_epoch[MEDIUM as int] >= 1
            && self.per_epoch[LOW as int] >= 1
    }
}

/// A freshly created throttle: disabled, nothing admitted, nothing owed.
pub open spec fn fresh_spec(now: u64) -> ThrottleModel {
    ThrottleModel {
        through: seq![0usize, 0usize, 0usize],
        per_epoch: seq![0usize, 0usize, 0usize],
        next_refill: later(now, EPOCH_MS),
        pending: seq![0usize, 0usize, 0usize],
        est: seq![
            IOThroughputEstimator { count: 0, sum: 0 },
            IOThroughputEstimator { count: 0, sum: 0 },
            IOThroughputEstimator { count: 0, sum: 0 },
        ],
    }
}

/// Setting the rate: the high budget takes the new value; the lower budgets
/// take it too when the limiter is switched on or off.
pub open spec fn set_rate_spec(s: ThrottleModel, rate: usize) -> ThrottleModel {
    let now = epoch_budget(rate as nat) as usize;
    let before = s.per_epoch[HIGH as int];
    if before == 0 || now == 0 {
        ThrottleModel {
            per_epoch: s.per_epoch.update(HIGH as int, now).update(MEDIUM as int, now).update(
                LOW as int,
                now,
            ),
            ..s
        }
    } else {
        ThrottleModel { per_epoch: s.per_epoch.update(HIGH as int, now), ..s }
    }
}

/// One calibration step at priority `p` (high or medium) under the budget
/// `limit`: the epoch counter restarts from the debt, one budget is paid off
/// the debt, and the clamped consumption is fed to the estimator. When an
/// estimate comes out, the tier below gets what this tier left unused (at
/// least one byte). Returns the new state and the budget of the tier below.
pub open spec fn calibrate_spec(s: ThrottleModel, p: int, limit: usize) -> (ThrottleModel, usize) {
    let consumed = min_usize(s.through[p], limit);
    let e = s.est[p];
    let (c, sm, out) = estimate_step(e.count as nat, e.sum as nat, consumed as nat);
    let s2 = ThrottleModel {
        through: s.through.update(p, s.pending[p]),
        pending: s.pending.update(p, sat_sub(s.pending[p], limit)),
        est: s.est.update(p, IOThroughputEstimator { count: c as usize, sum: sm as u128 }),
        ..s
    };
    match out {
        Some(avg) => {
            let nl: usize = if limit > avg {
                (limit - avg) as usize
            } else {
                1usize
            };
            (ThrottleModel { per_epoch: s2.per_epoch.update(p - 1, nl), ..s2 }, nl)
        },
        None => (s2, s2.per_epoch[p - 1]),
    }
}

/// The last step of a refill, at the low priority: the epoch counter restarts
/// from the debt and one budget is paid off the debt.
pub open spec fn settle_lowest_spec(s: ThrottleModel, limit: usize) -> ThrottleModel {
    ThrottleModel {
        through: s.through.update(LOW as int, s.pending[LOW as int]),
        pending: s.pending.update(LOW as int, sat_sub(s.pending[LOW as int], limit)),
        ..s
    }
}

/// Whether a refill at `now` has nothing to do: the limiter is disabled, or
/// another refill ended the epoch less than half an epoch ago.
pub open spec fn refill_skipped(s: ThrottleModel, now: u64) -> bool {
    s.per_epoch[HIGH as int] == 0 || s.next_refill > later(now, EPOCH_MS / 2)
}

/// A refill at `now`: a new epoch starts, and the budgets of the lower tiers
/// are calibrated from the top down.
pub open spec fn refill_spec(s: ThrottleModel, now: u64) -> ThrottleModel {
    if refill_skipped(s, now) {
        s
    } else {
        let s1 = ThrottleModel { next_refill: later(now, EPOCH_MS), ..s };
        let (s2, l2) = calibrate_spec(s1, HIGH as int, s.per_epoch[HIGH as int]);
        let (s3, l3) = calibrate_spec(s2, MEDIUM as int, l2);
        settle_lowest_spec(s3, l3)
    }
}


/// What a request hands back to its caller.
#[derive(Debug, Clone, Copy, PartialEq, Eq, Structural)]
pub enum Admission {
    /// The bytes are admitted at once.
    Granted(usize),
    /// The bytes are admitted; the caller waits `wait_ms` milliseconds before
    /// it performs the I/O.
    Wait { bytes: usize, wait_ms: u128 },
    /// A refill landed while the request was being charged: ask again.
    Retry,
}

/// How long a requester that overflowed the epoch waits: one epoch for each
/// whole budget owed at its priority, plus what is left of the current epoch.
pub open spec fn wait_spec(pending: usize, budget: usize, next_refill: u64, now: u64) -> u128
    recommends
        budget > 0,
{
    ((EPOCH_MS as nat) * (pending as nat / budget as nat) + (if next_refill > now {
        (next_refill - now) as nat
    } else {
        0nat
    })) as u128
}

/// Whether the periodic refill is more than half an epoch late at `now`.
pub open spec fn refill_overdue(next_refill: u64, now: u64) -> bool {
    later(next_refill, EPOCH_MS / 2) < now
}

/// Whether an epoch ended so recently that a request over budget at `now`
/// must have been charged against the previous epoch's budget.
pub open spec fn just_refilled(next_refill: u64, now: u64) -> bool {
    later(next_refill, CLOCK_SLACK_MS) >= later(now, EPOCH_MS)
}

/// A request for `amount` bytes at priority `p` at `now`. The bytes granted
/// are clamped to one epoch's budget and charged at once; when the charge
/// overflows the epoch, they are owed to future epochs and the requester
/// waits.
pub open spec fn request_spec(s: ThrottleModel, p: int, amount: usize, now: u64) -> (
    ThrottleModel,
    Admission,
) {
    let b = s.per_epoch[p];
    if b == 0 {
        (s, Admission::Granted(amount))
    } else {
        let a = min_usize(amount, b);
        let charged = ThrottleModel { through: s.through.update(p, sat_add(s.through[p], a)), ..s };
        if s.through[p] + a <= b {
            (charged, Admission::Granted(a))
        } else if just_refilled(s.next_refill, now) {
            (charged, Admission::Retry)
        } else {
            let pend = sat_add(s.pending[p], a);
            let s2 = ThrottleModel { pending: s.pending.update(p, pend), ..charged };
            let w = wait_spec(pend, b, s.next_refill, now);
            let s3 = if next_refill_passed(s.next_refill, now) && refill_overdue(s.next_refill, now) {
                refill_spec(s2, now)
            } else {
                s2
            };
            (s3, Admission::Wait { bytes: a, wait_ms: w })
        }
    }
}

pub open spec fn next_refill_passed(next_refill: u64, now: u64) -> bool {
    next_refill <= now
}

/// The bytes an admission grants, if it grants any.
pub open spec fn granted(r: Admission) -> Option<usize> {
    match r {
        Admission::Granted(g) => Some(g),
        Admission::Wait { bytes, .. } => Some(bytes),
        Admission::Retry => None,
    }
}

proof fn lemma_estimate_step(e: IOThroughputEstimator, v: usize)
    requires
        e.wf(),
        e.count < usize::MAX,
    ensures
        ({
            let (c, sm, out) = estimate_step(e.count as nat, e.sum as nat, v as nat);
            &&& c <= usize::MAX
            &&& sm <= u128::MAX
            &&& (IOThroughputEstimator { count: c as usize, sum: sm as u128 }).wf()
        }),
{
    lemma_window_position(e.count as nat);
    assert(e.sum + v <= (e.count % WINDOW_SIZE + 1) * usize::MAX) by (nonlinear_arith)
        requires
            e.sum <= (e.count % WINDOW_SIZE) * usize::MAX,
            v <= usize::MAX,
    ;
    assert((e.count % WINDOW_SIZE + 1) * usize::MAX <= WINDOW_SIZE * usize::MAX) by (nonlinear_arith)
        requires
            e.count % WINDOW_SIZE < WINDOW_SIZE,
    ;
}

proof fn lemma_calibrate(s: ThrottleModel, p: int, limit: usize)
    requires
        s.shape_ok(),
        p == HIGH || p == MEDIUM,
        limit <= max_budget(),
        s.est[p].count < usize::MAX,
    ensures
        ({
            let (t, l) = calibrate_spec(s, p, limit);
            &&& t.shape_ok()
            &&& l <= max_budget()
            &&& t.per_epoch[p - 1] == l
            &&& (l >= 1 || l == s.per_epoch[p - 1])
            &&& forall|q: int| 0 <= q < PRIORITY_COUNT && q != p - 1 ==> t.per_epoch[q] == s.per_epoch[q]
            &&& t.next_refill == s.next_refill
            &&& forall|q: int| 0 <= q < PRIORITY_COUNT && q != p ==> t.est[q] == s.est[q]
        }),
{
    let consumed = min_usize(s.through[p], limit);
    lemma_estimate_step(s.est[p], consumed);
    let (t, l) = calibrate_spec(s, p, limit);
    assert forall|i: int| 0 <= i < PRIORITY_COUNT implies (#[trigger] t.est[i]).wf() by {
        if i != p {
            assert(t.est[i] == s.est[i]);
        }
    }
}

/// Refilling keeps the throttle well formed.
pub proof fn lemma_refill_wf(s: ThrottleModel, now: u64)
    requires
        s.wf(),
        s.epochs_countable(),
    ensures
        refill_spec(s, now).wf(),
{
    if !refill_skipped(s, now) {
        let s1 = ThrottleModel { next_refill: later(now, EPOCH_MS), ..s };
        lemma_calibrate(s1, HIGH as int, s.per_epoch[HIGH as int]);
        let (s2, l2) = calibrate_spec(s1, HIGH as int, s.per_epoch[HIGH as int]);
        lemma_calibrate(s2, MEDIUM as int, l2);
    }
}

/// State that the caller guards together with the epoch counters: the end of
/// the current epoch, the debt of each priority and its throughput estimator.
#[derive(Debug)]
pub struct PriorityBasedIORateLimiterProtected {
    next_refill_time: u64,
    pending_bytes: Vec<usize>,
    estimated_bytes_through: Vec<IOThroughputEstimator>,
}

impl PriorityBasedIORateLimiterProtected {
    /// A fresh record whose epoch ends one epoch after `now`.
    pub fn new(now: u64) -> (r: Self)
        ensures
            r.next_refill_time() == later(now, EPOCH_MS),
            r.pending()@ == seq![0usize, 0usize, 0usize],
            r.estimators()@ == fresh_spec(now).est,
    {
        let e = IOThroughputEstimator::new();
        PriorityBasedIORateLimiterProtected {
            next_refill_time: now.saturating_add(EPOCH_MS),
            pending_bytes: vec![0usize, 0usize, 0usize],
            estimated_bytes_through: vec![e, e, e],
        }
    }

    pub closed spec fn next_refill_time(self) -> u64 {
        self.next_refill_time
    }

    pub closed spec fn pending(self) -> Vec<usize> {
        self.pending_bytes
    }

    pub closed spec fn estimators(self) -> Vec<IOThroughputEstimator> {
        self.estimated_bytes_through
    }
}

/// Limits the total write flow below a budget by throttling lower-priority
/// I/O. The limiter is disabled while the budget is zero.
#[derive(Debug)]
pub struct PriorityBasedIORateLimiter {
    bytes_through: Vec<usize>,
    bytes_per_epoch: Vec<usize>,
    protected: PriorityBasedIORateLimiterProtected,
}

impl View for PriorityBasedIORateLimiter {
    type V = ThrottleModel;

    closed spec fn view(&self) -> ThrottleModel {
        ThrottleModel {
            through: self.bytes_through@,
            per_epoch: self.bytes_per_epoch@,
            next_refill: self.protected.next_refill_time,
            pending: self.protected.pending_bytes@,
            est: self.protected.estimated_bytes_through@,
        }
    }
}

impl PriorityBasedIORateLimiter {
    /// A disabled limiter whose first epoch ends one epoch after `now`.
    pub fn new(now: u64) -> (r: Self)
        ensures
            r@ == fresh_spec(now),
            r@.wf(),
    {
        let r = PriorityBasedIORateLimiter {
            bytes_through: vec![0usize, 0usize, 0usize],
            bytes_per_epoch: vec![0usize, 0usize, 0usize],
            protected: PriorityBasedIORateLimiterProtected::new(now),
        };
        assert(r@.est =~= fresh_spec(now).est);
        r
    }

    /// The budget of one epoch at priority `priority`.
    pub fn bytes_per_epoch(&self, priority: IOPriority) -> (r: usize)
        requires
            self@.wf(),
        ensures
            r == self@.per_epoch[priority.idx()],
    {
        self.bytes_per_epoch[priority.as_index()]
    }

    /// Bytes admitted to the current epoch at priority `priority`.
    pub fn bytes_through(&self, priority: IOPriority) -> (r: usize)
        requires
            self@.wf(),
        ensures
            r == self@.through[priority.idx()],
    {
        self.bytes_through[priority.as_index()]
    }

    /// Bytes that priority `priority` owes to future epochs.
    pub fn pending_bytes(&self, priority: IOPriority) -> (r: usize)
        requires
            self@.wf(),
        ensures
            r == self@.pending[priority.idx()],
    {
        self.protected.pending_bytes[priority.as_index()]
    }

    /// Whether a refill can count one more epoch in its estimators.
    pub fn epochs_countable(&self) -> (r: bool)
        requires
            self@.wf(),
        ensures
            r == self@.epochs_countable(),
    {
        self.protected.estimated_bytes_through[HIGH].count < usize::MAX
            && self.protected.estimated_bytes_through[MEDIUM].count < usize::MAX
    }

    /// The instant, in milliseconds, at which the current epoch ends.
    pub fn next_refill_time(&self) -> (r: u64)
        ensures
            r == self@.next_refill,
    {
        self.protected.next_refill_time
    }

    /// Sets the total rate to `bytes_per_sec` bytes per second. Switching the
    /// limiter on or off sets every tier; otherwise the lower tiers follow at
    /// the next calibration.
    pub fn set_bytes_per_sec(&mut self, bytes_per_sec: usize)
        requires
            old(self)@.wf(),
        ensures
            final(self)@ == set_rate_spec(old(self)@, bytes_per_sec),
            final(self)@.wf(),
    {
        let wide: u128 = bytes_per_sec as u128 * EPOCH_MS as u128 / 1000;
        assert(wide <= max_budget()) by (nonlinear_arith)
            requires
                wide == bytes_per_sec * 40 / 1000,
                bytes_per_sec <= usize::MAX,
                max_budget() == usize::MAX * 40 / 1000,
        ;
        let now: usize = wide as usize;
        let before = self.bytes_per_epoch[HIGH];
        self.bytes_per_epoch.set(HIGH, now);
        if before == 0 || now == 0 {
            self.bytes_per_epoch.set(MEDIUM, now);
            self.bytes_per_epoch.set(LOW, now);
        }
    }

    /// Charges a refill's calibration step at priority `p` and returns the
    /// budget of the tier below.
    fn calibrate(&mut self, p: usize, limit: usize) -> (r: usize)
        requires
            old(self)@.shape_ok(),
            p == HIGH || p == MEDIUM,
            limit <= max_budget(),
            old(self)@.est[p as int].count < usize::MAX,
        ensures
            (final(self)@, r) == calibrate_spec(old(self)@, p as int, limit),
    {
        proof {
            lemma_estimate_step(self@.est[p as int], min_usize(self@.through[p as int], limit));
        }
        let pending = self.protected.pending_bytes[p];
        let through = self.bytes_through[p];
        self.bytes_through.set(p, pending);
        let consumed = if through < limit {
            through
        } else {
            limit
        };
        self.protected.pending_bytes.set(p, pending.saturating_sub(limit));
        let mut e = self.protected.estimated_bytes_through[p];
        let out = e.maybe_update_estimation(consumed);
        self.protected.estimated_bytes_through.set(p, e);
        match out {
            Some(avg) => {
                let nl: usize = if limit > avg {
                    limit - avg
                } else {
                    1
                };
                self.bytes_per_epoch.set(p - 1, nl);
                nl
            },
            None => self.bytes_per_epoch[p - 1],
        }
    }

    /// Starts a new epoch at `now` and recalibrates the lower tiers from the
    /// throughput measured at the tiers above them. Does nothing while the
    /// limiter is disabled, or within half an epoch of the previous refill.
    pub fn refill(&mut self, now: u64)
        requires
            old(self)@.wf(),
            old(self)@.epochs_countable(),
        ensures
            final(self)@ == refill_spec(old(self)@, now),
            final(self)@.wf(),
    {
        proof {
            lemma_refill_wf(self@, now);
        }
        let limit = self.bytes_per_epoch[HIGH];
        if limit == 0 {
            return;
        }
        if self.protected.next_refill_time > now.saturating_add(EPOCH_MS / 2) {
            return;
        }
        self.protected.next_refill_time = now.saturating_add(EPOCH_MS);
        proof {
            lemma_calibrate(self@, HIGH as int, limit);
        }
        let limit = self.calibrate(HIGH, limit);
        proof {
            lemma_calibrate(self@, MEDIUM as int, limit);
        }
        let limit = self.calibrate(MEDIUM, limit);
        let pending = self.protected.pending_bytes[LOW];
        self.bytes_through.set(LOW, pending);
        self.protected.pending_bytes.set(LOW, pending.saturating_sub(limit));
    }

    /// Requests `amount` bytes at `priority` at `now`. See [`Admission`] for
    /// what the caller does with the answer.
    pub fn request(&mut self, priority: IOPriority, amount: usize, now: u64) -> (r: Admission)
        requires
            old(self)@.wf(),
            old(self)@.epochs_countable(),
        ensures
            (final(self)@, r) == request_spec(old(self)@, priority.idx(), amount, now),
            final(self)@.wf(),
            ({
                let b = old(self)@.per_epoch[priority.idx()];
                &&& b == 0 ==> r == Admission::Granted(amount)
                &&& b > 0 ==> match granted(r) {
                    Some(g) => g <= amount && g <= b && (amount > 0 ==> g > 0),
                    None => r == Admission::Retry,
                }
            }),
    {
        let p = priority.as_index();
        let budget = self.bytes_per_epoch[p];
        if budget == 0 {
            return Admission::Granted(amount);
        }
        let amount = if amount < budget {
            amount
        } else {
            budget
        };
        let before = self.bytes_through[p];
        let total = before.saturating_add(amount);
        self.bytes_through.set(p, total);
        if total <= budget {
            return Admission::Granted(amount);
        }
        let next_refill_time = self.protected.next_refill_time;
        if next_refill_time.saturating_add(CLOCK_SLACK_MS) >= now.saturating_add(EPOCH_MS) {
            return Admission::Retry;
        }
        let pending = self.protected.pending_bytes[p].saturating_add(amount);
        self.protected.pending_bytes.set(p, pending);
        let owed: u128 = (pending / budget) as u128;
        let mut wait_ms: u128 = EPOCH_MS as u128 * owed;
        if next_refill_time > now {
            wait_ms = wait_ms + (next_refill_time - now) as u128;
        } else if next_refill_time.saturating_add(EPOCH_MS / 2) < now {
            self.refill(now);
        }
        Admission::Wait { bytes: amount, wait_ms }
    }
}

} // verus!

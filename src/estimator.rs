use vstd::prelude::*;

verus! {

/// Number of epochs averaged by one estimate.
pub const WINDOW_SIZE: usize = 5;

/// Fixed-window averager: one sample per epoch, one estimate per window.
#[derive(Debug, Clone, Copy)]
pub struct IOThroughputEstimator {
    /// samples taken since the estimator was created
    pub count: usize,
    /// sum of the samples of the current window
    pub sum: u128,
}

/// What feeding one sample does: the next (count, sum), and the estimate
/// emitted, if the sample completes a window.
pub open spec fn estimate_step(count: nat, sum: nat, v: nat) -> (nat, nat, Option<nat>) {
    if (count + 1) % (WINDOW_SIZE as nat) == 0 {
        (count + 1, 0, Some(((sum + v) / WINDOW_SIZE as nat) as nat))
    } else {
        (count + 1, sum + v, None)
    }
}

/// The position in its window of the next sample: either it completes the
/// window, or it is one further along than the previous one.
pub(crate) proof fn lemma_window_position(count: nat)
    ensures
        count % (WINDOW_SIZE as nat) < WINDOW_SIZE,
        (count + 1) % (WINDOW_SIZE as nat) == 0 ==> count % (WINDOW_SIZE as nat) == WINDOW_SIZE - 1,
        (count + 1) % (WINDOW_SIZE as nat) != 0 ==> (count + 1) % (WINDOW_SIZE as nat) == count % (
        WINDOW_SIZE as nat) + 1,
{
}

impl IOThroughputEstimator {
    /// The running sum holds no more than the samples of the current window
    /// can add up to.
    pub open spec fn wf(self) -> bool {
        &&& self.sum <= (self.count % WINDOW_SIZE) * usize::MAX
    }

    pub fn new() -> (r: IOThroughputEstimator)
        ensures
            r.wf(),
            r.count == 0,
            r.sum == 0,
    {
        IOThroughputEstimator { count: 0, sum: 0 }
    }

    /// Feeds the sample `v`; on the last sample of a window returns the mean
    /// of the window's samples and starts a new window.
    pub fn maybe_update_estimation(&mut self, v: usize) -> (r: Option<usize>)
        requires
            old(self).wf(),
            old(self).count < usize::MAX,
        ensures
            final(self).wf(),
            final(self).count == old(self).count + 1,
            ({
                let (c, s, e) = estimate_step(old(self).count as nat, old(self).sum as nat, v as nat);
                &&& final(self).count == c
                &&& final(self).sum == s
                &&& e == (match r { Some(a) => Some(a as nat), None => None::<nat> })
            }),
    {
        proof {
            lemma_window_position(self.count as nat);
            assert(self.sum + v <= (self.count % WINDOW_SIZE + 1) * usize::MAX) by (nonlinear_arith)
                requires
                    self.sum <= (self.count % WINDOW_SIZE) * usize::MAX,
                    v <= usize::MAX,
            ;
        }
        let sum: u128 = self.sum + v as u128;
        self.count = self.count + 1;
        if self.count % WINDOW_SIZE == 0 {
            let avg: u128 = sum / (WINDOW_SIZE as u128);
            self.sum = 0;
            Some(avg as usize)
        } else {
            self.sum = sum;
            None
        }
    }
}

} // verus!

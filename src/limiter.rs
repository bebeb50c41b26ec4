use vstd::prelude::*;
use crate::stats::{zero_counts, IORateLimiterStatistics};
use crate::throttle::{
    fresh_spec, granted, refill_spec, request_spec, set_rate_spec, Admission,
    PriorityBasedIORateLimiter, ThrottleModel,
};
use crate::types::{IOOp, IOPriority, IOType, IO_TYPE_COUNT};

verus! {

/// Maps each I/O type to a priority, throttles writes through a
/// [`PriorityBasedIORateLimiter`], and optionally counts the bytes granted.
#[derive(Debug)]
pub struct IORateLimiter {
    priority_map: Vec<IOPriority>,
    throughput_limiter: PriorityBasedIORateLimiter,
    stats: Option<IORateLimiterStatistics>,
}

impl IORateLimiter {
    /// The priority of requests of type `io_type`.
    pub closed spec fn priority_of(self, io_type: IOType) -> IOPriority {
        self.priority_map@[io_type.idx()]
    }

    /// The state of the throttle.
    pub closed spec fn throttle(self) -> ThrottleModel {
        self.throughput_limiter@
    }

    /// The statistics, when they are enabled.
    pub closed spec fn stats(self) -> Option<IORateLimiterStatistics> {
        self.stats
    }

    /// The priority map has an entry for every I/O type.
    pub closed spec fn map_complete(self) -> bool {
        self.priority_map@.len() == IO_TYPE_COUNT
    }

    pub open spec fn wf(self) -> bool {
        &&& self.map_complete()
        &&& self.throttle().wf()
        &&& match self.stats() {
            Some(s) => s.wf(),
            None => true,
        }
    }

    /// A disabled limiter at `now` that maps every type to the high priority.
    pub fn new(enable_statistics: bool, now: u64) -> (r: IORateLimiter)
        ensures
            r.wf(),
            forall|t: IOType| #[trigger] r.priority_of(t) == IOPriority::High,
            r.throttle() == fresh_spec(now),
            r.stats().is_some() == enable_statistics,
            r.stats() matches Some(s) ==> s.counts(IOOp::Read) == zero_counts() && s.counts(
                IOOp::Write,
            ) == zero_counts(),
    {
        let mut priority_map: Vec<IOPriority> = Vec::new();
        let mut i: usize = 0;
        while i < IO_TYPE_COUNT
            invariant
                i <= IO_TYPE_COUNT,
                priority_map@.len() == i,
                forall|j: int| 0 <= j < i ==> priority_map@[j] == IOPriority::High,
            decreases IO_TYPE_COUNT - i,
        {
            priority_map.push(IOPriority::High);
            i = i + 1;
        }
        let stats = if enable_statistics {
            Some(IORateLimiterStatistics::new())
        } else {
            None
        };
        let r = IORateLimiter {
            priority_map,
            throughput_limiter: PriorityBasedIORateLimiter::new(now),
            stats,
        };
        assert forall|t: IOType| #[trigger] r.priority_of(t) == IOPriority::High by {
            assert(0 <= t.idx() < IO_TYPE_COUNT);
        }
        r
    }

    /// Requests of type `io_type` get priority `io_priority` from now on.
    pub fn set_io_priority(&mut self, io_type: IOType, io_priority: IOPriority)
        requires
            old(self).wf(),
        ensures
            final(self).wf(),
            final(self).priority_of(io_type) == io_priority,
            forall|t: IOType| t != io_type ==> #[trigger] final(self).priority_of(t) == old(self).priority_of(t),
            final(self).throttle() == old(self).throttle(),
            final(self).stats() == old(self).stats(),
    {
        self.priority_map.set(io_type.as_index(), io_priority);
        assert forall|t: IOType| t != io_type implies #[trigger] self.priority_of(t) == old(self).priority_of(t) by {
            assert(t.idx() != io_type.idx());
        }
    }

    /// The throttle, for inspection.
    pub fn throughput_limiter(&self) -> (r: &PriorityBasedIORateLimiter)
        requires
            self.wf(),
        ensures
            r@ == self.throttle(),
            r@.wf(),
    {
        &self.throughput_limiter
    }

    /// The priority of requests of type `io_type`.
    pub fn io_priority(&self, io_type: IOType) -> (r: IOPriority)
        requires
            self.wf(),
        ensures
            r == self.priority_of(io_type),
    {
        self.priority_map[io_type.as_index()]
    }

    /// The statistics, when they are enabled.
    pub fn statistics(&self) -> (r: Option<&IORateLimiterStatistics>)
        requires
            self.wf(),
        ensures
            r == match self.stats() {
                Some(s) => Some(&s),
                None => None::<&IORateLimiterStatistics>,
            },
            r matches Some(s) ==> s.wf(),
    {
        match &self.stats {
            Some(s) => Some(s),
            None => None,
        }
    }

    /// Sets every statistics counter back to zero, when statistics are enabled.
    pub fn reset_statistics(&mut self)
        requires
            old(self).wf(),
        ensures
            final(self).wf(),
            final(self).stats().is_some() == old(self).stats().is_some(),
            final(self).stats() matches Some(s) ==> s.counts(IOOp::Read) == zero_counts()
                && s.counts(IOOp::Write) == zero_counts(),
            final(self).throttle() == old(self).throttle(),
            forall|t: IOType| #[trigger] final(self).priority_of(t) == old(self).priority_of(t),
    {
        match &mut self.stats {
            Some(s) => s.reset(),
            None => {},
        }
    }

    /// Sets the total write rate, in bytes per second; zero disables limiting.
    pub fn set_io_rate_limit(&mut self, rate: usize)
        requires
            old(self).wf(),
        ensures
            final(self).wf(),
            final(self).throttle() == set_rate_spec(old(self).throttle(), rate),
            final(self).stats() == old(self).stats(),
            forall|t: IOType| #[trigger] final(self).priority_of(t) == old(self).priority_of(t),
    {
        self.throughput_limiter.set_bytes_per_sec(rate);
    }

    /// Starts a new epoch at `now`; meant to be called once per epoch.
    pub fn refill(&mut self, now: u64)
        requires
            old(self).wf(),
            old(self).throttle().epochs_countable(),
        ensures
            final(self).wf(),
            final(self).throttle() == refill_spec(old(self).throttle(), now),
            final(self).stats() == old(self).stats(),
            forall|t: IOType| #[trigger] final(self).priority_of(t) == old(self).priority_of(t),
    {
        self.throughput_limiter.refill(now);
    }

    /// Requests `bytes` bytes of I/O of type `io_type` and operation `io_op`
    /// at `now`. Reads are granted in full; writes go through the throttle at
    /// the type's priority. The bytes granted are recorded in the statistics.
    pub fn request(&mut self, io_type: IOType, io_op: IOOp, bytes: usize, now: u64) -> (r: Admission)
        requires
            old(self).wf(),
            old(self).throttle().epochs_countable(),
        ensures
            final(self).wf(),
            io_op == IOOp::Read ==> r == Admission::Granted(bytes) && final(self).throttle()
                == old(self).throttle(),
            io_op == IOOp::Write ==> (final(self).throttle(), r) == request_spec(
                old(self).throttle(),
                old(self).priority_of(io_type).idx(),
                bytes,
                now,
            ),
            final(self).stats().is_some() == old(self).stats().is_some(),
            match (old(self).stats(), final(self).stats()) {
                (Some(s0), Some(s1)) => match granted(r) {
                    Some(g) => s0.recorded(s1, io_type, io_op, g),
                    None => s1 == s0,
                },
                _ => true,
            },
            forall|t: IOType| #[trigger] final(self).priority_of(t) == old(self).priority_of(t),
    {
        let r = match io_op {
            IOOp::Write => {
                let priority = self.priority_map[io_type.as_index()];
                self.throughput_limiter.request(priority, bytes, now)
            },
            IOOp::Read => Admission::Granted(bytes),
        };
        let g = match r {
            Admission::Granted(g) => Some(g),
            Admission::Wait { bytes, .. } => Some(bytes),
            Admission::Retry => None,
        };
        match (&mut self.stats, g) {
            (Some(s), Some(g)) => s.record(io_type, io_op, g),
            _ => {},
        }
        r
    }
}

} // verus!

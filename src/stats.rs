use vstd::prelude::*;
use crate::throttle::sat_add;
use crate::types::{IOOp, IOType, IO_TYPE_COUNT};

verus! {

/// Bytes that went through, per I/O type and operation.
#[derive(Debug)]
pub struct IORateLimiterStatistics {
    read_bytes: Vec<usize>,
    write_bytes: Vec<usize>,
}

/// A table of zero counters, one per I/O type.
pub open spec fn zero_counts() -> Seq<usize> {
    Seq::new(IO_TYPE_COUNT as nat, |i: int| 0usize)
}

fn zeros() -> (r: Vec<usize>)
    ensures
        r@ == zero_counts(),
{
    let mut r: Vec<usize> = Vec::new();
    let mut i: usize = 0;
    while i < IO_TYPE_COUNT
        invariant
            i <= IO_TYPE_COUNT,
            r@ == Seq::new(i as nat, |j: int| 0usize),
        decreases IO_TYPE_COUNT - i,
    {
        r.push(0);
        i = i + 1;
        assert(r@ =~= Seq::new(i as nat, |j: int| 0usize));
    }
    r
}

impl IORateLimiterStatistics {
    /// The counters of operation `op`, indexed by [`IOType::idx`].
    pub closed spec fn counts(self, op: IOOp) -> Seq<usize> {
        match op {
            IOOp::Read => self.read_bytes@,
            IOOp::Write => self.write_bytes@,
        }
    }

    pub open spec fn wf(self) -> bool {
        &&& self.counts(IOOp::Read).len() == IO_TYPE_COUNT
        &&& self.counts(IOOp::Write).len() == IO_TYPE_COUNT
    }

    /// Whether `next` is `self` after `bytes` were recorded at `io_type` and
    /// `io_op`. Counters saturate at their largest value.
    pub open spec fn recorded(self, next: Self, io_type: IOType, io_op: IOOp, bytes: usize) -> bool {
        let c = self.counts(io_op);
        let other = match io_op {
            IOOp::Read => IOOp::Write,
            IOOp::Write => IOOp::Read,
        };
        &&& next.counts(io_op) == c.update(io_type.idx(), sat_add(c[io_type.idx()], bytes))
        &&& next.counts(other) == self.counts(other)
    }

    pub fn new() -> (r: Self)
        ensures
            r.wf(),
            r.counts(IOOp::Read) == zero_counts(),
            r.counts(IOOp::Write) == zero_counts(),
    {
        IORateLimiterStatistics { read_bytes: zeros(), write_bytes: zeros() }
    }

    /// Bytes recorded so far at `io_type` and `io_op`.
    pub fn fetch(&self, io_type: IOType, io_op: IOOp) -> (r: usize)
        requires
            self.wf(),
        ensures
            r == self.counts(io_op)[io_type.idx()],
    {
        let i = io_type.as_index();
        match io_op {
            IOOp::Read => self.read_bytes[i],
            IOOp::Write => self.write_bytes[i],
        }
    }

    /// Adds `bytes` to the counter of `io_type` and `io_op`.
    pub fn record(&mut self, io_type: IOType, io_op: IOOp, bytes: usize)
        requires
            old(self).wf(),
        ensures
            final(self).wf(),
            old(self).recorded(*final(self), io_type, io_op, bytes),
    {
        let i = io_type.as_index();
        match io_op {
            IOOp::Read => {
                let v = self.read_bytes[i].saturating_add(bytes);
                self.read_bytes.set(i, v);
            },
            IOOp::Write => {
                let v = self.write_bytes[i].saturating_add(bytes);
                self.write_bytes.set(i, v);
            },
        }
    }

    /// Sets every counter back to zero.
    pub fn reset(&mut self)
        requires
            old(self).wf(),
        ensures
            final(self).wf(),
            final(self).counts(IOOp::Read) == zero_counts(),
            final(self).counts(IOOp::Write) == zero_counts(),
    {
        let mut i: usize = 0;
        while i < IO_TYPE_COUNT
            invariant
                i <= IO_TYPE_COUNT,
                self.read_bytes@.len() == IO_TYPE_COUNT,
                self.write_bytes@.len() == IO_TYPE_COUNT,
                forall|j: int| 0 <= j < i ==> self.read_bytes@[j] == 0 && self.write_bytes@[j] == 0,
            decreases IO_TYPE_COUNT - i,
        {
            self.read_bytes.set(i, 0);
            self.write_bytes.set(i, 0);
            i = i + 1;
        }
        assert(self.read_bytes@ =~= zero_counts());
        assert(self.write_bytes@ =~= zero_counts());
    }
}

} // verus!

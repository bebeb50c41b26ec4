use vstd::prelude::*;

verus! {

/// Number of priority levels.
pub const PRIORITY_COUNT: usize = 3;

/// Number of I/O types.
pub const IO_TYPE_COUNT: usize = 10;

/// Priority of an I/O request. `High` has the largest ordinal.
#[derive(Debug, Clone, Copy, PartialEq, Eq, Structural)]
pub enum IOPriority {
    Low,
    Medium,
    High,
}

impl IOPriority {
    /// Position of the priority in per-priority tables.
    pub open spec fn idx(self) -> int {
        match self {
            IOPriority::Low => 0,
            IOPriority::Medium => 1,
            IOPriority::High => 2,
        }
    }

    pub fn as_index(self) -> (r: usize)
        ensures
            r as int == self.idx(),
            r < PRIORITY_COUNT,
    {
        match self {
            IOPriority::Low => 0,
            IOPriority::Medium => 1,
            IOPriority::High => 2,
        }
    }

    pub fn as_str(self) -> (r: &'static str)
        ensures
            self == IOPriority::Low ==> r@ == "low"@,
            self == IOPriority::Medium ==> r@ == "medium"@,
            self == IOPriority::High ==> r@ == "high"@,
    {
        match self {
            IOPriority::Low => "low",
            IOPriority::Medium => "medium",
            IOPriority::High => "high",
        }
    }
}

/// Kind of an I/O operation.
#[derive(Debug, Clone, Copy, PartialEq, Eq, Structural)]
pub enum IOOp {
    Read,
    Write,
}

/// Source of an I/O request, used to pick its priority.
#[derive(Debug, Clone, Copy, PartialEq, Eq, Structural)]
pub enum IOType {
    Other,
    ForegroundRead,
    ForegroundWrite,
    Flush,
    Compaction,
    Replication,
    LoadBalance,
    Gc,
    Import,
    Export,
}

impl IOType {
    /// Position of the type in per-type tables.
    pub open spec fn idx(self) -> int {
        match self {
            IOType::Other => 0,
            IOType::ForegroundRead => 1,
            IOType::ForegroundWrite => 2,
            IOType::Flush => 3,
            IOType::Compaction => 4,
            IOType::Replication => 5,
            IOType::LoadBalance => 6,
            IOType::Gc => 7,
            IOType::Import => 8,
            IOType::Export => 9,
        }
    }

    pub fn as_index(self) -> (r: usize)
        ensures
            r as int == self.idx(),
            r < IO_TYPE_COUNT,
    {
        match self {
            IOType::Other => 0,
            IOType::ForegroundRead => 1,
            IOType::ForegroundWrite => 2,
            IOType::Flush => 3,
            IOType::Compaction => 4,
            IOType::Replication => 5,
            IOType::LoadBalance => 6,
            IOType::Gc => 7,
            IOType::Import => 8,
            IOType::Export => 9,
        }
    }
}

} // verus!

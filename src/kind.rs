use vstd::prelude::*;

verus! {

/// How the engine reads the increments of a counter: a tally of events, or
/// the opening or closing edge of an interval whose latency it measures.
#[derive(Clone, Copy, Debug, PartialEq, Eq, Structural)]
pub enum CounterKind {
    Throughput,
    Begin,
    End,
}

/// Whether a name holds a NUL character, which ends a C string early.
pub open spec fn has_nul(s: Seq<char>) -> bool {
    exists|i: int| 0 <= i < s.len() && s[i] == '\0'
}

/// The integer by which the engine's lookup entry point knows each kind.
pub open spec fn kind_code(k: CounterKind) -> i32 {
    match k {
        CounterKind::Throughput => 1,
        CounterKind::Begin => 2,
        CounterKind::End => 3,
    }
}

const COUNTER_TYPE_THROUGHPUT: i32 = 1;
const COUNTER_TYPE_BEGIN: i32 = 2;
const COUNTER_TYPE_END: i32 = 3;

impl CounterKind {
    /// The discriminant handed to the engine for this kind.
    pub fn code(self) -> (r: i32)
        ensures
            r == kind_code(self),
    {
        match self {
            CounterKind::Throughput => COUNTER_TYPE_THROUGHPUT,
            CounterKind::Begin => COUNTER_TYPE_BEGIN,
            CounterKind::End => COUNTER_TYPE_END,
        }
    }
}

} // verus!

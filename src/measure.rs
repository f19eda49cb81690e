//! The sub-measure selector of the allocation measurement, the throughput
//! units that reported values may be normalised by, and their labels.

use vstd::prelude::*;

verus! {

/// A declared amount of work per iteration, used to turn a raw count into a
/// rate ("count per byte", "count per element").
#[derive(Copy, Clone, Debug, PartialEq, Eq, Structural)]
pub enum Throughput {
    Bytes(u64),
    Elements(u64),
}

/// The suffix that a throughput-normalised unit label ends with.
pub open spec fn per_unit_suffix(t: Throughput) -> Seq<char> {
    match t {
        Throughput::Bytes(_) => "/byte"@,
        Throughput::Elements(_) => "/element"@,
    }
}

/// Whether `s` ends with `suffix`.
pub open spec fn ends_with(s: Seq<char>, suffix: Seq<char>) -> bool {
    suffix.len() <= s.len() && s.subrange(s.len() - suffix.len(), s.len() as int) == suffix
}

impl Throughput {
    /// The number of bytes or elements that one iteration processes.
    pub fn amount(&self) -> (r: u64)
        ensures
            r == match *self {
                Throughput::Bytes(n) => n,
                Throughput::Elements(n) => n,
            },
    {
        match *self {
            Throughput::Bytes(n) => n,
            Throughput::Elements(n) => n,
        }
    }

    /// The suffix of a label normalised by this throughput.
    pub fn suffix(&self) -> (r: &'static str)
        ensures
            r@ == per_unit_suffix(*self),
    {
        match *self {
            Throughput::Bytes(_) => "/byte",
            Throughput::Elements(_) => "/element",
        }
    }
}

/// Cumulative allocator counters, as seen through a region: each is the
/// number of events since the region's baseline.
#[derive(Copy, Clone, Debug, PartialEq, Eq, Structural)]
pub struct AllocCounts {
    pub allocations: usize,
    pub deallocations: usize,
    pub reallocations: usize,
}

/// Which allocator counter an allocation measurement reports.
#[derive(Copy, Clone, Debug, PartialEq, Eq, Structural)]
pub enum Measure {
    Allocations,
    Deallocations,
    Reallocations,
}

impl Measure {
    /// The unit label of this sub-measure.
    pub open spec fn spec_name(self) -> Seq<char> {
        match self {
            Measure::Allocations => "allocations"@,
            Measure::Deallocations => "deallocations"@,
            Measure::Reallocations => "reallocations"@,
        }
    }

    /// The counter of `c` that this sub-measure reports.
    pub open spec fn spec_select(self, c: AllocCounts) -> usize {
        match self {
            Measure::Allocations => c.allocations,
            Measure::Deallocations => c.deallocations,
            Measure::Reallocations => c.reallocations,
        }
    }

    pub fn name(&self) -> (r: &'static str)
        ensures
            r@ == self.spec_name(),
    {
        match *self {
            Measure::Allocations => "allocations",
            Measure::Deallocations => "deallocations",
            Measure::Reallocations => "reallocations",
        }
    }

    /// The unit label once values are normalised by `throughput`: the
    /// sub-measure's name followed by "/byte" or "/element".
    pub fn throughput_name(&self, throughput: &Throughput) -> (r: &'static str)
        ensures
            r@ == self.spec_name() + per_unit_suffix(*throughput),
            ends_with(r@, per_unit_suffix(*throughput)),
    {
        proof {
            reveal_strlit("allocations");
            reveal_strlit("deallocations");
            reveal_strlit("reallocations");
            reveal_strlit("/byte");
            reveal_strlit("/element");
            reveal_strlit("allocations/byte");
            reveal_strlit("deallocations/byte");
            reveal_strlit("reallocations/byte");
            reveal_strlit("allocations/element");
            reveal_strlit("deallocations/element");
            reveal_strlit("reallocations/element");
        }
        let r = match (*self, *throughput) {
            (Measure::Allocations, Throughput::Bytes(_)) => "allocations/byte",
            (Measure::Deallocations, Throughput::Bytes(_)) => "deallocations/byte",
            (Measure::Reallocations, Throughput::Bytes(_)) => "reallocations/byte",
            (Measure::Allocations, Throughput::Elements(_)) => "allocations/element",
            (Measure::Deallocations, Throughput::Elements(_)) => "deallocations/element",
            (Measure::Reallocations, Throughput::Elements(_)) => "reallocations/element",
        };
        assert(r@ =~= self.spec_name() + per_unit_suffix(*throughput));
        assert(r@.subrange(r@.len() - per_unit_suffix(*throughput).len(), r@.len() as int)
            =~= per_unit_suffix(*throughput));
        r
    }

    /// The counter of `counts` that this sub-measure reports.
    pub fn select(&self, counts: &AllocCounts) -> (r: usize)
        ensures
            r == self.spec_select(*counts),
    {
        match *self {
            Measure::Allocations => counts.allocations,
            Measure::Deallocations => counts.deallocations,
            Measure::Reallocations => counts.reallocations,
        }
    }
}

} // verus!

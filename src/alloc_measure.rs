//! Allocation-event measurement: reports the allocation, deallocation or
//! reallocation count of a process-wide instrumented allocator.

use vstd::prelude::*;
use std::alloc::System;
use stats_alloc::Region;
use stats_alloc::INSTRUMENTED_SYSTEM;
use crate::measure::AllocCounts;
use crate::measure::Measure;
use crate::measure::Throughput;
use crate::measure::per_unit_suffix;
use crate::measure::ends_with;
use crate::value::combined;

verus! {

/// A counting region of the process-wide instrumented allocator: a baseline
/// snapshot of its counters.
#[verifier::external_body]
struct AllocRegion {
    region: Region<'static, System>,
}

/// Relies on `stats_alloc::Region::new` over `stats_alloc::INSTRUMENTED_SYSTEM`:
/// takes that allocator's current counters as the region's baseline.
#[verifier::external_body]
fn open_region() -> (r: AllocRegion) {
    AllocRegion { region: Region::new(&INSTRUMENTED_SYSTEM) }
}

/// Relies on `stats_alloc::Region::change`: the allocator's counters minus the
/// region's baseline. They depend on every allocation the process has made,
/// so nothing is stated of them.
#[verifier::external_body]
fn region_change(region: &AllocRegion) -> (r: AllocCounts) {
    let s = region.region.change();
    AllocCounts {
        allocations: s.allocations,
        deallocations: s.deallocations,
        reallocations: s.reallocations,
    }
}

/// Measures allocator events. Create one with `Alloc::allocations`,
/// `Alloc::dellocations` or `Alloc::reallocations`. It reads
/// `stats_alloc::INSTRUMENTED_SYSTEM`, which the program must install as its
/// global allocator before anything allocates; otherwise every count stays 0.
pub struct Alloc {
    region: AllocRegion,
    sub_measure: Measure,
}

impl Alloc {
    /// The counter that this measurement reports; fixed at construction.
    pub closed spec fn spec_sub_measure(&self) -> Measure {
        self.sub_measure
    }

    fn new(sub_measure: Measure) -> (r: Self)
        ensures
            r.spec_sub_measure() == sub_measure,
    {
        Alloc { region: open_region(), sub_measure }
    }

    pub fn allocations() -> (r: Self)
        ensures
            r.spec_sub_measure() == Measure::Allocations,
    {
        Self::new(Measure::Allocations)
    }

    pub fn dellocations() -> (r: Self)
        ensures
            r.spec_sub_measure() == Measure::Deallocations,
    {
        Self::new(Measure::Deallocations)
    }

    pub fn reallocations() -> (r: Self)
        ensures
            r.spec_sub_measure() == Measure::Reallocations,
    {
        Self::new(Measure::Reallocations)
    }

    pub fn sub_measure(&self) -> (r: Measure)
        ensures
            r == self.spec_sub_measure(),
    {
        self.sub_measure
    }

    /// The selected counter of `counts`: what `start` and `end` report once
    /// the region's counters have been read.
    pub fn value_of(&self, counts: &AllocCounts) -> (r: usize)
        ensures
            r == self.spec_sub_measure().spec_select(*counts),
    {
        self.sub_measure.select(counts)
    }

    /// The selected counter as it stands now, counted from the region's
    /// baseline. It depends on every allocation the process has made since,
    /// so no contract states its value.
    pub fn start(&self) -> usize {
        let counts = region_change(&self.region);
        self.value_of(&counts)
    }

    /// The selected counter as it stands now, counted from the region's
    /// baseline; the value returned by `start` is not subtracted.
    pub fn end(&self, _start: usize) -> usize {
        let counts = region_change(&self.region);
        self.value_of(&counts)
    }

    /// Combines the values of two intervals.
    pub fn add(&self, v1: usize, v2: usize) -> (r: usize)
        requires
            v1 + v2 <= usize::MAX,
        ensures
            r == combined(v1 as nat, v2 as nat),
    {
        v1 + v2
    }

    /// The value of no interval at all.
    pub fn zero(&self) -> (r: usize)
        ensures
            r == 0,
    {
        0
    }

    /// The unit label of raw values.
    pub fn unit_label(&self) -> (r: &'static str)
        ensures
            r@ == self.spec_sub_measure().spec_name(),
    {
        self.sub_measure.name()
    }

    /// The unit label of values normalised by `throughput`.
    pub fn throughput_label(&self, throughput: &Throughput) -> (r: &'static str)
        ensures
            r@ == self.spec_sub_measure().spec_name() + per_unit_suffix(*throughput),
            ends_with(r@, per_unit_suffix(*throughput)),
    {
        self.sub_measure.throughput_name(throughput)
    }
}

} // verus!

//! The driver's plan: which measurements run, in what order, and which
//! benchmark targets each of them runs.

use vstd::prelude::*;

verus! {

/// A hardware event that the driver measures where hardware counters are
/// supported.
#[derive(Copy, Clone, Debug, PartialEq, Eq, Structural)]
pub enum HardwareCounter {
    CpuCycles,
    StalledFrontendCycles,
    StalledBackendCycles,
    CacheMisses,
    BranchMisses,
}

impl HardwareCounter {
    pub open spec fn spec_display_name(self) -> Seq<char> {
        match self {
            HardwareCounter::CpuCycles => "cpu_cycles"@,
            HardwareCounter::StalledFrontendCycles => "stalled_fe_cycles"@,
            HardwareCounter::StalledBackendCycles => "stalled_be_cycles"@,
            HardwareCounter::CacheMisses => "cache_misses"@,
            HardwareCounter::BranchMisses => "branch_misses"@,
        }
    }

    pub open spec fn spec_units(self) -> Seq<char> {
        match self {
            HardwareCounter::CpuCycles => "cycles"@,
            HardwareCounter::StalledFrontendCycles => "stalled_fe_cycles"@,
            HardwareCounter::StalledBackendCycles => "stalled_be_cycles"@,
            HardwareCounter::CacheMisses => "cache misses"@,
            HardwareCounter::BranchMisses => "branch misses"@,
        }
    }

    /// The name under which the targets report this measurement.
    pub fn display_name(&self) -> (r: &'static str)
        ensures
            r@ == self.spec_display_name(),
    {
        match *self {
            HardwareCounter::CpuCycles => "cpu_cycles",
            HardwareCounter::StalledFrontendCycles => "stalled_fe_cycles",
            HardwareCounter::StalledBackendCycles => "stalled_be_cycles",
            HardwareCounter::CacheMisses => "cache_misses",
            HardwareCounter::BranchMisses => "branch_misses",
        }
    }

    /// The unit label of this event's counts.
    pub fn units(&self) -> (r: &'static str)
        ensures
            r@ == self.spec_units(),
    {
        match *self {
            HardwareCounter::CpuCycles => "cycles",
            HardwareCounter::StalledFrontendCycles => "stalled_fe_cycles",
            HardwareCounter::StalledBackendCycles => "stalled_be_cycles",
            HardwareCounter::CacheMisses => "cache misses",
            HardwareCounter::BranchMisses => "branch misses",
        }
    }
}

/// A measurement that the driver may run the benchmark groups under.
#[derive(Copy, Clone, Debug, PartialEq, Eq, Structural)]
pub enum MeasurementKind {
    WallTime,
    Allocations,
    Reallocations,
    Hardware(HardwareCounter),
}

impl MeasurementKind {
    pub open spec fn spec_display_name(self) -> Seq<char> {
        match self {
            MeasurementKind::WallTime => "wall_time"@,
            MeasurementKind::Allocations => "allocs"@,
            MeasurementKind::Reallocations => "reallocs"@,
            MeasurementKind::Hardware(h) => h.spec_display_name(),
        }
    }

    /// The name under which the targets report this measurement.
    pub fn display_name(&self) -> (r: &'static str)
        ensures
            r@ == self.spec_display_name(),
    {
        match *self {
            MeasurementKind::WallTime => "wall_time",
            MeasurementKind::Allocations => "allocs",
            MeasurementKind::Reallocations => "reallocs",
            MeasurementKind::Hardware(h) => h.display_name(),
        }
    }
}

/// The measurements in the order the driver runs them: wall-clock time first,
/// then allocation and reallocation counts, then, where supported, each
/// hardware counter.
pub open spec fn spec_measurement_order(hardware_supported: bool) -> Seq<MeasurementKind> {
    let base = seq![
        MeasurementKind::WallTime,
        MeasurementKind::Allocations,
        MeasurementKind::Reallocations,
    ];
    if hardware_supported {
        base + seq![
            MeasurementKind::Hardware(HardwareCounter::CpuCycles),
            MeasurementKind::Hardware(HardwareCounter::StalledFrontendCycles),
            MeasurementKind::Hardware(HardwareCounter::StalledBackendCycles),
            MeasurementKind::Hardware(HardwareCounter::CacheMisses),
            MeasurementKind::Hardware(HardwareCounter::BranchMisses),
        ]
    } else {
        base
    }
}

pub fn measurement_order(hardware_supported: bool) -> (r: Vec<MeasurementKind>)
    ensures
        r@ == spec_measurement_order(hardware_supported),
{
    let mut r = vec![
        MeasurementKind::WallTime,
        MeasurementKind::Allocations,
        MeasurementKind::Reallocations,
    ];
    if hardware_supported {
        r.push(MeasurementKind::Hardware(HardwareCounter::CpuCycles));
        r.push(MeasurementKind::Hardware(HardwareCounter::StalledFrontendCycles));
        r.push(MeasurementKind::Hardware(HardwareCounter::StalledBackendCycles));
        r.push(MeasurementKind::Hardware(HardwareCounter::CacheMisses));
        r.push(MeasurementKind::Hardware(HardwareCounter::BranchMisses));
    }
    assert(r@ =~= spec_measurement_order(hardware_supported));
    r
}

/// One call of one target: the index of the measurement, of the group in
/// registration order, and of the target within its group.
#[derive(Copy, Clone, Debug, PartialEq, Eq, Structural)]
pub struct Invocation {
    pub measurement: usize,
    pub group: usize,
    pub target: usize,
}

/// The calls of targets `0..t` of group `g` under measurement `m`.
pub open spec fn target_runs(m: int, g: int, t: int) -> Seq<Invocation> {
    Seq::new(t as nat, |i: int| Invocation { measurement: m as usize, group: g as usize, target: i as usize })
}

/// The calls of every target of groups `0..k` under measurement `m`, where
/// group `g` has `targets[g]` targets.
pub open spec fn group_runs(m: int, targets: Seq<usize>, k: int) -> Seq<Invocation>
    decreases k,
{
    if k <= 0 {
        Seq::empty()
    } else {
        group_runs(m, targets, k - 1) + target_runs(m, k - 1, targets[k - 1] as int)
    }
}

/// The calls made under measurements `0..j`: every target of every group,
/// under each measurement that is available, and none under the others.
pub open spec fn schedule_upto(available: Seq<bool>, targets: Seq<usize>, j: int) -> Seq<Invocation>
    decreases j,
{
    if j <= 0 {
        Seq::empty()
    } else {
        schedule_upto(available, targets, j - 1) + if available[j - 1] {
            group_runs(j - 1, targets, targets.len() as int)
        } else {
            Seq::empty()
        }
    }
}

pub open spec fn spec_schedule(available: Seq<bool>, targets: Seq<usize>) -> Seq<Invocation> {
    schedule_upto(available, targets, available.len() as int)
}

/// The number of targets in groups `0..k`.
pub open spec fn targets_upto(targets: Seq<usize>, k: int) -> nat
    decreases k,
{
    if k <= 0 {
        0
    } else {
        targets_upto(targets, k - 1) + targets[k - 1] as nat
    }
}

/// The number of available measurements among `0..j`.
pub open spec fn available_upto(available: Seq<bool>, j: int) -> nat
    decreases j,
{
    if j <= 0 {
        0
    } else {
        available_upto(available, j - 1) + if available[j - 1] { 1nat } else { 0nat }
    }
}

/// Every target call that the driver makes, in order: for each measurement
/// that is available (`available[m]`), each group in registration order, and
/// each of its `targets_per_group[g]` targets in the order given.
pub fn schedule(available: &Vec<bool>, targets_per_group: &Vec<usize>) -> (r: Vec<Invocation>)
    ensures
        r@ == spec_schedule(available@, targets_per_group@),
{
    let mut r: Vec<Invocation> = Vec::new();
    let mut m: usize = 0;
    while m < available.len()
        invariant
            m <= available.len(),
            r@ == schedule_upto(available@, targets_per_group@, m as int),
        decreases available.len() - m,
    {
        if available[m] {
            let mut g: usize = 0;
            while g < targets_per_group.len()
                invariant
                    m < available.len(),
                    available@[m as int],
                    g <= targets_per_group.len(),
                    r@ == schedule_upto(available@, targets_per_group@, m as int) + group_runs(
                        m as int,
                        targets_per_group@,
                        g as int,
                    ),
                decreases targets_per_group.len() - g,
            {
                let n = targets_per_group[g];
                let mut t: usize = 0;
                while t < n
                    invariant
                        g < targets_per_group.len(),
                        n == targets_per_group@[g as int],
                        t <= n,
                        r@ == schedule_upto(available@, targets_per_group@, m as int) + group_runs(
                            m as int,
                            targets_per_group@,
                            g as int,
                        ) + target_runs(m as int, g as int, t as int),
                    decreases n - t,
                {
                    r.push(Invocation { measurement: m, group: g, target: t });
                    assert(target_runs(m as int, g as int, t + 1) =~= target_runs(
                        m as int,
                        g as int,
                        t as int,
                    ).push(Invocation { measurement: m, group: g, target: t }));
                    t = t + 1;
                }
                assert(group_runs(m as int, targets_per_group@, g + 1) == group_runs(
                    m as int,
                    targets_per_group@,
                    g as int,
                ) + target_runs(m as int, g as int, n as int));
                g = g + 1;
            }
        }
        assert(r@ =~= schedule_upto(available@, targets_per_group@, m + 1));
        m = m + 1;
    }
    r
}

proof fn lemma_group_runs_len(m: int, targets: Seq<usize>, k: int)
    requires
        0 <= k <= targets.len(),
    ensures
        group_runs(m, targets, k).len() == targets_upto(targets, k),
    decreases k,
{
    if k > 0 {
        lemma_group_runs_len(m, targets, k - 1);
    }
}

proof fn lemma_schedule_upto_len(available: Seq<bool>, targets: Seq<usize>, j: int)
    requires
        0 <= j <= available.len(),
    ensures
        schedule_upto(available, targets, j).len() == available_upto(available, j) * targets_upto(
            targets,
            targets.len() as int,
        ),
    decreases j,
{
    let n = targets_upto(targets, targets.len() as int);
    if j > 0 {
        lemma_schedule_upto_len(available, targets, j - 1);
        lemma_group_runs_len(j - 1, targets, targets.len() as int);
        let a = available_upto(available, j - 1);
        assert((a + 1) * n == a * n + n) by (nonlinear_arith);
    } else {
        assert(0 * n == 0);
    }
}

/// The driver calls each target once per available measurement: the number
/// of calls is the number of targets times the number of available
/// measurements.
pub proof fn lemma_schedule_len(available: Seq<bool>, targets: Seq<usize>)
    ensures
        spec_schedule(available, targets).len() == available_upto(
            available,
            available.len() as int,
        ) * targets_upto(targets, targets.len() as int),
{
    lemma_schedule_upto_len(available, targets, available.len() as int);
}

} // verus!

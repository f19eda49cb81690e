use bench_helper::harness::measurement_order;
use bench_helper::harness::schedule;
use bench_helper::harness::HardwareCounter;
use bench_helper::harness::Invocation;
use bench_helper::harness::MeasurementKind;

#[test]
fn order_without_hardware() {
    let o = measurement_order(false);
    assert_eq!(
        o,
        vec![MeasurementKind::WallTime, MeasurementKind::Allocations, MeasurementKind::Reallocations]
    );
    let names: Vec<&str> = o.iter().map(|k| k.display_name()).collect();
    assert_eq!(names, vec!["wall_time", "allocs", "reallocs"]);
}

#[test]
fn order_with_hardware() {
    let o = measurement_order(true);
    assert_eq!(o.len(), 8);
    assert_eq!(o[0], MeasurementKind::WallTime);
    assert_eq!(o[3], MeasurementKind::Hardware(HardwareCounter::CpuCycles));
    assert_eq!(o[7], MeasurementKind::Hardware(HardwareCounter::BranchMisses));
    let names: Vec<&str> = o.iter().map(|k| k.display_name()).collect();
    assert_eq!(
        names,
        vec![
            "wall_time",
            "allocs",
            "reallocs",
            "cpu_cycles",
            "stalled_fe_cycles",
            "stalled_be_cycles",
            "cache_misses",
            "branch_misses"
        ]
    );
    assert!(o.iter().skip(3).all(|k| matches!(k, MeasurementKind::Hardware(_))));
}

#[test]
fn hardware_units() {
    assert_eq!(HardwareCounter::CpuCycles.units(), "cycles");
    assert_eq!(HardwareCounter::StalledFrontendCycles.units(), "stalled_fe_cycles");
    assert_eq!(HardwareCounter::StalledBackendCycles.units(), "stalled_be_cycles");
    assert_eq!(HardwareCounter::CacheMisses.units(), "cache misses");
    assert_eq!(HardwareCounter::BranchMisses.units(), "branch misses");
}

#[test]
fn one_group_two_targets_every_measurement() {
    // wall time, allocations, reallocations, and one hardware counter that is unavailable
    let available = vec![true, true, true, false];
    let r = schedule(&available, &vec![2]);
    assert_eq!(r.len(), 2 * 3);
    let inv = |measurement, target| Invocation { measurement, group: 0, target };
    assert_eq!(r, vec![inv(0, 0), inv(0, 1), inv(1, 0), inv(1, 1), inv(2, 0), inv(2, 1)]);
}

#[test]
fn schedule_keeps_group_and_target_order() {
    let r = schedule(&vec![false, true], &vec![1, 0, 2]);
    assert_eq!(
        r,
        vec![
            Invocation { measurement: 1, group: 0, target: 0 },
            Invocation { measurement: 1, group: 2, target: 0 },
            Invocation { measurement: 1, group: 2, target: 1 },
        ]
    );
}

#[test]
fn schedule_of_nothing_is_empty() {
    assert!(schedule(&vec![], &vec![3, 4]).is_empty());
    assert!(schedule(&vec![false, false], &vec![3]).is_empty());
    assert!(schedule(&vec![true, true], &vec![]).is_empty());
}

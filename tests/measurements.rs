use bench_helper::alloc_measure::Alloc;
use bench_helper::measure::AllocCounts;
use bench_helper::measure::Measure;
use bench_helper::measure::Throughput;
use bench_helper::perf::CounterOp;
use bench_helper::perf::Perf;
use perfcnt::linux::HardwareEventType;

#[test]
fn constructors_fix_the_sub_measure() {
    assert_eq!(Alloc::allocations().sub_measure(), Measure::Allocations);
    assert_eq!(Alloc::dellocations().sub_measure(), Measure::Deallocations);
    assert_eq!(Alloc::reallocations().sub_measure(), Measure::Reallocations);
}

#[test]
fn fresh_region_reports_no_change() {
    for a in [Alloc::allocations(), Alloc::dellocations(), Alloc::reallocations()] {
        let s = a.start();
        assert_eq!(s, 0);
        assert_eq!(a.end(s), 0);
    }
}

#[test]
fn alloc_value_of_follows_sub_measure() {
    let c = AllocCounts { allocations: 10, deallocations: 20, reallocations: 30 };
    assert_eq!(Alloc::allocations().value_of(&c), 10);
    assert_eq!(Alloc::dellocations().value_of(&c), 20);
    assert_eq!(Alloc::reallocations().value_of(&c), 30);
}

#[test]
fn alloc_add_commutes_and_has_zero_identity() {
    let a = Alloc::allocations();
    for (x, y) in [(0usize, 0usize), (1, 2), (17, 4000), (usize::MAX - 5, 5)] {
        assert_eq!(a.add(x, y), a.add(y, x));
        assert_eq!(a.add(x, a.zero()), x);
    }
    assert_eq!(a.add(2, 3), 5);
    assert_eq!(a.zero(), 0);
}

#[test]
fn alloc_labels() {
    let a = Alloc::reallocations();
    assert_eq!(a.unit_label(), "reallocations");
    assert_eq!(a.throughput_label(&Throughput::Bytes(8)), "reallocations/byte");
    assert_eq!(a.throughput_label(&Throughput::Elements(8)), "reallocations/element");
    let b = Alloc::allocations();
    assert!(b.throughput_label(&Throughput::Bytes(1)).ends_with("/byte"));
    assert!(b.throughput_label(&Throughput::Elements(1)).ends_with("/element"));
}

#[test]
fn unavailable_counter_does_not_stop_other_measurements() {
    // pid 0 is the calling process
    let pid: i32 = 0;
    match Perf::hardware("cycles", HardwareEventType::CPUCycles, pid) {
        Ok(mut p) => {
            assert!(!p.is_running());
            assert_eq!(p.unit_label(), "cycles");
            match p.start() {
                Ok(v) => {
                    assert_eq!(v, 0);
                    assert!(p.is_running());
                    let r = p.end(v);
                    match r {
                        Ok(_) => assert!(!p.is_running()),
                        Err(f) => assert!(f.op != CounterOp::Start),
                    }
                }
                Err(f) => assert_eq!(f.op, CounterOp::Start),
            }
        }
        Err(_) => {}
    }
    let a = Alloc::allocations();
    let s = a.start();
    assert_eq!(a.end(s), s);
}

#[test]
fn perf_labels_and_arithmetic() {
    // pid 0 is the calling process
    let pid: i32 = 0;
    if let Ok(p) = Perf::hardware("cache misses", HardwareEventType::CacheMisses, pid) {
        assert_eq!(p.throughput_units(&Throughput::Bytes(2)), "cache misses/byte");
        assert_eq!(p.throughput_units(&Throughput::Elements(2)), "cache misses/element");
        assert_eq!(p.throughput_label(&Throughput::Bytes(2)), "events/byte");
        assert_eq!(p.throughput_label(&Throughput::Elements(2)), "events/element");
        assert_eq!(p.machine_label(), "events");
        assert_eq!(p.add(3, 4), 7);
        assert_eq!(p.add(4, 3), p.add(3, 4));
        assert_eq!(p.add(9, p.zero()), 9);
    }
}

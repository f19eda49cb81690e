use bench_helper::measure::AllocCounts;
use bench_helper::measure::Measure;
use bench_helper::measure::Throughput;
use bench_helper::perf::CounterOp;

#[test]
fn measure_names() {
    assert_eq!(Measure::Allocations.name(), "allocations");
    assert_eq!(Measure::Deallocations.name(), "deallocations");
    assert_eq!(Measure::Reallocations.name(), "reallocations");
}

#[test]
fn throughput_names_per_byte() {
    let t = Throughput::Bytes(64);
    assert_eq!(Measure::Allocations.throughput_name(&t), "allocations/byte");
    assert_eq!(Measure::Deallocations.throughput_name(&t), "deallocations/byte");
    assert_eq!(Measure::Reallocations.throughput_name(&t), "reallocations/byte");
}

#[test]
fn throughput_names_per_element() {
    let t = Throughput::Elements(3);
    assert_eq!(Measure::Allocations.throughput_name(&t), "allocations/element");
    assert_eq!(Measure::Deallocations.throughput_name(&t), "deallocations/element");
    assert_eq!(Measure::Reallocations.throughput_name(&t), "reallocations/element");
}

#[test]
fn throughput_amount_and_suffix() {
    assert_eq!(Throughput::Bytes(4096).amount(), 4096);
    assert_eq!(Throughput::Elements(7).amount(), 7);
    assert_eq!(Throughput::Bytes(0).suffix(), "/byte");
    assert_eq!(Throughput::Elements(u64::MAX).suffix(), "/element");
}

#[test]
fn select_picks_the_sub_measure() {
    let c = AllocCounts { allocations: 5, deallocations: 3, reallocations: 1 };
    assert_eq!(Measure::Allocations.select(&c), 5);
    assert_eq!(Measure::Deallocations.select(&c), 3);
    assert_eq!(Measure::Reallocations.select(&c), 1);
}

#[test]
fn counter_op_descriptions() {
    assert_eq!(CounterOp::Start.describe(), "Could not start perf counter");
    assert_eq!(CounterOp::Stop.describe(), "Could not stop perf counter");
    assert_eq!(CounterOp::Read.describe(), "Could not read perf counter");
    assert_eq!(CounterOp::Reset.describe(), "Could not reset perf counter");
}

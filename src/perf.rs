//! Hardware-counter measurement: one perf event of the current process,
//! counted over each measured interval.

use vstd::prelude::*;
use perfcnt::AbstractPerfCounter;
use perfcnt::linux::HardwareEventType;
use perfcnt::linux::PerfCounter;
use perfcnt::linux::PerfCounterBuilderLinux;
use crate::measure::Throughput;
use crate::measure::per_unit_suffix;
use crate::measure::ends_with;
use crate::value::combined;

verus! {

#[verifier::external_type_specification]
#[verifier::external_body]
pub struct ExHardwareEventType(HardwareEventType);

#[verifier::external_type_specification]
#[verifier::external_body]
pub struct ExPerfCounterBuilderLinux(PerfCounterBuilderLinux);

#[verifier::external_type_specification]
#[verifier::external_body]
pub struct ExPerfCounter(PerfCounter);

#[verifier::external_type_specification]
#[verifier::external_body]
pub struct ExIoError(std::io::Error);

/// Relies on `PerfCounterBuilderLinux::from_hardware_event`: a counter
/// description for `event`.
#[verifier::external_body]
fn hardware_builder(event: HardwareEventType) -> (r: PerfCounterBuilderLinux) {
    PerfCounterBuilderLinux::from_hardware_event(event)
}

/// Relies on `PerfCounterBuilderLinux::for_pid`: the counter will observe
/// process `pid` only.
#[verifier::external_body]
fn scope_to_pid(builder: &mut PerfCounterBuilderLinux, pid: i32) {
    builder.for_pid(pid);
}

/// Relies on `PerfCounterBuilderLinux::disable`: the counter will be created
/// disabled.
#[verifier::external_body]
fn create_disabled(builder: &mut PerfCounterBuilderLinux) {
    builder.disable();
}

/// Relies on `PerfCounterBuilderLinux::finish`: opens the counter, or reports
/// why the kernel refused it.
#[verifier::external_body]
fn open_counter(builder: &PerfCounterBuilderLinux) -> (r: Result<PerfCounter, std::io::Error>) {
    builder.finish()
}

/// Relies on `AbstractPerfCounter::start` of `PerfCounter`: enables counting.
#[verifier::external_body]
fn enable_counter(counter: &PerfCounter) -> (r: Result<(), std::io::Error>) {
    counter.start()
}

/// Relies on `AbstractPerfCounter::stop` of `PerfCounter`: disables counting.
#[verifier::external_body]
fn disable_counter(counter: &PerfCounter) -> (r: Result<(), std::io::Error>) {
    counter.stop()
}

/// Relies on `AbstractPerfCounter::read` of `PerfCounter`: the events counted
/// since the last reset.
#[verifier::external_body]
fn read_counter(counter: &mut PerfCounter) -> (r: Result<u64, std::io::Error>) {
    counter.read()
}

/// Relies on `AbstractPerfCounter::reset` of `PerfCounter`: sets the count
/// back to zero.
#[verifier::external_body]
fn reset_counter(counter: &PerfCounter) -> (r: Result<(), std::io::Error>) {
    counter.reset()
}

/// The counter operation that failed on a bound counter.
#[derive(Copy, Clone, Debug, PartialEq, Eq, Structural)]
pub enum CounterOp {
    Start,
    Stop,
    Read,
    Reset,
}

impl CounterOp {
    /// What went wrong, in words.
    pub fn describe(&self) -> (r: &'static str)
        ensures
            r@ == match *self {
                CounterOp::Start => "Could not start perf counter"@,
                CounterOp::Stop => "Could not stop perf counter"@,
                CounterOp::Read => "Could not read perf counter"@,
                CounterOp::Reset => "Could not reset perf counter"@,
            },
    {
        match *self {
            CounterOp::Start => "Could not start perf counter",
            CounterOp::Stop => "Could not stop perf counter",
            CounterOp::Read => "Could not read perf counter",
            CounterOp::Reset => "Could not reset perf counter",
        }
    }
}

/// A failed operation on a bound counter, with the kernel's reason. The
/// counter can no longer be trusted for this metric.
pub struct CounterFailure {
    pub op: CounterOp,
    pub cause: std::io::Error,
}

/// Measures one hardware event of this process. Create one with `Perf::new`
/// or `Perf::hardware`.
pub struct Perf {
    units: &'static str,
    counter: PerfCounter,
    running: bool,
}

impl Perf {
    /// The unit label given at construction.
    pub closed spec fn spec_units(&self) -> Seq<char> {
        self.units@
    }

    /// Whether the counter has been enabled by `start` and not yet disabled
    /// by `end`.
    pub closed spec fn spec_running(&self) -> bool {
        self.running
    }

    /// Binds the counter that `builder` describes to process `pid`, created
    /// disabled. An error means the counter is unavailable here (most often
    /// for want of permission) and this metric should be skipped.
    pub fn new(units: &'static str, builder: PerfCounterBuilderLinux, pid: i32) -> (r: Result<
        Self,
        std::io::Error,
    >)
        ensures
            r matches Ok(p) ==> p.spec_units() == units@ && !p.spec_running(),
    {
        let mut builder = builder;
        scope_to_pid(&mut builder, pid);
        create_disabled(&mut builder);
        match open_counter(&builder) {
            Ok(counter) => Ok(Perf { units, counter, running: false }),
            Err(e) => Err(e),
        }
    }

    /// `Perf::new` on the counter of hardware event `event`.
    pub fn hardware(units: &'static str, event: HardwareEventType, pid: i32) -> (r: Result<
        Self,
        std::io::Error,
    >)
        ensures
            r matches Ok(p) ==> p.spec_units() == units@ && !p.spec_running(),
    {
        Self::new(units, hardware_builder(event), pid)
    }

    pub fn is_running(&self) -> (r: bool)
        ensures
            r == self.spec_running(),
    {
        self.running
    }

    /// Enables the counter. The interval's count is read by `end`, so the
    /// value returned is only a placeholder, 0.
    pub fn start(&mut self) -> (r: Result<u64, CounterFailure>)
        ensures
            final(self).spec_units() == old(self).spec_units(),
            match r {
                Ok(v) => v == 0 && final(self).spec_running(),
                Err(f) => f.op == CounterOp::Start && final(self).spec_running()
                    == old(self).spec_running(),
            },
    {
        match enable_counter(&self.counter) {
            Ok(()) => {
                self.running = true;
                Ok(0)
            },
            Err(e) => Err(CounterFailure { op: CounterOp::Start, cause: e }),
        }
    }

    /// Disables the counter, reads its count and resets it to zero; returns
    /// the count. Stops at the first operation that fails and names it.
    pub fn end(&mut self, _start: u64) -> (r: Result<u64, CounterFailure>)
        ensures
            final(self).spec_units() == old(self).spec_units(),
            match r {
                Ok(_) => !final(self).spec_running(),
                Err(f) => {
                    ||| f.op == CounterOp::Stop && final(self).spec_running()
                        == old(self).spec_running()
                    ||| (f.op == CounterOp::Read || f.op == CounterOp::Reset)
                        && !final(self).spec_running()
                },
            },
    {
        match disable_counter(&self.counter) {
            Ok(()) => {},
            Err(e) => {
                return Err(CounterFailure { op: CounterOp::Stop, cause: e });
            },
        }
        self.running = false;
        let count = match read_counter(&mut self.counter) {
            Ok(v) => v,
            Err(e) => {
                return Err(CounterFailure { op: CounterOp::Read, cause: e });
            },
        };
        match reset_counter(&self.counter) {
            Ok(()) => Ok(count),
            Err(e) => Err(CounterFailure { op: CounterOp::Reset, cause: e }),
        }
    }

    /// Combines the counts of two intervals.
    pub fn add(&self, v1: u64, v2: u64) -> (r: u64)
        requires
            v1 + v2 <= u64::MAX,
        ensures
            r == combined(v1 as nat, v2 as nat),
    {
        v1 + v2
    }

    /// The count of no interval at all.
    pub fn zero(&self) -> (r: u64)
        ensures
            r == 0,
    {
        0
    }

    /// The unit label of raw counts.
    pub fn unit_label(&self) -> (r: &'static str)
        ensures
            r@ == self.spec_units(),
    {
        self.units
    }

    /// The unit label of one count normalised by `throughput`: the units
    /// followed by "/byte" or "/element".
    pub fn throughput_units(&self, throughput: &Throughput) -> (r: String)
        ensures
            r@ == self.spec_units() + per_unit_suffix(*throughput),
            ends_with(r@, per_unit_suffix(*throughput)),
    {
        let r = String::from_str(self.units).concat(throughput.suffix());
        assert(r@.subrange(r@.len() - per_unit_suffix(*throughput).len(), r@.len() as int)
            =~= per_unit_suffix(*throughput));
        r
    }

    /// The unit label of a batch of counts normalised by `throughput`.
    pub fn throughput_label(&self, throughput: &Throughput) -> (r: &'static str)
        ensures
            r@ == "events"@ + per_unit_suffix(*throughput),
            ends_with(r@, per_unit_suffix(*throughput)),
    {
        proof {
            reveal_strlit("events");
            reveal_strlit("/byte");
            reveal_strlit("/element");
            reveal_strlit("events/byte");
            reveal_strlit("events/element");
        }
        let r = match *throughput {
            Throughput::Bytes(_) => "events/byte",
            Throughput::Elements(_) => "events/element",
        };
        assert(r@ =~= "events"@ + per_unit_suffix(*throughput));
        assert(r@.subrange(r@.len() - per_unit_suffix(*throughput).len(), r@.len() as int)
            =~= per_unit_suffix(*throughput));
        r
    }

    /// The unit label of counts rescaled for machine-readable output.
    pub fn machine_label(&self) -> (r: &'static str)
        ensures
            r@ == "events"@,
    {
        "events"
    }
}

} // verus!

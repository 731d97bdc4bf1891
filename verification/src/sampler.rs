//! Per-tick decision logic of the sampler loop.

use vstd::prelude::*;

use crate::metrics::Gauge;
use crate::metrics::Registry;
use crate::metrics::valid_value;

verus! {

/// What the process inspector reported on one tick.
pub enum InspectorReport {
    /// The target process was found; its CPU usage, as decimal text.
    Cpu(String),
    /// The target process no longer exists.
    NotFound,
}

/// What one tick decided.
#[derive(PartialEq, Eq, Structural, Debug)]
pub enum TickOutcome {
    /// The sample was published into the gauge; keep looping.
    Published,
    /// The target process vanished: the program must terminate.
    Fatal,
}

/// The gauges after one tick: a found process overwrites the value of the
/// gauge at `i` with the reported sample; a vanished process changes nothing.
pub open spec fn tick_gauges(gs: Seq<Gauge>, i: int, report: InspectorReport) -> Seq<Gauge> {
    match report {
        InspectorReport::Cpu(v) => gs.update(
            i,
            (Gauge { name: gs[i].name, help: gs[i].help, value: v }),
        ),
        InspectorReport::NotFound => gs,
    }
}

/// The outcome of one tick: fatal exactly when the process vanished.
pub open spec fn tick_outcome(report: InspectorReport) -> TickOutcome {
    match report {
        InspectorReport::Cpu(_) => TickOutcome::Published,
        InspectorReport::NotFound => TickOutcome::Fatal,
    }
}

/// One tick of the sampler loop, given what the process inspector reported:
/// publishes the sample into the gauge at `gauge`, or decides that the
/// program must die because its one target is gone.
pub fn tick(registry: &mut Registry, gauge: usize, report: InspectorReport) -> (o: TickOutcome)
    requires
        old(registry).wf(),
        gauge < old(registry).gauges@.len(),
        report matches InspectorReport::Cpu(v) ==> valid_value(v@),
    ensures
        final(registry).wf(),
        final(registry).gauges@ == tick_gauges(old(registry).gauges@, gauge as int, report),
        o == tick_outcome(report),
        o is Fatal <==> report is NotFound,
        o is Fatal ==> *final(registry) == *old(registry),
{
    match report {
        InspectorReport::Cpu(v) => {
            registry.set_value(gauge, v);
            TickOutcome::Published
        },
        InspectorReport::NotFound => TickOutcome::Fatal,
    }
}

} // verus!

//! The one shared datum of the system: the registry holding the CPU gauge,
//! guarded by a reader/writer lock for its single writer (the sampler loop)
//! and arbitrarily many concurrent readers (the request handlers).
//!
//! The lock's invariant pins what every reader may rely on: the registry is
//! well formed and holds exactly the one CPU gauge, under its fixed name and
//! help text. Readers therefore always observe one consistent registry
//! state, never a torn one.

use vstd::prelude::*;
use vstd::rwlock::RwLock;
use vstd::rwlock::RwLockPredicate;

use crate::metrics::Registry;
use crate::metrics::cpu_gauge;
use crate::metrics::rendered_all;
use crate::metrics::valid_value;
use crate::sampler::InspectorReport;
use crate::sampler::TickOutcome;
use crate::sampler::tick;

verus! {

/// What every registry state stored in the shared cell satisfies: well
/// formed, with exactly the CPU gauge registered.
pub struct CpuRegistryPred {}

impl RwLockPredicate<Registry> for CpuRegistryPred {
    open spec fn inv(self, r: Registry) -> bool {
        &&& r.wf()
        &&& r.gauges@.len() == 1
        &&& r.gauges@[0].name@ == "GRANDINE_TOTAL_CPU_PERCENTAGE"@
        &&& r.gauges@[0].help@ == "Grandine CPU load usage measured in percentage"@
    }
}

/// The registry shared between the sampler and the endpoint handlers.
pub struct SharedRegistry {
    lock: RwLock<Registry, CpuRegistryPred>,
}

impl SharedRegistry {
    /// The states the shared cell can hold; `new` says what they satisfy.
    pub closed spec fn holds(self, r: Registry) -> bool {
        self.lock.inv(r)
    }

    /// Builds the registry, registers the CPU gauge into it, and wraps the
    /// whole in the shared cell, before either component runs.
    pub fn new() -> (s: SharedRegistry)
        ensures
            forall|r: Registry| s.holds(r) <==> (CpuRegistryPred {}).inv(r),
    {
        let mut registry = Registry::new();
        match registry.register(cpu_gauge()) {
            Ok(_) => {},
            Err(_) => {
                proof {
                    assert(false);
                }
            },
        }
        let lock = RwLock::new(registry, Ghost(CpuRegistryPred {}));
        SharedRegistry { lock }
    }

    /// The sampler's half of one tick: takes the write side of the lock and
    /// publishes what the process inspector reported — the sample overwrites
    /// the gauge, a vanished target is fatal and publishes nothing.
    pub fn publish(&self, report: InspectorReport) -> (o: TickOutcome)
        requires
            report matches InspectorReport::Cpu(v) ==> valid_value(v@),
        ensures
            o is Fatal <==> report is NotFound,
    {
        let (mut registry, handle) = self.lock.acquire_write();
        let o = tick(&mut registry, 0, report);
        handle.release_write(registry);
        o
    }

    /// One endpoint request: takes the read side of the lock and renders the
    /// current registry state. The body is the rendering of one consistent
    /// registry state that the cell held — never a mixture of two.
    pub fn render(&self) -> (body: String)
        ensures
            exists|r: Registry| #[trigger] self.holds(r) && body@ == rendered_all(r.gauges@),
    {
        let handle = self.lock.acquire_read();
        let registry = handle.borrow();
        let body = registry.render_all();
        proof {
            assert(self.holds(handle.view()) && body@ == rendered_all(handle.view().gauges@));
        }
        handle.release_read();
        body
    }
}

} // verus!

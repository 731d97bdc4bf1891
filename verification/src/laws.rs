//! The library-wide laws: what the sampler/endpoint pair guarantees about
//! every state, stated over the same spec functions that the executable
//! functions' contracts use.

use vstd::prelude::*;

use crate::metrics::Gauge;
use crate::metrics::Registry;
use crate::metrics::line_text;
use crate::metrics::rendered_all;
use crate::metrics::rendered_prefix;
use crate::sampler::InspectorReport;
use crate::sampler::TickOutcome;
use crate::sampler::tick_gauges;
use crate::sampler::tick_outcome;

verus! {

/// `p` is a prefix of `s`.
pub open spec fn starts_with(s: Seq<char>, p: Seq<char>) -> bool {
    p.len() <= s.len() && s.take(p.len() as int) == p
}

/// Law: a registry holding a single gauge renders to exactly that gauge's
/// three-line block.
pub proof fn lemma_render_single(g: Gauge)
    ensures
        rendered_all(seq![g]) == g.rendered(),
{
    assert(rendered_prefix(seq![g], 0) == Seq::<char>::empty());
    assert(rendered_all(seq![g]) == rendered_prefix(seq![g], 0) + g.rendered());
    assert(Seq::<char>::empty() + g.rendered() =~= g.rendered());
}

/// Law (gauge monotonic freshness): after a tick on which the inspector
/// reported sample `v`, the gauge holds exactly `v` and its series line
/// reads `<name> <v>`; the value stands until the next tick, whose sample
/// `w` overwrites it.
pub proof fn lemma_gauge_freshness(gs: Seq<Gauge>, i: int, v: String, w: String)
    requires
        0 <= i < gs.len(),
    ensures
        ({
            let after = tick_gauges(gs, i, InspectorReport::Cpu(v));
            &&& after[i].value == v
            &&& after[i].value_line() == gs[i].name@ + " "@ + v@
            &&& after.len() == gs.len()
            &&& tick_gauges(after, i, InspectorReport::Cpu(w))[i].value == w
            &&& gs.len() == 1 ==> rendered_all(after) == after[0].rendered()
        }),
{
    let after = tick_gauges(gs, i, InspectorReport::Cpu(v));
    if gs.len() == 1 {
        assert(after =~= seq![after[0]]);
        lemma_render_single(after[0]);
    }
}

/// Law (idempotence between ticks): rendering reads the registry and nothing
/// else, so two registries in the same state render to byte-identical bodies;
/// with no sampler tick between two requests, the responses are identical.
pub proof fn lemma_render_idempotent(a: Registry, b: Registry)
    requires
        a.gauges@ == b.gauges@,
    ensures
        rendered_all(a.gauges@) == rendered_all(b.gauges@),
{
}

/// Law (format stability): whatever text the gauge's value holds, the
/// rendered body of a well-formed gauge is exactly three newline-terminated
/// lines; the first and only `# HELP` line, the first and only `# TYPE`
/// line, and the one series line carrying the gauge's name, in that order.
pub proof fn lemma_format_stability(g: Gauge)
    requires
        g.wf(),
    ensures
        g.rendered() == g.help_line() + "\n"@ + g.type_line() + "\n"@ + g.value_line() + "\n"@,
        line_text(g.help_line()),
        line_text(g.type_line()),
        line_text(g.value_line()),
        starts_with(g.help_line(), "# HELP "@),
        !starts_with(g.type_line(), "# HELP "@),
        !starts_with(g.value_line(), "# HELP "@),
        starts_with(g.type_line(), "# TYPE "@),
        !starts_with(g.help_line(), "# TYPE "@),
        !starts_with(g.value_line(), "# TYPE "@),
        starts_with(g.value_line(), g.name@ + " "@),
        g.help_line()[0] == '#',
        g.type_line()[0] == '#',
        g.value_line()[0] != '#',
{
    reveal_strlit("# HELP ");
    reveal_strlit("# TYPE ");
    reveal_strlit(" gauge");
    reveal_strlit(" ");
    reveal_strlit("\n");
    assert(g.help_line().take(7) =~= "# HELP "@);
    assert(g.type_line().take(7) =~= "# TYPE "@);
    assert(!starts_with(g.type_line(), "# HELP "@)) by {
        if starts_with(g.type_line(), "# HELP "@) {
            assert(g.type_line().take(7)[2] == ("# HELP "@)[2]);
        }
    }
    assert(!starts_with(g.help_line(), "# TYPE "@)) by {
        if starts_with(g.help_line(), "# TYPE "@) {
            assert(g.help_line().take(7)[2] == ("# TYPE "@)[2]);
        }
    }
    assert(g.value_line()[0] == g.name@[0]);
    assert(!starts_with(g.value_line(), "# HELP "@)) by {
        if starts_with(g.value_line(), "# HELP "@) {
            assert(g.value_line().take(7)[0] == ("# HELP "@)[0]);
        }
    }
    assert(!starts_with(g.value_line(), "# TYPE "@)) by {
        if starts_with(g.value_line(), "# TYPE "@) {
            assert(g.value_line().take(7)[0] == ("# TYPE "@)[0]);
        }
    }
    let name_sp = g.name@ + " "@;
    assert(g.value_line().take(name_sp.len() as int) =~= name_sp);
    assert(g.help_line()[0] == '#');
    assert(g.type_line()[0] == '#');
}

/// The gauges after a whole run of sampler ticks, applied in order.
pub open spec fn run_ticks(gs: Seq<Gauge>, i: int, reports: Seq<InspectorReport>) -> Seq<Gauge>
    decreases reports.len(),
{
    if reports.len() == 0 {
        gs
    } else {
        tick_gauges(run_ticks(gs, i, reports.drop_last()), i, reports.last())
    }
}

/// Some tick of the run carried exactly the sample `v`.
pub open spec fn wrote(reports: Seq<InspectorReport>, v: String) -> bool {
    exists|k: int| 0 <= k < reports.len() && reports[k] == InspectorReport::Cpu(v)
}

/// Law (read/write atomicity, state half): whatever a run of ticks did, the
/// gauge holds its initial value or exactly one of the samples some tick
/// published — never a value mixed from several writes. The endpoint renders
/// that held value, so every response shows a value the sampler wrote.
pub proof fn lemma_no_torn_values(gs: Seq<Gauge>, i: int, reports: Seq<InspectorReport>)
    requires
        0 <= i < gs.len(),
    ensures
        run_ticks(gs, i, reports).len() == gs.len(),
        run_ticks(gs, i, reports)[i].value == gs[i].value || wrote(
            reports,
            run_ticks(gs, i, reports)[i].value,
        ),
    decreases reports.len(),
{
    if reports.len() > 0 {
        lemma_no_torn_values(gs, i, reports.drop_last());
        let prev = run_ticks(gs, i, reports.drop_last());
        let after = run_ticks(gs, i, reports);
        match reports.last() {
            InspectorReport::Cpu(v) => {
                assert(after[i].value == v);
                assert(reports[reports.len() - 1] == InspectorReport::Cpu(v));
            },
            InspectorReport::NotFound => {
                assert(after == prev);
                if wrote(reports.drop_last(), prev[i].value) {
                    let k = choose|k: int|
                        0 <= k < reports.drop_last().len() && reports.drop_last()[k]
                            == InspectorReport::Cpu(prev[i].value);
                    assert(reports[k] == InspectorReport::Cpu(prev[i].value));
                }
            },
        }
    }
}

/// Law (fatal on disappearance): a tick on which the inspector no longer
/// finds the target process publishes nothing and is fatal — the program
/// terminates instead of serving the previous value — while a tick that
/// carries a sample is never fatal.
pub proof fn lemma_fatal_on_disappearance(gs: Seq<Gauge>, i: int)
    ensures
        tick_outcome(InspectorReport::NotFound) == TickOutcome::Fatal,
        tick_gauges(gs, i, InspectorReport::NotFound) == gs,
        forall|v: String|
            #[trigger] tick_outcome(InspectorReport::Cpu(v)) == TickOutcome::Published,
{
}

} // verus!

//! Laws of the collection cycle, proved once over the spec-level model
//! that the executable cycle (`ProgramState::fetch`) is specified
//! against: `caps_after_probe` and `gathered_table`.

use vstd::prelude::*;

use crate::aggregator::cap_gate;
use crate::aggregator::caps_after_probe;
use crate::aggregator::gathered_table;
use crate::aggregator::MachineStatus;
use crate::system_info::Capabilities;
use crate::system_info::SystemInfo;

verus! {

/// The answers one cycle consumes: one probe answer and one snapshot
/// answer per roster index (`None` where a request failed or was never
/// sent).
pub type CycleInput = (Seq<Option<Capabilities>>, Seq<Option<SystemInfo>>);

/// Every cycle's answers cover a roster of `n` agents.
pub open spec fn cycle_inputs_wf(n: nat, inputs: Seq<CycleInput>) -> bool {
    forall|k: int|
        0 <= k < inputs.len() ==> (#[trigger] inputs[k]).0.len() == n && inputs[k].1.len() == n
}

/// The table one cycle publishes, starting from capabilities `caps` and
/// published table `table`: the gatherer is gated by the capabilities as
/// the prober of the same cycle left them.
pub open spec fn cycle_table(
    caps: Seq<Option<Capabilities>>,
    table: Seq<MachineStatus>,
    probe_res: Seq<Option<Capabilities>>,
    sys_res: Seq<Option<SystemInfo>>,
) -> Seq<MachineStatus> {
    gathered_table(caps_after_probe(caps, table, probe_res), sys_res)
}

/// The state — capabilities, then published table — after running one
/// cycle per element of `inputs`, in order.
pub open spec fn run_cycles(
    caps: Seq<Option<Capabilities>>,
    table: Seq<MachineStatus>,
    inputs: Seq<CycleInput>,
) -> (Seq<Option<Capabilities>>, Seq<MachineStatus>)
    decreases inputs.len(),
{
    if inputs.len() == 0 {
        (caps, table)
    } else {
        let caps1 = caps_after_probe(caps, table, inputs[0].0);
        let table1 = gathered_table(caps1, inputs[0].1);
        run_cycles(caps1, table1, inputs.skip(1))
    }
}

/// The table any single cycle publishes covers the roster, index for
/// index: it has exactly one entry per roster agent, and entry `i` is
/// determined by agent `i`'s capability state and snapshot answer
/// alone.
pub proof fn lemma_table_covers_roster(
    caps: Seq<Option<Capabilities>>,
    table: Seq<MachineStatus>,
    probe_res: Seq<Option<Capabilities>>,
    sys_res: Seq<Option<SystemInfo>>,
)
    requires
        table.len() == caps.len(),
        probe_res.len() == caps.len(),
        sys_res.len() == caps.len(),
    ensures
        cycle_table(caps, table, probe_res, sys_res).len() == caps.len(),
        forall|i: int|
            0 <= i < caps.len() ==> cycle_table(caps, table, probe_res, sys_res)[i]
                == crate::aggregator::gathered_entry(
                caps_after_probe(caps, table, probe_res)[i],
                sys_res[i],
            ),
{
}

/// Capability permanence: a capability once learned is never cleared.
/// Whatever a cycle's probe answers are, an agent that had a known
/// capability still has one afterwards — a failed probe leaves it
/// untouched, and only a fresh successfully probed descriptor can
/// replace it. An agent that later breaks is marked unreachable at the
/// status level, never decapability-revoked.
pub proof fn lemma_capability_never_cleared(
    caps: Seq<Option<Capabilities>>,
    table: Seq<MachineStatus>,
    probe_res: Seq<Option<Capabilities>>,
    i: int,
)
    requires
        table.len() == caps.len(),
        probe_res.len() == caps.len(),
        0 <= i < caps.len(),
        caps[i] is Some,
    ensures
        caps_after_probe(caps, table, probe_res)[i] is Some,
        caps_after_probe(caps, table, probe_res)[i] == caps[i]
            || caps_after_probe(caps, table, probe_res)[i] == probe_res[i],
{
}

/// Capability gating: an agent whose capability probe has never
/// succeeded — nothing was known before the cycle, and this cycle's
/// probe gave no answer either — is published `Unreachable`, whatever
/// its snapshot endpoint returned.
pub proof fn lemma_capability_gating(
    caps: Seq<Option<Capabilities>>,
    table: Seq<MachineStatus>,
    probe_res: Seq<Option<Capabilities>>,
    sys_res: Seq<Option<SystemInfo>>,
    i: int,
)
    requires
        table.len() == caps.len(),
        probe_res.len() == caps.len(),
        sys_res.len() == caps.len(),
        0 <= i < caps.len(),
        caps[i] is None,
        probe_res[i] is None,
    ensures
        cycle_table(caps, table, probe_res, sys_res)[i] is Unreachable,
{
}

/// Fault isolation: the entry published for agent `i` depends only on
/// agent `i`'s own probe and snapshot answers, so another agent's
/// transport failure — any change to the other answers — cannot affect
/// it.
pub proof fn lemma_fault_isolation(
    caps: Seq<Option<Capabilities>>,
    table: Seq<MachineStatus>,
    probe_a: Seq<Option<Capabilities>>,
    sys_a: Seq<Option<SystemInfo>>,
    probe_b: Seq<Option<Capabilities>>,
    sys_b: Seq<Option<SystemInfo>>,
    i: int,
)
    requires
        table.len() == caps.len(),
        probe_a.len() == caps.len(),
        sys_a.len() == caps.len(),
        probe_b.len() == caps.len(),
        sys_b.len() == caps.len(),
        0 <= i < caps.len(),
        probe_a[i] == probe_b[i],
        sys_a[i] == sys_b[i],
    ensures
        cycle_table(caps, table, probe_a, sys_a)[i] == cycle_table(caps, table, probe_b, sys_b)[i],
{
}

/// No metrics support means unreachable forever: an agent whose known
/// capability does not license metrics stays `Unreachable` over any
/// number of cycles — even if its snapshot endpoint would answer every
/// one of them — as long as every probe answer it gives keeps denying
/// metrics support (a capability is a property of the agent's build).
pub proof fn lemma_no_metrics_stays_unreachable(
    caps: Seq<Option<Capabilities>>,
    table: Seq<MachineStatus>,
    inputs: Seq<CycleInput>,
    i: int,
)
    requires
        table.len() == caps.len(),
        cycle_inputs_wf(caps.len() as nat, inputs),
        0 <= i < caps.len(),
        inputs.len() > 0,
        !cap_gate(caps[i]),
        forall|k: int| 0 <= k < inputs.len() ==> !cap_gate((#[trigger] inputs[k]).0[i]),
    ensures
        !cap_gate(run_cycles(caps, table, inputs).0[i]),
        run_cycles(caps, table, inputs).1[i] is Unreachable,
    decreases inputs.len(),
{
    let caps1 = caps_after_probe(caps, table, inputs[0].0);
    let table1 = gathered_table(caps1, inputs[0].1);
    assert(!cap_gate(caps1[i]));
    assert(table1[i] is Unreachable);
    assert(run_cycles(caps, table, inputs) == run_cycles(caps1, table1, inputs.skip(1)));
    if inputs.len() > 1 {
        assert forall|k: int| 0 <= k < inputs.skip(1).len() implies !cap_gate(
            (#[trigger] inputs.skip(1)[k]).0[i],
        ) by {
            assert(inputs.skip(1)[k] == inputs[k + 1]);
        }
        lemma_no_metrics_stays_unreachable(caps1, table1, inputs.skip(1), i);
    } else {
        assert(inputs.skip(1).len() == 0);
        assert(run_cycles(caps1, table1, inputs.skip(1)) == (caps1, table1));
    }
}

/// Every state the cycle itself produces satisfies the premise of
/// `lemma_cycle_idempotent`: a cycle publishes `Success` for an agent
/// only where the capabilities it leaves behind license metrics.
pub proof fn lemma_cycle_success_implies_gate(
    caps: Seq<Option<Capabilities>>,
    table: Seq<MachineStatus>,
    probe_res: Seq<Option<Capabilities>>,
    sys_res: Seq<Option<SystemInfo>>,
    i: int,
)
    requires
        table.len() == caps.len(),
        probe_res.len() == caps.len(),
        sys_res.len() == caps.len(),
        0 <= i < caps.len(),
        cycle_table(caps, table, probe_res, sys_res)[i] is Success,
    ensures
        cap_gate(caps_after_probe(caps, table, probe_res)[i]),
{
}

/// Idempotence: against agents whose real state has not changed —
/// so the same answers come back, a probe repeats what is already known
/// wherever something is known, and the starting state is one the
/// system itself produced (`Success` only with a known metrics
/// capability, see `lemma_cycle_success_implies_gate`) — running a cycle
/// twice leaves exactly the capabilities and the published table that
/// running it once leaves.
pub proof fn lemma_cycle_idempotent(
    caps: Seq<Option<Capabilities>>,
    table: Seq<MachineStatus>,
    input: CycleInput,
)
    requires
        table.len() == caps.len(),
        input.0.len() == caps.len(),
        input.1.len() == caps.len(),
        forall|i: int| 0 <= i < caps.len() && table[i] is Success ==> cap_gate(#[trigger] caps[i]),
        forall|i: int|
            0 <= i < caps.len() && caps[i] is Some && input.0[i] is Some
                ==> input.0[i] == #[trigger] caps[i],
    ensures
        run_cycles(caps, table, seq![input, input]) == run_cycles(caps, table, seq![input]),
{
    let probe_res = input.0;
    let sys_res = input.1;
    let caps1 = caps_after_probe(caps, table, probe_res);
    let table1 = gathered_table(caps1, sys_res);
    let caps2 = caps_after_probe(caps1, table1, probe_res);
    let table2 = gathered_table(caps2, sys_res);

    assert forall|i: int| 0 <= i < caps.len() implies caps2[i] == caps1[i] by {
        if table1[i] is Unreachable && probe_res[i] is Some {
            if table[i] is Unreachable {
                assert(caps1[i] == probe_res[i]);
            } else {
                assert(cap_gate(caps[i]));
                assert(probe_res[i] == caps[i]);
                assert(caps1[i] == caps[i]);
            }
        }
    }
    assert(caps2 =~= caps1);
    assert(table2 == table1);

    assert(seq![input, input].skip(1) =~= seq![input]);
    assert(seq![input].skip(1) =~= Seq::<CycleInput>::empty());
    assert(run_cycles(caps, table, seq![input, input]) == run_cycles(caps1, table1, seq![input]));
    assert(run_cycles(caps1, table1, seq![input]) == run_cycles(caps2, table2, Seq::<
        CycleInput,
    >::empty()));
    assert(run_cycles(caps, table, seq![input]) == run_cycles(caps1, table1, Seq::<
        CycleInput,
    >::empty()));
}

} // verus!


//! The aggregator's collection cycle: capability prober, data gatherer
//! and state publisher, plus the read-side projection of the published
//! table.
//!
//! The transport that actually carries the HTTP requests stays outside
//! this crate. It hands each phase one answer per roster index — `None`
//! for a request that failed, was malformed, or was never sent — and the
//! functions here decide everything else: which agents are probed, how a
//! learned capability is recorded, which agents are gathered, and what
//! the published table holds.

use vstd::prelude::*;

use crate::machine::Machine;
use crate::system_info::Capabilities;
use crate::system_info::SystemInfo;

verus! {

/// The payload published for a reachable agent.
#[derive(Debug, PartialEq)]
pub struct MachineData {
    pub system_info: SystemInfo,
}

impl Clone for MachineData {
    fn clone(&self) -> (r: Self)
        ensures
            r == *self,
    {
        MachineData { system_info: self.system_info.clone() }
    }
}

/// One entry of the published status table: either no usable snapshot is
/// held, or the most recent successfully fetched one.
#[derive(Debug, PartialEq)]
pub enum MachineStatus {
    Unreachable,
    Success(MachineData),
}

impl Clone for MachineStatus {
    fn clone(&self) -> (r: Self)
        ensures
            r == *self,
    {
        match self {
            MachineStatus::Unreachable => MachineStatus::Unreachable,
            MachineStatus::Success(d) => MachineStatus::Success(d.clone()),
        }
    }
}

/// Whether a capability state licenses fetching system snapshots: the
/// agent must have been probed successfully at least once, and its
/// descriptor must claim system-metrics support.
pub open spec fn cap_gate(cap: Option<Capabilities>) -> bool {
    match cap {
        Some(c) => c.has_system_info,
        None => false,
    }
}

/// The capabilities known per roster index.
pub open spec fn caps_of(machines: Seq<Machine>) -> Seq<Option<Capabilities>> {
    Seq::new(machines.len(), |i: int| machines[i].cap)
}

/// Capability state after the prober records one cycle's responses: an
/// agent currently published as unreachable whose probe answered has the
/// returned descriptor recorded; every other agent — including one whose
/// probe failed — keeps exactly what was known before. A capability,
/// once learned, is never cleared.
pub open spec fn caps_after_probe(
    caps: Seq<Option<Capabilities>>,
    table: Seq<MachineStatus>,
    probe_res: Seq<Option<Capabilities>>,
) -> Seq<Option<Capabilities>> {
    Seq::new(
        caps.len(),
        |i: int|
            if table[i] is Unreachable && probe_res[i] is Some {
                probe_res[i]
            } else {
                caps[i]
            },
    )
}

/// What one gather pass publishes for a single agent: `Success` exactly
/// when its known capability licenses metrics and its snapshot request
/// answered; `Unreachable` in every other case, whatever the snapshot
/// endpoint would have returned.
pub open spec fn gathered_entry(cap: Option<Capabilities>, res: Option<SystemInfo>) -> MachineStatus {
    if cap_gate(cap) && res is Some {
        MachineStatus::Success(MachineData { system_info: res->0 })
    } else {
        MachineStatus::Unreachable
    }
}

/// The brand-new status table one gather pass builds, index for index
/// over the roster. Entry `i` depends only on agent `i`'s capability and
/// response, so one agent's failure cannot affect another's entry.
pub open spec fn gathered_table(
    caps: Seq<Option<Capabilities>>,
    sys_res: Seq<Option<SystemInfo>>,
) -> Seq<MachineStatus> {
    Seq::new(caps.len(), |i: int| gathered_entry(caps[i], sys_res[i]))
}

/// The static roster data — names, addresses, ports, and the roster's
/// length — is identical in `pre` and `post`; only learned capabilities
/// and the published table may differ.
pub open spec fn roster_unchanged(pre: ProgramState, post: ProgramState) -> bool {
    &&& post.num_machines == pre.num_machines
    &&& post.machines@.len() == pre.machines@.len()
    &&& forall|i: int|
        0 <= i < pre.machines@.len() ==> {
            &&& (#[trigger] post.machines@[i]).name == pre.machines@[i].name
            &&& post.machines@[i].ip == pre.machines@[i].ip
            &&& post.machines@[i].api_port == pre.machines@[i].api_port
        }
}

/// The aggregator's whole mutable state: the roster (with the
/// capabilities learned so far) and the currently published status
/// table.
pub struct ProgramState {
    pub num_machines: usize,
    pub machines: Vec<Machine>,
    pub machine_states: Vec<MachineStatus>,
}

impl ProgramState {
    /// The published table always covers the roster, index for index.
    pub open spec fn wf(&self) -> bool {
        &&& self.num_machines == self.machines@.len()
        &&& self.machine_states@.len() == self.machines@.len()
    }

    /// The capabilities currently known, per roster index.
    pub open spec fn caps(&self) -> Seq<Option<Capabilities>> {
        caps_of(self.machines@)
    }

    /// Fresh aggregator state over a fixed roster: nothing is published
    /// yet, so every agent starts out unreachable.
    pub fn new(machines: Vec<Machine>) -> (s: ProgramState)
        ensures
            s.wf(),
            s.machines == machines,
            s.machine_states@.len() == machines@.len(),
            forall|i: int| 0 <= i < machines@.len() ==> s.machine_states@[i] is Unreachable,
    {
        let n = machines.len();
        let mut states: Vec<MachineStatus> = Vec::new();
        let mut i: usize = 0;
        while i < n
            invariant
                i <= n,
                states@.len() == i,
                forall|j: int| 0 <= j < i ==> states@[j] is Unreachable,
            decreases n - i,
        {
            states.push(MachineStatus::Unreachable);
            i += 1;
        }
        ProgramState { num_machines: n, machines, machine_states: states }
    }

    /// The capability prober's candidate selection: exactly the indices
    /// whose published status is currently `Unreachable`, in increasing
    /// order. These are the agents the transport should send a
    /// capability request to this cycle.
    pub fn probe_candidates(&self) -> (r: Vec<usize>)
        requires
            self.wf(),
        ensures
            forall|k: int|
                0 <= k < r@.len() ==> r@[k] < self.machines@.len()
                    && self.machine_states@[#[trigger] r@[k] as int] is Unreachable,
            forall|i: int|
                0 <= i < self.machines@.len() && self.machine_states@[i] is Unreachable
                    ==> r@.contains(i as usize),
            forall|k1: int, k2: int| 0 <= k1 < k2 < r@.len() ==> r@[k1] < r@[k2],
    {
        let mut r: Vec<usize> = Vec::new();
        let n = self.machines.len();
        let mut i: usize = 0;
        while i < n
            invariant
                self.wf(),
                i <= n,
                n == self.machines@.len(),
                forall|k: int|
                    0 <= k < r@.len() ==> r@[k] < i
                        && self.machine_states@[#[trigger] r@[k] as int] is Unreachable,
                forall|j: int|
                    0 <= j < i && self.machine_states@[j] is Unreachable
                        ==> r@.contains(j as usize),
                forall|k1: int, k2: int| 0 <= k1 < k2 < r@.len() ==> r@[k1] < r@[k2],
            decreases n - i,
        {
            match &self.machine_states[i] {
                MachineStatus::Unreachable => {
                    let ghost before = r@;
                    r.push(i);
                    proof {
                        assert forall|j: int|
                            0 <= j < i + 1 && self.machine_states@[j] is Unreachable
                            implies r@.contains(j as usize) by {
                            if j < i {
                                assert(before.contains(j as usize));
                                let k = choose|k: int| 0 <= k < before.len() && before[k] == j as usize;
                                assert(r@[k] == j as usize);
                            } else {
                                assert(r@[r@.len() - 1] == i as usize);
                            }
                        }
                    }
                },
                MachineStatus::Success(_) => {},
            }
            i += 1;
        }
        r
    }

    /// The data gatherer's candidate selection: exactly the indices
    /// whose known capability set licenses a snapshot request — probed
    /// successfully at least once, with metrics support claimed — in
    /// increasing order. These are the agents the transport should send
    /// a snapshot request to this cycle.
    pub fn gather_candidates(&self) -> (r: Vec<usize>)
        requires
            self.wf(),
        ensures
            forall|k: int|
                0 <= k < r@.len() ==> r@[k] < self.machines@.len()
                    && cap_gate(self.caps()[#[trigger] r@[k] as int]),
            forall|i: int|
                0 <= i < self.machines@.len() && cap_gate(self.caps()[i])
                    ==> r@.contains(i as usize),
            forall|k1: int, k2: int| 0 <= k1 < k2 < r@.len() ==> r@[k1] < r@[k2],
    {
        let mut r: Vec<usize> = Vec::new();
        let n = self.machines.len();
        let mut i: usize = 0;
        while i < n
            invariant
                self.wf(),
                i <= n,
                n == self.machines@.len(),
                forall|k: int|
                    0 <= k < r@.len() ==> r@[k] < i
                        && cap_gate(self.caps()[#[trigger] r@[k] as int]),
                forall|j: int|
                    0 <= j < i && cap_gate(self.caps()[j]) ==> r@.contains(j as usize),
                forall|k1: int, k2: int| 0 <= k1 < k2 < r@.len() ==> r@[k1] < r@[k2],
            decreases n - i,
        {
            let gated = match self.machines[i].cap {
                Some(c) => c.has_system_info,
                None => false,
            };
            if gated {
                let ghost before = r@;
                r.push(i);
                proof {
                    assert forall|j: int| 0 <= j < i + 1 && cap_gate(self.caps()[j])
                        implies r@.contains(j as usize) by {
                        if j < i {
                            assert(before.contains(j as usize));
                            let k = choose|k: int| 0 <= k < before.len() && before[k] == j as usize;
                            assert(r@[k] == j as usize);
                        } else {
                            assert(r@[r@.len() - 1] == i as usize);
                        }
                    }
                }
            }
            i += 1;
        }
        r
    }

    /// The capability prober's bookkeeping: records one cycle's probe
    /// responses against the roster. `probe_res[i]` is agent `i`'s
    /// answer; entries for agents that are not candidates (not currently
    /// unreachable) are ignored, and a missing answer leaves whatever
    /// capability was known before in place. The published table is not
    /// touched here — reachability is decided by the gatherer alone.
    pub fn check_machine(&mut self, probe_res: &Vec<Option<Capabilities>>)
        requires
            old(self).wf(),
            probe_res@.len() == old(self).machines@.len(),
        ensures
            final(self).wf(),
            roster_unchanged(*old(self), *final(self)),
            final(self).machine_states == old(self).machine_states,
            final(self).caps() == caps_after_probe(
                old(self).caps(),
                old(self).machine_states@,
                probe_res@,
            ),
    {
        let n = self.machines.len();
        let mut i: usize = 0;
        while i < n
            invariant
                self.wf(),
                i <= n,
                n == self.machines@.len(),
                probe_res@.len() == n,
                self.machine_states == old(self).machine_states,
                self.num_machines == old(self).num_machines,
                self.machines@.len() == old(self).machines@.len(),
                forall|j: int| i <= j < n ==> self.machines@[j] == old(self).machines@[j],
                forall|j: int|
                    0 <= j < i ==> {
                        &&& (#[trigger] self.machines@[j]).name == old(self).machines@[j].name
                        &&& self.machines@[j].ip == old(self).machines@[j].ip
                        &&& self.machines@[j].api_port == old(self).machines@[j].api_port
                        &&& self.machines@[j].cap == caps_after_probe(
                            old(self).caps(),
                            old(self).machine_states@,
                            probe_res@,
                        )[j]
                    },
            decreases n - i,
        {
            match &self.machine_states[i] {
                MachineStatus::Unreachable => {
                    if let Some(c) = probe_res[i] {
                        self.machines[i].cap = Some(c);
                    }
                },
                MachineStatus::Success(_) => {},
            }
            i += 1;
        }
        proof {
            assert(self.caps() =~= caps_after_probe(
                old(self).caps(),
                old(self).machine_states@,
                probe_res@,
            ));
        }
    }

    /// The data gatherer: builds one cycle's brand-new status table from
    /// the snapshot responses, one answer per roster index. Every entry
    /// defaults to `Unreachable`; only an agent whose known capability
    /// set claims metrics support and whose snapshot request answered
    /// becomes `Success`. The published table is not read or written —
    /// the publisher swaps the result in afterwards.
    pub fn gather_machine_info(&self, sys_res: Vec<Option<SystemInfo>>) -> (states: Vec<
        MachineStatus,
    >)
        requires
            self.wf(),
            sys_res@.len() == self.machines@.len(),
        ensures
            states@ == gathered_table(self.caps(), sys_res@),
    {
        let ghost orig = sys_res@;
        let mut sys_res = sys_res;
        let mut states: Vec<MachineStatus> = Vec::new();
        let n = self.machines.len();
        let mut i: usize = 0;
        while i < n
            invariant
                self.wf(),
                i <= n,
                n == self.machines@.len(),
                orig.len() == n,
                states@.len() == i,
                sys_res@ == orig.skip(i as int),
                forall|j: int|
                    0 <= j < i ==> states@[j] == gathered_entry(self.caps()[j], orig[j]),
            decreases n - i,
        {
            let res = sys_res.remove(0);
            proof {
                assert(orig.skip(i as int)[0] == orig[i as int]);
                assert(orig.skip(i as int).remove(0) =~= orig.skip(i as int + 1));
            }
            let cap = self.machines[i].cap;
            let gated = match cap {
                Some(c) => c.has_system_info,
                None => false,
            };
            if gated {
                match res {
                    Some(si) => states.push(
                        MachineStatus::Success(MachineData { system_info: si }),
                    ),
                    None => states.push(MachineStatus::Unreachable),
                }
            } else {
                states.push(MachineStatus::Unreachable);
            }
            proof {
                assert(self.caps()[i as int] == self.machines@[i as int].cap);
            }
            i += 1;
        }
        proof {
            assert(states@ =~= gathered_table(self.caps(), orig));
        }
        states
    }

    /// The state publisher: replaces the published table in full with
    /// the one this cycle built. Nothing of the previous table survives,
    /// so a reader sees either the old table or the new one, never a
    /// mixture of two cycles. (The concurrent realization — many readers
    /// against one publisher — wraps this state in a read/write lock
    /// outside this crate; the swap itself is this single assignment.)
    pub fn update_state(&mut self, states: Vec<MachineStatus>)
        requires
            old(self).wf(),
            states@.len() == old(self).machines@.len(),
        ensures
            final(self).wf(),
            final(self).machines == old(self).machines,
            final(self).num_machines == old(self).num_machines,
            final(self).machine_states == states,
    {
        self.machine_states = states;
    }

    /// One full collection cycle: record the probe responses, build the
    /// new table from the snapshot responses, publish it. The published
    /// table afterwards covers the whole roster, index for index, and
    /// every entry is decided by that agent's capability and response
    /// alone. Capabilities only ever grow more precise: a failed probe
    /// changes nothing, and an agent that never answered a probe can
    /// never be published as `Success`, whatever its snapshot endpoint
    /// did.
    pub fn fetch(&mut self, probe_res: &Vec<Option<Capabilities>>, sys_res: Vec<Option<SystemInfo>>)
        requires
            old(self).wf(),
            probe_res@.len() == old(self).machines@.len(),
            sys_res@.len() == old(self).machines@.len(),
        ensures
            final(self).wf(),
            roster_unchanged(*old(self), *final(self)),
            final(self).caps() == caps_after_probe(
                old(self).caps(),
                old(self).machine_states@,
                probe_res@,
            ),
            final(self).machine_states@ == gathered_table(final(self).caps(), sys_res@),
    {
        self.check_machine(probe_res);
        let states = self.gather_machine_info(sys_res);
        self.update_state(states);
    }

    /// The API read path: a pure projection of the roster and the
    /// currently published table into one response row per agent, in
    /// roster order. It reads a single table — no mutation, no
    /// re-reading mid-response.
    pub fn api_response(&self) -> (r: Vec<Res>)
        requires
            self.wf(),
        ensures
            r@.len() == self.machines@.len(),
            forall|i: int|
                0 <= i < r@.len() ==> res_matches(r@[i], self.machines@[i], self.machine_states@[i]),
    {
        let mut r: Vec<Res> = Vec::new();
        let n = self.machines.len();
        let mut i: usize = 0;
        while i < n
            invariant
                self.wf(),
                i <= n,
                n == self.machines@.len(),
                r@.len() == i,
                forall|j: int|
                    0 <= j < i ==> res_matches(r@[j], self.machines@[j], self.machine_states@[j]),
            decreases n - i,
        {
            let name = self.machines[i].name.clone();
            match &self.machine_states[i] {
                MachineStatus::Unreachable => {
                    r.push(Res { name, status: "Unreachable".to_owned(), data: None });
                },
                MachineStatus::Success(d) => {
                    r.push(Res { name, status: "Success".to_owned(), data: Some(d.clone()) });
                },
            }
            i += 1;
        }
        r
    }
}

/// One row of the aggregator's API response: the agent's display name,
/// a status label, and the snapshot payload when one is held.
#[derive(Debug, PartialEq)]
pub struct Res {
    pub name: String,
    pub status: String,
    pub data: Option<MachineData>,
}

/// What the API reports for one agent: the roster entry's own name, and
/// label plus payload determined by the published status — the label
/// `"Success"` carries the held snapshot, the label `"Unreachable"`
/// carries no data.
pub open spec fn res_matches(r: Res, m: Machine, st: MachineStatus) -> bool {
    &&& r.name == m.name
    &&& match st {
        MachineStatus::Unreachable => r.status@ == "Unreachable"@ && r.data is None,
        MachineStatus::Success(d) => r.status@ == "Success"@ && r.data == Some(d),
    }
}

} // verus!

//! Collection-cycle behaviour: capability probing, gather gating,
//! wholesale publishing, fault isolation and idempotence.

use gabite::aggregator::MachineStatus;
use gabite::aggregator::ProgramState;
use gabite::machine::Machine;
use gabite::system_info::Capabilities;
use gabite::system_info::SystemInfo;

fn machine(name: &str, ip: &str, port: u16) -> Machine {
    Machine { name: name.to_string(), ip: ip.to_string(), api_port: port, cap: None }
}

fn snap(freq: u64) -> SystemInfo {
    SystemInfo {
        cpu_vendor_id: "GenuineIntel".to_string(),
        cpu_brand: "Intel(R) Core(TM)".to_string(),
        cpu_usage_bits: (12.5f32).to_bits(),
        cpu_freq: freq,
        total_memory: 16_000_000,
        free_memory: 8_000_000,
        available_memory: 9_000_000,
        used_memory: 8_000_000,
        total_swap: 4_000_000,
        free_swap: 4_000_000,
        used_swap: 0,
    }
}

fn metrics_cap() -> Capabilities {
    Capabilities { has_system_info: true, has_docker_info: false }
}

fn no_metrics_cap() -> Capabilities {
    Capabilities { has_system_info: false, has_docker_info: false }
}

#[test]
fn initial_state_all_unreachable() {
    let state = ProgramState::new(vec![machine("M1", "10.0.0.1", 80), machine("M2", "10.0.0.2", 80)]);
    assert_eq!(state.machine_states.len(), 2);
    assert!(matches!(state.machine_states[0], MachineStatus::Unreachable));
    assert!(matches!(state.machine_states[1], MachineStatus::Unreachable));
}

#[test]
fn empty_roster_cycles_to_an_empty_table() {
    let mut state = ProgramState::new(Vec::new());
    assert!(state.machine_states.is_empty());
    assert!(state.probe_candidates().is_empty());
    assert!(state.gather_candidates().is_empty());
    state.fetch(&Vec::new(), Vec::new());
    assert!(state.machine_states.is_empty());
    assert!(state.api_response().is_empty());
}

#[test]
fn table_always_covers_roster() {
    let mut state = ProgramState::new(vec![
        machine("M1", "10.0.0.1", 80),
        machine("M2", "10.0.0.2", 80),
        machine("M3", "10.0.0.3", 80),
    ]);
    for _ in 0..4 {
        state.fetch(
            &vec![Some(metrics_cap()), None, Some(no_metrics_cap())],
            vec![Some(snap(1)), Some(snap(2)), Some(snap(3))],
        );
        assert_eq!(state.machine_states.len(), state.machines.len());
    }
}

#[test]
fn probe_candidates_are_the_unreachable_agents() {
    let mut state = ProgramState::new(vec![machine("M1", "10.0.0.1", 80), machine("M2", "10.0.0.2", 80)]);
    assert_eq!(state.probe_candidates(), vec![0, 1]);

    // M1 answers and is gathered; M2 stays dark.
    state.fetch(&vec![Some(metrics_cap()), None], vec![Some(snap(1)), None]);
    assert_eq!(state.probe_candidates(), vec![1]);
}

#[test]
fn never_probed_agent_stays_unreachable() {
    // The snapshot endpoint answers, but no capability probe ever
    // succeeded: the answer must be ignored.
    let mut state = ProgramState::new(vec![machine("M1", "10.0.0.1", 80)]);
    state.fetch(&vec![None], vec![Some(snap(1))]);
    assert!(matches!(state.machine_states[0], MachineStatus::Unreachable));
    assert_eq!(state.machines[0].cap, None);
}

#[test]
fn no_metrics_capability_stays_unreachable() {
    // Scenario: the agent is alive and answers everything, but its
    // capability set denies metrics support. Every cycle must leave it
    // unreachable, indefinitely.
    let mut state = ProgramState::new(vec![machine("M1", "10.0.0.1", 80)]);
    for _ in 0..5 {
        state.fetch(&vec![Some(no_metrics_cap())], vec![Some(snap(1))]);
        assert!(matches!(state.machine_states[0], MachineStatus::Unreachable));
        assert_eq!(state.machines[0].cap, Some(no_metrics_cap()));
    }
}

#[test]
fn failed_probe_keeps_learned_capability() {
    let mut state = ProgramState::new(vec![machine("M1", "10.0.0.1", 80)]);
    state.fetch(&vec![Some(no_metrics_cap())], vec![None]);
    assert_eq!(state.machines[0].cap, Some(no_metrics_cap()));

    // Still unreachable, so it is probed again; the probe now fails.
    // The capability learned earlier must survive.
    state.fetch(&vec![None], vec![None]);
    assert_eq!(state.machines[0].cap, Some(no_metrics_cap()));
}

#[test]
fn reachable_agent_is_not_reprobed() {
    let mut state = ProgramState::new(vec![machine("M1", "10.0.0.1", 80)]);
    state.fetch(&vec![Some(metrics_cap())], vec![Some(snap(1))]);
    assert!(matches!(state.machine_states[0], MachineStatus::Success(_)));

    // M1 is published as reachable, so it is no candidate: a probe
    // answer for it must be ignored.
    assert_eq!(state.probe_candidates(), Vec::<usize>::new());
    state.fetch(&vec![Some(no_metrics_cap())], vec![Some(snap(2))]);
    assert_eq!(state.machines[0].cap, Some(metrics_cap()));
}

#[test]
fn one_failure_does_not_affect_others() {
    // Both agents have known metrics capabilities; M2's snapshot fetch
    // fails mid-cycle. M1's result must be unaffected.
    let mut state = ProgramState::new(vec![machine("M1", "10.0.0.1", 80), machine("M2", "10.0.0.2", 80)]);
    state.fetch(
        &vec![Some(metrics_cap()), Some(metrics_cap())],
        vec![Some(snap(1)), Some(snap(2))],
    );
    assert!(matches!(state.machine_states[0], MachineStatus::Success(_)));
    assert!(matches!(state.machine_states[1], MachineStatus::Success(_)));

    state.fetch(&vec![None, None], vec![Some(snap(3)), None]);
    match &state.machine_states[0] {
        MachineStatus::Success(d) => assert_eq!(d.system_info, snap(3)),
        MachineStatus::Unreachable => panic!("M1 must stay reachable"),
    }
    assert!(matches!(state.machine_states[1], MachineStatus::Unreachable));
}

#[test]
fn cycle_is_idempotent_when_agents_are_stable() {
    let mut state = ProgramState::new(vec![
        machine("M1", "10.0.0.1", 80),
        machine("M2", "10.0.0.2", 80),
        machine("M3", "10.0.0.3", 80),
    ]);
    // M1 serves metrics, M2 denies them, M3 is down entirely.
    let probes = vec![Some(metrics_cap()), Some(no_metrics_cap()), None];
    let sys = || vec![Some(snap(7)), Some(snap(8)), None];

    state.fetch(&probes, sys());
    let caps_once: Vec<Option<Capabilities>> = state.machines.iter().map(|m| m.cap).collect();
    let table_once = state.machine_states.clone();

    state.fetch(&probes, sys());
    let caps_twice: Vec<Option<Capabilities>> = state.machines.iter().map(|m| m.cap).collect();

    assert_eq!(caps_twice, caps_once);
    assert_eq!(state.machine_states, table_once);
}

#[test]
fn publish_replaces_the_table_wholesale() {
    let mut state = ProgramState::new(vec![machine("M1", "10.0.0.1", 80), machine("M2", "10.0.0.2", 80)]);
    state.fetch(
        &vec![Some(metrics_cap()), Some(metrics_cap())],
        vec![Some(snap(1)), Some(snap(2))],
    );

    // Next cycle both fetches fail: nothing of the previous table may
    // survive into the newly published one.
    state.fetch(&vec![None, None], vec![None, None]);
    assert_eq!(
        state.machine_states,
        vec![MachineStatus::Unreachable, MachineStatus::Unreachable]
    );
}

#[test]
fn scenario_two_agents_converge() {
    // M1 is up from the start and serves metrics; M2 is dark.
    let mut state = ProgramState::new(vec![machine("M1", "10.0.0.1", 80), machine("M2", "10.0.0.2", 80)]);

    // Cycle 1: M1 answers its probe and its snapshot request.
    state.fetch(&vec![Some(metrics_cap()), None], vec![Some(snap(1)), None]);
    match &state.machine_states[0] {
        MachineStatus::Success(d) => assert_eq!(d.system_info, snap(1)),
        MachineStatus::Unreachable => panic!("M1 must be reachable after cycle 1"),
    }
    assert!(matches!(state.machine_states[1], MachineStatus::Unreachable));

    // Cycle 2: M2 comes up only after this cycle's probe went out, so
    // its capability is not yet known when the gatherer runs; its
    // snapshot endpoint would already answer, but must not be asked.
    state.fetch(&vec![None, None], vec![Some(snap(2)), Some(snap(99))]);
    assert!(matches!(state.machine_states[1], MachineStatus::Unreachable));

    // Cycle 3: M2's probe finally answers, and the same cycle's gather
    // picks it up.
    state.fetch(&vec![None, Some(metrics_cap())], vec![Some(snap(3)), Some(snap(4))]);
    match &state.machine_states[1] {
        MachineStatus::Success(d) => assert_eq!(d.system_info, snap(4)),
        MachineStatus::Unreachable => panic!("M2 must be reachable after cycle 3"),
    }
    match &state.machine_states[0] {
        MachineStatus::Success(d) => assert_eq!(d.system_info, snap(3)),
        MachineStatus::Unreachable => panic!("M1 must stay reachable"),
    }
}

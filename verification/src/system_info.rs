//! The telemetry data model shared by agents and the aggregator.

use vstd::prelude::*;

verus! {

/// The telemetry categories an agent can serve. An agent's capability set
/// is a property of its build: once the aggregator has learned it, it is
/// assumed stable for the life of the process and is never cleared.
#[derive(Clone, Copy, PartialEq, Eq, Structural, Debug)]
pub struct Capabilities {
    pub has_system_info: bool,
    pub has_docker_info: bool,
}

/// One point-in-time system reading reported by an agent. Each new
/// snapshot fully replaces the prior one; no history is kept.
///
/// The aggregate CPU usage percentage travels as its IEEE-754 bit
/// pattern in `cpu_usage_bits`: the collector never computes with it,
/// it only carries it through, and the transport boundary converts it
/// to and from the floating-point figure on the wire.
#[derive(Debug, PartialEq)]
pub struct SystemInfo {
    pub cpu_vendor_id: String,
    pub cpu_brand: String,
    pub cpu_usage_bits: u32,
    pub cpu_freq: u64,

    pub total_memory: u64,
    pub free_memory: u64,
    pub available_memory: u64,
    pub used_memory: u64,

    pub total_swap: u64,
    pub free_swap: u64,
    pub used_swap: u64,
}

impl Clone for SystemInfo {
    fn clone(&self) -> (r: Self)
        ensures
            r == *self,
    {
        SystemInfo {
            cpu_vendor_id: self.cpu_vendor_id.clone(),
            cpu_brand: self.cpu_brand.clone(),
            cpu_usage_bits: self.cpu_usage_bits,
            cpu_freq: self.cpu_freq,
            total_memory: self.total_memory,
            free_memory: self.free_memory,
            available_memory: self.available_memory,
            used_memory: self.used_memory,
            total_swap: self.total_swap,
            free_swap: self.free_swap,
            used_swap: self.used_swap,
        }
    }
}

/// The capability descriptor an agent serves: every agent of this system
/// supports system metrics and none serves container-runtime information.
pub fn capabilities() -> (c: Capabilities)
    ensures
        c == (Capabilities { has_system_info: true, has_docker_info: false }),
{
    Capabilities { has_system_info: true, has_docker_info: false }
}

} // verus!

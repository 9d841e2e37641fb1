//! The hardware inventory shown to the operator. In this version only the
//! processor counts are measured; every other entry is left empty.

use vstd::prelude::*;

verus! {

#[derive(Debug, Clone, PartialEq, Eq)]
pub struct CpuInfo {
    pub model: String,
    pub cores: u32,
    pub threads: u32,
}

#[derive(Debug, Clone, Copy, PartialEq, Eq)]
pub struct MemoryInfo {
    pub total_mb: u64,
    pub available_mb: u64,
}

#[derive(Debug, Clone, PartialEq, Eq)]
pub struct GpuInfo {
    pub model: String,
    pub vram_mb: u64,
    pub driver_version: String,
}

#[derive(Debug, Clone, Copy, PartialEq, Eq)]
pub struct StorageInfo {
    pub total_gb: u64,
    pub available_gb: u64,
}

/// A snapshot of the machine's hardware.
#[derive(Debug, Clone, PartialEq, Eq)]
pub struct HardwareInfo {
    pub cpu: CpuInfo,
    pub memory: MemoryInfo,
    pub gpus: Vec<GpuInfo>,
    pub storage: StorageInfo,
    pub docker_version: Option<String>,
}

impl HardwareInfo {
    /// Nothing but the processor counts is filled in: the processor model
    /// is unnamed, and there is no memory, no graphics card, no storage and
    /// no Docker.
    pub open spec fn counts_only(self) -> bool {
        &&& self.cpu.model@ == "Unknown"@
        &&& self.memory == MemoryInfo { total_mb: 0, available_mb: 0 }
        &&& self.gpus@.len() == 0
        &&& self.storage == StorageInfo { total_gb: 0, available_gb: 0 }
        &&& self.docker_version is None
    }
}

/// Calls `num_cpus::get_physical`: the number of physical processor cores.
/// The answer depends on the machine, so nothing is claimed of it.
#[verifier::external_body]
pub(crate) fn physical_core_count() -> (count: usize) {
    num_cpus::get_physical()
}

/// Calls `num_cpus::get`: the number of logical processors available to this
/// process. The answer depends on the machine, so nothing is claimed of it.
#[verifier::external_body]
pub(crate) fn logical_core_count() -> (count: usize) {
    num_cpus::get()
}

/// A processor count as the snapshot shows it: its low 32 bits.
pub open spec fn shown_count(count: usize) -> int {
    count as int % 0x1_0000_0000
}

fn shown(count: usize) -> (low: u32)
    ensures
        low == shown_count(count),
{
    let wide: u64 = count as u64;
    (wide % 0x1_0000_0000) as u32
}

/// The snapshot for a machine with the given processor counts. A count that
/// does not fit in 32 bits is cut to its low 32 bits.
pub fn hardware_info(physical_cores: usize, logical_cores: usize) -> (info: HardwareInfo)
    ensures
        info.counts_only(),
        info.cpu.cores == shown_count(physical_cores),
        info.cpu.threads == shown_count(logical_cores),
{
    HardwareInfo {
        cpu: CpuInfo {
            model: "Unknown".to_owned(),
            cores: shown(physical_cores),
            threads: shown(logical_cores),
        },
        memory: MemoryInfo { total_mb: 0, available_mb: 0 },
        gpus: Vec::new(),
        storage: StorageInfo { total_gb: 0, available_gb: 0 },
        docker_version: None,
    }
}

} // verus!

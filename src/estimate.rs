//! Name-based hardware estimates: a device name is looked up in small
//! tables of known models, with a generic fallback for anything else.
use vstd::prelude::*;
use vstd::string::*;
use crate::text::{contains, seq_contains};

verus! {

/// Streaming-multiprocessor count and cores per multiprocessor for a device name.
pub open spec fn gpu_specs_of(name: Seq<char>) -> (u32, u32) {
    if seq_contains(name, "RTX 4090"@) { (128, 128) }
    else if seq_contains(name, "RTX 4080"@) { (76, 128) }
    else if seq_contains(name, "RTX 4070"@) { (46, 128) }
    else if seq_contains(name, "RTX 3090"@) { (82, 128) }
    else if seq_contains(name, "RTX 3080"@) { (68, 128) }
    else if seq_contains(name, "RTX 3070"@) { (46, 128) }
    else if seq_contains(name, "GTX"@) { (20, 128) }
    else { (32, 128) }
}

/// L2 cache size in MB for a device name.
pub open spec fn l2_cache_of(name: Seq<char>) -> u32 {
    if seq_contains(name, "RTX 40"@) { 72 }
    else if seq_contains(name, "RTX 30"@) { 6 }
    else { 4 }
}

/// Memory bus width in bits for a device name.
pub open spec fn memory_bus_width_of(name: Seq<char>) -> u32 {
    if seq_contains(name, "RTX 4090"@) { 384 }
    else if seq_contains(name, "RTX 4080"@) { 256 }
    else if seq_contains(name, "RTX 4070"@) { 192 }
    else if seq_contains(name, "RTX 30"@) { 320 }
    else { 256 }
}

/// Tensor cores and RT cores per multiprocessor for a device name.
pub open spec fn specialized_cores_of(name: Seq<char>) -> (u32, u32) {
    if seq_contains(name, "RTX 40"@) { (4, 2) }
    else if seq_contains(name, "RTX 30"@) { (4, 1) }
    else if seq_contains(name, "RTX 20"@) { (1, 1) }
    else { (0, 0) }
}

/// Memory technology for a device name.
pub open spec fn memory_type_of(name: Seq<char>) -> Seq<char> {
    if seq_contains(name, "RTX 40"@) { "GDDR6X"@ }
    else if seq_contains(name, "RTX 30"@) { "GDDR6X"@ }
    else if seq_contains(name, "RTX 20"@) { "GDDR6"@ }
    else { "GDDR5"@ }
}

/// Rated peak memory bandwidth in GB/s for a device name.
pub open spec fn peak_bandwidth_of(name: Seq<char>) -> u32 {
    if seq_contains(name, "RTX 4090"@) { 1008 }
    else if seq_contains(name, "RTX 4080"@) { 717 }
    else if seq_contains(name, "RTX 4070"@) { 504 }
    else if seq_contains(name, "RTX 3090"@) { 936 }
    else if seq_contains(name, "RTX 3080"@) { 760 }
    else { 500 }
}

/// Estimated memory bandwidth in MB/s: the peak scaled by `memory_util` percent.
pub open spec fn memory_bandwidth_of(name: Seq<char>, memory_util: u32) -> int {
    peak_bandwidth_of(name) * memory_util * 10
}

/// Estimated interconnect utilization: 30% of the summed GPU and memory
/// utilization, rounded down and capped at 100.
pub open spec fn pcie_utilization_of(gpu_util: u32, memory_util: u32) -> int {
    let v = (gpu_util + memory_util) * 3 / 10;
    if v > 100 { 100 } else { v }
}

/// Estimates the multiprocessor count and the cores per multiprocessor.
pub fn estimate_gpu_specs(name: &str) -> (r: (u32, u32))
    ensures
        r == gpu_specs_of(name@),
{
    if contains(name, "RTX 4090") {
        (128, 128)
    } else if contains(name, "RTX 4080") {
        (76, 128)
    } else if contains(name, "RTX 4070") {
        (46, 128)
    } else if contains(name, "RTX 3090") {
        (82, 128)
    } else if contains(name, "RTX 3080") {
        (68, 128)
    } else if contains(name, "RTX 3070") {
        (46, 128)
    } else if contains(name, "GTX") {
        (20, 128)
    } else {
        (32, 128)
    }
}

/// Estimates the L2 cache size in MB.
pub fn estimate_l2_cache(name: &str) -> (r: u32)
    ensures
        r == l2_cache_of(name@),
{
    if contains(name, "RTX 40") {
        72
    } else if contains(name, "RTX 30") {
        6
    } else {
        4
    }
}

/// Estimates the memory bus width in bits.
pub fn estimate_memory_bus_width(name: &str) -> (r: u32)
    ensures
        r == memory_bus_width_of(name@),
{
    if contains(name, "RTX 4090") {
        384
    } else if contains(name, "RTX 4080") {
        256
    } else if contains(name, "RTX 4070") {
        192
    } else if contains(name, "RTX 30") {
        320
    } else {
        256
    }
}

/// Estimates tensor cores and RT cores per multiprocessor.
pub fn estimate_specialized_cores(name: &str) -> (r: (u32, u32))
    ensures
        r == specialized_cores_of(name@),
{
    if contains(name, "RTX 40") {
        (4, 2)
    } else if contains(name, "RTX 30") {
        (4, 1)
    } else if contains(name, "RTX 20") {
        (1, 1)
    } else {
        (0, 0)
    }
}

/// Estimates the memory technology.
pub fn estimate_memory_type(name: &str) -> (r: String)
    ensures
        r@ == memory_type_of(name@),
{
    if contains(name, "RTX 40") {
        String::from_str("GDDR6X")
    } else if contains(name, "RTX 30") {
        String::from_str("GDDR6X")
    } else if contains(name, "RTX 20") {
        String::from_str("GDDR6")
    } else {
        String::from_str("GDDR5")
    }
}

/// Looks up the rated peak memory bandwidth in GB/s.
pub fn peak_memory_bandwidth(name: &str) -> (r: u32)
    ensures
        r == peak_bandwidth_of(name@),
        r <= 1008,
{
    if contains(name, "RTX 4090") {
        1008
    } else if contains(name, "RTX 4080") {
        717
    } else if contains(name, "RTX 4070") {
        504
    } else if contains(name, "RTX 3090") {
        936
    } else if contains(name, "RTX 3080") {
        760
    } else {
        500
    }
}

/// Estimates the memory bandwidth in MB/s from the memory utilization percent.
pub fn estimate_memory_bandwidth(name: &str, memory_util: u32) -> (r: u64)
    ensures
        r == memory_bandwidth_of(name@, memory_util),
{
    let peak = peak_memory_bandwidth(name);
    assert(peak * memory_util * 10 <= 1008 * 0xffff_ffffu64 * 10) by (nonlinear_arith)
        requires peak <= 1008, memory_util <= 0xffff_ffffu32;
    peak as u64 * memory_util as u64 * 10
}

/// Estimates the interconnect utilization percent from GPU and memory utilization.
pub fn estimate_pcie_utilization(gpu_util: u32, memory_util: u32) -> (r: u32)
    ensures
        r == pcie_utilization_of(gpu_util, memory_util),
        r <= 100,
{
    let v: u64 = (gpu_util as u64 + memory_util as u64) * 3 / 10;
    if v > 100 {
        100
    } else {
        v as u32
    }
}

} // verus!

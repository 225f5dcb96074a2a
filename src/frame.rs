//! Telemetry frames and the enrichment of raw device samples: the fields that
//! cannot be measured directly are derived from the sample deterministically.
use vstd::prelude::*;
use crate::estimate::{
    estimate_gpu_specs, estimate_memory_bandwidth, estimate_pcie_utilization, gpu_specs_of,
    memory_bandwidth_of, pcie_utilization_of,
};

verus! {

/// One raw reading of a device, as the device provider reports it.
/// Readings the provider could not take are `None`.
pub struct RawSample {
    pub timestamp_ms: u64,
    pub name: String,
    pub util_gpu: u32,
    pub util_memory: u32,
    pub memory_used_bytes: u64,
    pub memory_total_bytes: u64,
    pub sm_clock_mhz: u32,
    pub memory_clock_mhz: u32,
    pub temperature_c: u32,
    pub power_mw: Option<u32>,
    pub fan_speed_percent: Option<u32>,
}

/// One timestamped telemetry sample for one device. Utilizations are
/// percentages; per-multiprocessor utilizations are in permille.
pub struct TelemetryFrame {
    pub timestamp: u64,
    pub device_index: u32,
    pub name: String,
    pub util_gpu: u32,
    pub util_memory: u32,
    pub memory_used_mb: u64,
    pub memory_total_mb: u64,
    pub sm_clock_mhz: u32,
    pub memory_clock_mhz: u32,
    pub temperature_c: u32,
    pub power_mw: u32,
    pub fan_speed_percent: u32,
    pub sm_utilizations: Vec<u32>,
    pub memory_bandwidth_mbps: u64,
    pub pcie_utilization: u32,
}

pub open spec fn bytes_to_mb(b: u64) -> u64 {
    (b / 1048576u64) as u64
}

/// The fixed offset, in permille, that unit `i` adds to the overall utilization.
pub open spec fn unit_offset(i: int) -> int {
    2 * ((17 * i) % 100) - 100
}

/// Utilization of unit `i` in permille: the overall utilization plus the
/// unit's offset, kept within 0..=1000.
pub open spec fn unit_utilization(overall_util: u32, i: int) -> u32 {
    let v = overall_util * 10 + unit_offset(i);
    if v < 0 { 0 } else if v > 1000 { 1000 } else { v as u32 }
}

pub open spec fn unit_utilizations(overall_util: u32, count: nat) -> Seq<u32> {
    Seq::new(count, |i: int| unit_utilization(overall_util, i))
}

/// `f` is the frame that enrichment makes of `raw` for device `index`.
pub open spec fn enriched(f: TelemetryFrame, raw: RawSample, index: u32) -> bool {
    &&& f.timestamp == raw.timestamp_ms
    &&& f.device_index == index
    &&& f.name@ == raw.name@
    &&& f.util_gpu == raw.util_gpu
    &&& f.util_memory == raw.util_memory
    &&& f.memory_used_mb == bytes_to_mb(raw.memory_used_bytes)
    &&& f.memory_total_mb == bytes_to_mb(raw.memory_total_bytes)
    &&& f.sm_clock_mhz == raw.sm_clock_mhz
    &&& f.memory_clock_mhz == raw.memory_clock_mhz
    &&& f.temperature_c == raw.temperature_c
    &&& f.power_mw == (match raw.power_mw { Some(p) => p, None => 0 })
    &&& f.fan_speed_percent == (match raw.fan_speed_percent { Some(p) => p, None => 0 })
    &&& f.sm_utilizations@ == unit_utilizations(raw.util_gpu, gpu_specs_of(raw.name@).0 as nat)
    &&& f.memory_bandwidth_mbps == memory_bandwidth_of(raw.name@, raw.util_memory)
    &&& f.pcie_utilization == pcie_utilization_of(raw.util_gpu, raw.util_memory)
}

/// Two raw samples carry the same readings.
pub open spec fn same_sample(a: RawSample, b: RawSample) -> bool {
    &&& a.timestamp_ms == b.timestamp_ms
    &&& a.name@ == b.name@
    &&& a.util_gpu == b.util_gpu
    &&& a.util_memory == b.util_memory
    &&& a.memory_used_bytes == b.memory_used_bytes
    &&& a.memory_total_bytes == b.memory_total_bytes
    &&& a.sm_clock_mhz == b.sm_clock_mhz
    &&& a.memory_clock_mhz == b.memory_clock_mhz
    &&& a.temperature_c == b.temperature_c
    &&& a.power_mw == b.power_mw
    &&& a.fan_speed_percent == b.fan_speed_percent
}

/// Two frames carry the same values, field by field.
pub open spec fn same_frame(a: TelemetryFrame, b: TelemetryFrame) -> bool {
    &&& a.timestamp == b.timestamp
    &&& a.device_index == b.device_index
    &&& a.name@ == b.name@
    &&& a.util_gpu == b.util_gpu
    &&& a.util_memory == b.util_memory
    &&& a.memory_used_mb == b.memory_used_mb
    &&& a.memory_total_mb == b.memory_total_mb
    &&& a.sm_clock_mhz == b.sm_clock_mhz
    &&& a.memory_clock_mhz == b.memory_clock_mhz
    &&& a.temperature_c == b.temperature_c
    &&& a.power_mw == b.power_mw
    &&& a.fan_speed_percent == b.fan_speed_percent
    &&& a.sm_utilizations@ == b.sm_utilizations@
    &&& a.memory_bandwidth_mbps == b.memory_bandwidth_mbps
    &&& a.pcie_utilization == b.pcie_utilization
}

/// Per-multiprocessor utilizations in permille for `sm_count` units.
pub fn generate_sm_utilizations(overall_util: u32, sm_count: u32) -> (r: Vec<u32>)
    ensures
        r@ == unit_utilizations(overall_util, sm_count as nat),
{
    let mut out: Vec<u32> = Vec::with_capacity(sm_count as usize);
    let base: u64 = overall_util as u64 * 10;
    let mut i: u32 = 0;
    while i < sm_count
        invariant
            i <= sm_count,
            base == overall_util * 10,
            out@ =~= unit_utilizations(overall_util, i as nat),
        decreases sm_count - i,
    {
        let v: u64 = base + 2 * ((17 * i as u64) % 100);
        let u: u32 = if v < 100 {
            0
        } else if v - 100 > 1000 {
            1000
        } else {
            (v - 100) as u32
        };
        assert(u == unit_utilization(overall_util, i as int));
        out.push(u);
        i = i + 1;
        assert(out@ =~= unit_utilizations(overall_util, i as nat));
    }
    out
}

/// Enriches a raw sample of device `index` into a telemetry frame.
pub fn create_simple_telemetry_frame(raw: &RawSample, index: u32) -> (r: TelemetryFrame)
    ensures
        enriched(r, *raw, index),
{
    let (sm_count, _cores) = estimate_gpu_specs(raw.name.as_str());
    let power_mw: u32 = match raw.power_mw {
        Some(p) => p,
        None => 0,
    };
    let fan_speed_percent: u32 = match raw.fan_speed_percent {
        Some(p) => p,
        None => 0,
    };
    TelemetryFrame {
        timestamp: raw.timestamp_ms,
        device_index: index,
        name: raw.name.clone(),
        util_gpu: raw.util_gpu,
        util_memory: raw.util_memory,
        memory_used_mb: raw.memory_used_bytes / (1024 * 1024),
        memory_total_mb: raw.memory_total_bytes / (1024 * 1024),
        sm_clock_mhz: raw.sm_clock_mhz,
        memory_clock_mhz: raw.memory_clock_mhz,
        temperature_c: raw.temperature_c,
        power_mw,
        fan_speed_percent,
        sm_utilizations: generate_sm_utilizations(raw.util_gpu, sm_count),
        memory_bandwidth_mbps: estimate_memory_bandwidth(raw.name.as_str(), raw.util_memory),
        pcie_utilization: estimate_pcie_utilization(raw.util_gpu, raw.util_memory),
    }
}

/// Enrichment is deterministic: the same raw sample of the same device
/// always gives the same frame, per-unit utilizations and bandwidth included.
pub proof fn enrichment_is_deterministic(
    a: RawSample,
    b: RawSample,
    index: u32,
    fa: TelemetryFrame,
    fb: TelemetryFrame,
)
    requires
        same_sample(a, b),
        enriched(fa, a, index),
        enriched(fb, b, index),
    ensures
        same_frame(fa, fb),
        fa.sm_utilizations@ == fb.sm_utilizations@,
        fa.memory_bandwidth_mbps == fb.memory_bandwidth_mbps,
{
}

} // verus!

//! Device descriptors: what is read once from each device, and the
//! specification records derived from it with the name-based estimates.
use vstd::prelude::*;
use vstd::string::*;
use crate::estimate::{
    estimate_gpu_specs, estimate_l2_cache, estimate_memory_bus_width, estimate_memory_type,
    estimate_specialized_cores, gpu_specs_of, l2_cache_of, memory_bus_width_of, memory_type_of,
    specialized_cores_of,
};
use crate::frame::{bytes_to_mb, create_simple_telemetry_frame, enriched, RawSample, TelemetryFrame};
use crate::text::{decimal, decimal_string};

verus! {

/// The static facts a device provider reports about one device. Facts the
/// provider could not read are `None`.
pub struct DeviceReading {
    pub name: String,
    pub uuid: String,
    pub pci_info: String,
    pub memory_total_bytes: u64,
    pub compute_major: u32,
    pub compute_minor: u32,
    pub max_graphics_clock_mhz: Option<u32>,
    pub max_memory_clock_mhz: Option<u32>,
    pub default_power_limit_mw: Option<u32>,
}

/// Hardware description of one device.
pub struct GPUDevice {
    pub index: u32,
    pub name: String,
    pub uuid: String,
    pub pci_info: String,
    pub memory_total_mb: u64,
    pub compute_capability: String,
    pub sm_count: u32,
    pub cores_per_sm: u32,
    pub max_threads_per_sm: u32,
    pub warp_size: u32,
    pub l2_cache_size_mb: u32,
    pub memory_bus_width: u32,
    pub base_clock_mhz: u32,
    pub boost_clock_mhz: u32,
}

/// Architecture details of a device. Memory is in bytes and power in
/// milliwatts.
pub struct GPUArchitecture {
    pub name: String,
    pub compute_capability: String,
    pub sm_count: u32,
    pub cores_per_sm: u32,
    pub tensor_cores_per_sm: u32,
    pub rt_cores_per_sm: u32,
    pub memory_total_bytes: u64,
    pub memory_bus_width: u32,
    pub memory_type: String,
    pub l1_cache_size_kb: u32,
    pub l2_cache_size_mb: u32,
    pub max_threads_per_sm: u32,
    pub max_threads_per_block: u32,
    pub warp_size: u32,
    pub base_clock_mhz: u32,
    pub boost_clock_mhz: u32,
    pub memory_clock_mhz: u32,
    pub max_power_mw: u32,
    pub thermal_design_power_mw: u32,
}

/// All devices, with a first telemetry frame of device 0 when there is one.
pub struct GPUInfo {
    pub devices: Vec<GPUDevice>,
    pub current_telemetry: Option<TelemetryFrame>,
}

/// Why device information could not be put together.
#[derive(Clone, Copy, Debug, PartialEq, Eq, Structural)]
pub enum DeviceError {
    /// The provider reported no device.
    NoDevices,
}

pub open spec fn or_default(v: Option<u32>, d: u32) -> u32 {
    match v {
        Some(x) => x,
        None => d,
    }
}

/// Compute capability written `major.minor`.
pub open spec fn capability_of(major: u32, minor: u32) -> Seq<char> {
    decimal(major as nat) + "."@ + decimal(minor as nat)
}

/// `d` describes `reading` as device `index`.
pub open spec fn device_of(d: GPUDevice, reading: DeviceReading, index: u32) -> bool {
    let sm_clock = or_default(reading.max_graphics_clock_mhz, 0);
    &&& d.index == index
    &&& d.name@ == reading.name@
    &&& d.uuid@ == reading.uuid@
    &&& d.pci_info@ == reading.pci_info@
    &&& d.memory_total_mb == bytes_to_mb(reading.memory_total_bytes)
    &&& d.compute_capability@ == capability_of(reading.compute_major, reading.compute_minor)
    &&& (d.sm_count, d.cores_per_sm) == gpu_specs_of(reading.name@)
    &&& d.max_threads_per_sm == 1536
    &&& d.warp_size == 32
    &&& d.l2_cache_size_mb == l2_cache_of(reading.name@)
    &&& d.memory_bus_width == memory_bus_width_of(reading.name@)
    &&& d.base_clock_mhz == sm_clock * 4 / 5
    &&& d.boost_clock_mhz == sm_clock
}

/// `a` describes the architecture of `reading`.
pub open spec fn architecture_of(a: GPUArchitecture, reading: DeviceReading) -> bool {
    &&& a.name@ == reading.name@
    &&& a.compute_capability@ == capability_of(reading.compute_major, reading.compute_minor)
    &&& (a.sm_count, a.cores_per_sm) == gpu_specs_of(reading.name@)
    &&& (a.tensor_cores_per_sm, a.rt_cores_per_sm) == specialized_cores_of(reading.name@)
    &&& a.memory_total_bytes == reading.memory_total_bytes
    &&& a.memory_bus_width == memory_bus_width_of(reading.name@)
    &&& a.memory_type@ == memory_type_of(reading.name@)
    &&& a.l1_cache_size_kb == 128
    &&& a.l2_cache_size_mb == l2_cache_of(reading.name@)
    &&& a.max_threads_per_sm == 1536
    &&& a.max_threads_per_block == 1024
    &&& a.warp_size == 32
    &&& a.base_clock_mhz == or_default(reading.max_graphics_clock_mhz, 1400)
    &&& a.boost_clock_mhz == or_default(reading.max_graphics_clock_mhz, 1700)
    &&& a.memory_clock_mhz == or_default(reading.max_memory_clock_mhz, 7000)
    &&& a.max_power_mw == or_default(reading.default_power_limit_mw, 350000)
    &&& a.thermal_design_power_mw == or_default(reading.default_power_limit_mw, 350000)
}

fn unwrap_or_u32(v: Option<u32>, d: u32) -> (r: u32)
    ensures
        r == or_default(v, d),
{
    match v {
        Some(x) => x,
        None => d,
    }
}

/// Writes a compute capability as `major.minor`.
pub fn compute_capability_string(major: u32, minor: u32) -> (r: String)
    ensures
        r@ == capability_of(major, minor),
{
    let mut s = decimal_string(major as u64);
    s.append(".");
    let m = decimal_string(minor as u64);
    s.append(m.as_str());
    s
}

/// Describes the device read as `reading` at position `index`.
pub fn create_gpu_device_info(reading: &DeviceReading, index: u32) -> (r: GPUDevice)
    ensures
        device_of(r, *reading, index),
{
    let (sm_count, cores_per_sm) = estimate_gpu_specs(reading.name.as_str());
    let sm_clock = unwrap_or_u32(reading.max_graphics_clock_mhz, 0);
    GPUDevice {
        index,
        name: reading.name.clone(),
        uuid: reading.uuid.clone(),
        pci_info: reading.pci_info.clone(),
        memory_total_mb: reading.memory_total_bytes / (1024 * 1024),
        compute_capability: compute_capability_string(reading.compute_major, reading.compute_minor),
        sm_count,
        cores_per_sm,
        max_threads_per_sm: 1536,
        warp_size: 32,
        l2_cache_size_mb: estimate_l2_cache(reading.name.as_str()),
        memory_bus_width: estimate_memory_bus_width(reading.name.as_str()),
        base_clock_mhz: (sm_clock as u64 * 4 / 5) as u32,
        boost_clock_mhz: sm_clock,
    }
}

/// Describes the architecture of the device read as `reading`.
pub fn describe_architecture(reading: &DeviceReading) -> (r: GPUArchitecture)
    ensures
        architecture_of(r, *reading),
{
    let (sm_count, cores_per_sm) = estimate_gpu_specs(reading.name.as_str());
    let (tensor_cores, rt_cores) = estimate_specialized_cores(reading.name.as_str());
    let power = unwrap_or_u32(reading.default_power_limit_mw, 350000);
    GPUArchitecture {
        name: reading.name.clone(),
        compute_capability: compute_capability_string(reading.compute_major, reading.compute_minor),
        sm_count,
        cores_per_sm,
        tensor_cores_per_sm: tensor_cores,
        rt_cores_per_sm: rt_cores,
        memory_total_bytes: reading.memory_total_bytes,
        memory_bus_width: estimate_memory_bus_width(reading.name.as_str()),
        memory_type: estimate_memory_type(reading.name.as_str()),
        l1_cache_size_kb: 128,
        l2_cache_size_mb: estimate_l2_cache(reading.name.as_str()),
        max_threads_per_sm: 1536,
        max_threads_per_block: 1024,
        warp_size: 32,
        base_clock_mhz: unwrap_or_u32(reading.max_graphics_clock_mhz, 1400),
        boost_clock_mhz: unwrap_or_u32(reading.max_graphics_clock_mhz, 1700),
        memory_clock_mhz: unwrap_or_u32(reading.max_memory_clock_mhz, 7000),
        max_power_mw: power,
        thermal_design_power_mw: power,
    }
}

/// The architecture of the first device; fails when there is none.
pub fn get_detailed_gpu_info(devices: &Vec<DeviceReading>) -> (r: Result<GPUArchitecture, DeviceError>)
    ensures
        devices@.len() == 0 ==> r == Err::<GPUArchitecture, DeviceError>(DeviceError::NoDevices),
        devices@.len() > 0 ==> (r matches Ok(a) && architecture_of(a, devices@[0])),
{
    if devices.len() == 0 {
        Err(DeviceError::NoDevices)
    } else {
        Ok(describe_architecture(&devices[0]))
    }
}

/// Describes every device in order, with `first_sample`, a reading of
/// device 0, enriched into the current telemetry.
pub fn get_gpu_info(devices: &Vec<DeviceReading>, first_sample: Option<RawSample>) -> (r: GPUInfo)
    requires
        devices@.len() <= u32::MAX,
    ensures
        r.devices@.len() == devices@.len(),
        forall|i: int| 0 <= i < devices@.len() ==> device_of(#[trigger] r.devices@[i], devices@[i], i as u32),
        match first_sample {
            Some(raw) => r.current_telemetry matches Some(f) && enriched(f, raw, 0),
            None => r.current_telemetry is None,
        },
{
    let mut out: Vec<GPUDevice> = Vec::new();
    let mut i: usize = 0;
    while i < devices.len()
        invariant
            i <= devices@.len() <= u32::MAX,
            out@.len() == i,
            forall|k: int| 0 <= k < i ==> device_of(#[trigger] out@[k], devices@[k], k as u32),
        decreases devices@.len() - i,
    {
        let d = create_gpu_device_info(&devices[i], i as u32);
        out.push(d);
        i = i + 1;
    }
    let current_telemetry = match first_sample {
        Some(raw) => Some(create_simple_telemetry_frame(&raw, 0)),
        None => None,
    };
    GPUInfo { devices: out, current_telemetry }
}

} // verus!

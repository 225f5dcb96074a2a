use gpu_telemetry::device::{
    compute_capability_string, create_gpu_device_info, get_detailed_gpu_info, get_gpu_info,
    DeviceError, DeviceReading,
};
use gpu_telemetry::frame::RawSample;

fn reading(name: &str) -> DeviceReading {
    DeviceReading {
        name: name.to_string(),
        uuid: "GPU-1234".to_string(),
        pci_info: "00:01.0".to_string(),
        memory_total_bytes: 24 * 1024 * 1024 * 1024,
        compute_major: 8,
        compute_minor: 9,
        max_graphics_clock_mhz: Some(2520),
        max_memory_clock_mhz: None,
        default_power_limit_mw: None,
    }
}

#[test]
fn capability_is_major_dot_minor() {
    assert_eq!(compute_capability_string(8, 9), "8.9");
    assert_eq!(compute_capability_string(12, 0), "12.0");
}

#[test]
fn device_info_from_reading() {
    let d = create_gpu_device_info(&reading("NVIDIA GeForce RTX 4090"), 2);
    assert_eq!(d.index, 2);
    assert_eq!(d.name, "NVIDIA GeForce RTX 4090");
    assert_eq!(d.uuid, "GPU-1234");
    assert_eq!(d.memory_total_mb, 24576);
    assert_eq!(d.compute_capability, "8.9");
    assert_eq!(d.sm_count, 128);
    assert_eq!(d.cores_per_sm, 128);
    assert_eq!(d.max_threads_per_sm, 1536);
    assert_eq!(d.warp_size, 32);
    assert_eq!(d.l2_cache_size_mb, 72);
    assert_eq!(d.memory_bus_width, 384);
    assert_eq!(d.base_clock_mhz, 2016);
    assert_eq!(d.boost_clock_mhz, 2520);
}

#[test]
fn unknown_clock_reads_as_zero() {
    let mut r = reading("Quadro");
    r.max_graphics_clock_mhz = None;
    let d = create_gpu_device_info(&r, 0);
    assert_eq!(d.base_clock_mhz, 0);
    assert_eq!(d.boost_clock_mhz, 0);
}

#[test]
fn architecture_of_first_device_with_defaults() {
    let a = get_detailed_gpu_info(&vec![reading("RTX 3090"), reading("RTX 4090")]).unwrap();
    assert_eq!(a.name, "RTX 3090");
    assert_eq!(a.tensor_cores_per_sm, 4);
    assert_eq!(a.rt_cores_per_sm, 1);
    assert_eq!(a.memory_type, "GDDR6X");
    assert_eq!(a.l1_cache_size_kb, 128);
    assert_eq!(a.max_threads_per_block, 1024);
    assert_eq!(a.base_clock_mhz, 2520);
    assert_eq!(a.boost_clock_mhz, 2520);
    assert_eq!(a.memory_clock_mhz, 7000);
    assert_eq!(a.max_power_mw, 350000);
    assert_eq!(a.thermal_design_power_mw, 350000);
}

#[test]
fn architecture_needs_a_device() {
    assert_eq!(get_detailed_gpu_info(&Vec::new()).err(), Some(DeviceError::NoDevices));
}

#[test]
fn gpu_info_lists_devices_with_first_telemetry() {
    let raw = RawSample {
        timestamp_ms: 77,
        name: "RTX 4080".to_string(),
        util_gpu: 1,
        util_memory: 2,
        memory_used_bytes: 0,
        memory_total_bytes: 0,
        sm_clock_mhz: 0,
        memory_clock_mhz: 0,
        temperature_c: 0,
        power_mw: Some(1),
        fan_speed_percent: None,
    };
    let info = get_gpu_info(&vec![reading("RTX 4080"), reading("GTX 1080")], Some(raw));
    assert_eq!(info.devices.len(), 2);
    assert_eq!(info.devices[1].index, 1);
    assert_eq!(info.devices[1].sm_count, 20);
    let t = info.current_telemetry.unwrap();
    assert_eq!(t.timestamp, 77);
    assert_eq!(t.device_index, 0);
    let none = get_gpu_info(&Vec::new(), None);
    assert!(none.devices.is_empty());
    assert!(none.current_telemetry.is_none());
}

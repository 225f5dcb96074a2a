use gpu_telemetry::clock::now_ms;
use gpu_telemetry::estimate::{
    estimate_gpu_specs, estimate_l2_cache, estimate_memory_bandwidth, estimate_memory_bus_width,
    estimate_memory_type, estimate_pcie_utilization, estimate_specialized_cores,
    peak_memory_bandwidth,
};
use gpu_telemetry::text::{contains, decimal_string};

#[test]
fn test_now_ms_returns_valid_timestamp() {
    let timestamp = now_ms();
    assert!(timestamp > 1577836800000);
}

#[test]
fn test_estimate_gpu_specs_rtx_4090() {
    let (sm_count, cores_per_sm) = estimate_gpu_specs("RTX 4090");
    assert_eq!(sm_count, 128);
    assert_eq!(cores_per_sm, 128);
}

#[test]
fn test_estimate_gpu_specs_unknown_card() {
    let (sm_count, cores_per_sm) = estimate_gpu_specs("Unknown GPU");
    assert_eq!(sm_count, 32);
    assert_eq!(cores_per_sm, 128);
}

#[test]
fn test_estimate_l2_cache_rtx_40_series() {
    let cache_size = estimate_l2_cache("RTX 4080");
    assert_eq!(cache_size, 72);
}

#[test]
fn test_estimate_memory_bus_width() {
    assert_eq!(estimate_memory_bus_width("RTX 4090"), 384);
    assert_eq!(estimate_memory_bus_width("RTX 4080"), 256);
    assert_eq!(estimate_memory_bus_width("Unknown"), 256);
}

#[test]
fn test_estimate_specialized_cores() {
    let (tensor, rt) = estimate_specialized_cores("RTX 4090");
    assert_eq!(tensor, 4);
    assert_eq!(rt, 2);

    let (tensor, rt) = estimate_specialized_cores("GTX 1080");
    assert_eq!(tensor, 0);
    assert_eq!(rt, 0);
}

#[test]
fn test_estimate_memory_type() {
    assert_eq!(estimate_memory_type("RTX 4090"), "GDDR6X");
    assert_eq!(estimate_memory_type("RTX 3080"), "GDDR6X");
    assert_eq!(estimate_memory_type("GTX 1080"), "GDDR5");
}

#[test]
fn test_estimate_memory_bandwidth() {
    // MB/s: 1008 GB/s at 50% and 500 GB/s at 100%.
    assert_eq!(estimate_memory_bandwidth("RTX 4090", 50), 504_000);
    assert_eq!(estimate_memory_bandwidth("Unknown", 100), 500_000);
}

#[test]
fn test_estimate_pcie_utilization() {
    assert_eq!(estimate_pcie_utilization(50, 30), 24);
    assert_eq!(estimate_pcie_utilization(0, 0), 0);
    assert_eq!(estimate_pcie_utilization(100, 100), 60);
}

#[test]
fn pcie_utilization_is_capped() {
    assert_eq!(estimate_pcie_utilization(400, 0), 100);
    assert_eq!(estimate_pcie_utilization(u32::MAX, u32::MAX), 100);
    assert_eq!(estimate_pcie_utilization(33, 0), 9);
}

#[test]
fn full_model_names_match_inside_longer_names() {
    assert_eq!(estimate_gpu_specs("NVIDIA GeForce RTX 3080 Ti"), (68, 128));
    assert_eq!(estimate_gpu_specs("NVIDIA GeForce GTX 1660"), (20, 128));
    assert_eq!(estimate_gpu_specs("NVIDIA GeForce RTX 4070 SUPER"), (46, 128));
    assert_eq!(estimate_l2_cache("NVIDIA GeForce RTX 3060"), 6);
    assert_eq!(estimate_l2_cache("Tesla T4"), 4);
    assert_eq!(estimate_memory_bus_width("RTX 3060"), 320);
    assert_eq!(estimate_memory_bus_width("RTX 4070"), 192);
    assert_eq!(estimate_specialized_cores("RTX 3090"), (4, 1));
    assert_eq!(estimate_specialized_cores("RTX 2080"), (1, 1));
    assert_eq!(estimate_memory_type("RTX 2080"), "GDDR6");
}

#[test]
fn peak_bandwidth_table() {
    assert_eq!(peak_memory_bandwidth("RTX 4080"), 717);
    assert_eq!(peak_memory_bandwidth("RTX 4070"), 504);
    assert_eq!(peak_memory_bandwidth("RTX 3090"), 936);
    assert_eq!(peak_memory_bandwidth("RTX 3080"), 760);
    assert_eq!(peak_memory_bandwidth(""), 500);
    assert_eq!(estimate_memory_bandwidth("RTX 3080", 0), 0);
}

#[test]
fn substring_search() {
    assert!(contains("NVIDIA RTX 4090", "RTX 4090"));
    assert!(contains("abc", ""));
    assert!(contains("", ""));
    assert!(!contains("", "a"));
    assert!(!contains("RTX 409", "RTX 4090"));
    assert!(contains("aab", "ab"));
    assert!(!contains("RTX4090", "RTX 4090"));
}

#[test]
fn decimal_rendering() {
    assert_eq!(decimal_string(0), "0");
    assert_eq!(decimal_string(7), "7");
    assert_eq!(decimal_string(10), "10");
    assert_eq!(decimal_string(1577836800000), "1577836800000");
    assert_eq!(decimal_string(u64::MAX), "18446744073709551615");
}

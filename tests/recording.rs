use gpu_telemetry::frame::RawSample;
use gpu_telemetry::recording::{accept_sample, sleep_after_tick, Recorder, RecordingError};

fn metrics() -> Vec<String> {
    vec!["util".to_string()]
}

fn sample(ts: u64) -> RawSample {
    RawSample {
        timestamp_ms: ts,
        name: "RTX 4080".to_string(),
        util_gpu: 40,
        util_memory: 20,
        memory_used_bytes: 0,
        memory_total_bytes: 16 * 1024 * 1024 * 1024,
        sm_clock_mhz: 2000,
        memory_clock_mhz: 11000,
        temperature_c: 50,
        power_mw: None,
        fan_speed_percent: Some(30),
    }
}

#[test]
fn start_reports_plan_and_status() {
    let mut rec = Recorder::new();
    let plan = rec.start_at(2, 10, metrics(), 1700000000123).unwrap();
    assert_eq!(plan.session_id, "rec_1700000000123");
    assert_eq!(plan.output_file, "recordings/gpu_recording_rec_1700000000123.json");
    assert_eq!(plan.interval_ms, 100);
    assert_eq!(plan.total_samples, 20);
    let st = rec.get_recording_status();
    assert!(st.is_recording);
    assert_eq!(st.session_id.as_deref(), Some("rec_1700000000123"));
    assert_eq!(st.duration_seconds, Some(2));
    assert_eq!(st.elapsed_seconds, Some(0));
    assert_eq!(st.sample_rate_hz, Some(10));
    assert_eq!(st.metrics, metrics());
    assert_eq!(st.samples_collected, 0);
}

#[test]
fn second_start_fails_and_keeps_status() {
    let mut rec = Recorder::new();
    rec.start_at(5, 2, metrics(), 1000).unwrap();
    let err = rec.start_at(1, 1, Vec::new(), 2000).err();
    assert_eq!(err, Some(RecordingError::AlreadyRecording));
    assert_eq!(RecordingError::AlreadyRecording.message(), "Recording already in progress");
    let st = rec.get_recording_status();
    assert_eq!(st.session_id.as_deref(), Some("rec_1000"));
    assert_eq!(st.duration_seconds, Some(5));
    assert_eq!(st.metrics, metrics());
}

#[test]
fn zero_rate_is_rejected() {
    let mut rec = Recorder::new();
    assert_eq!(rec.start_at(2, 0, metrics(), 1000).err(), Some(RecordingError::InvalidSampleRate));
    assert!(!rec.is_recording());
    assert!(!rec.get_recording_status().is_recording);
    assert_eq!(RecordingError::InvalidSampleRate.message(), "Sample rate must be at least 1 Hz");
}

#[test]
fn oversized_sample_count_is_rejected() {
    let mut rec = Recorder::new();
    assert_eq!(rec.start_at(u64::MAX, 2, metrics(), 1000).err(), Some(RecordingError::TooManySamples));
    assert!(!rec.is_recording());
    assert!(rec.start_at(u64::MAX, 1, metrics(), 1000).is_ok());
}

#[test]
fn stop_without_session_fails() {
    let mut rec = Recorder::new();
    assert_eq!(rec.stop_interval_recording().err(), Some(RecordingError::NotRecording));
    assert_eq!(RecordingError::NotRecording.message(), "No active recording to stop");
}

#[test]
fn stop_of_active_session_succeeds_then_inactive() {
    let mut rec = Recorder::new();
    let plan = rec.start_at(2, 10, metrics(), 42).unwrap();
    assert_eq!(rec.stop_interval_recording().unwrap(), plan.output_file);
    assert!(!rec.get_recording_status().is_recording);
    assert_eq!(rec.stop_interval_recording().err(), Some(RecordingError::NotRecording));
    assert!(!rec.record_tick(plan.session, 0));
}

#[test]
fn idle_status_when_no_session() {
    let rec = Recorder::new();
    let st = rec.get_recording_status();
    assert!(!st.is_recording);
    assert_eq!(st.session_id, None);
    assert_eq!(st.duration_seconds, None);
    assert_eq!(st.elapsed_seconds, None);
    assert_eq!(st.sample_rate_hz, None);
    assert!(st.metrics.is_empty());
    assert_eq!(st.samples_collected, 0);
    assert_eq!(st.output_file, None);
}

#[test]
fn recording_loop_collects_all_samples_in_order() {
    let mut rec = Recorder::new();
    let plan = rec.start_at(2, 10, metrics(), 5000).unwrap();
    let mut frames = Vec::new();
    let mut idx: u64 = 0;
    while idx < plan.total_samples {
        accept_sample(&mut frames, Some(sample(5000 + idx * plan.interval_ms)));
        let go_on = rec.record_tick(plan.session, idx);
        if idx == 0 {
            let st = rec.get_recording_status();
            assert!(st.samples_collected >= 1);
            assert_eq!(st.elapsed_seconds, Some(0));
        }
        assert!(go_on);
        idx += 1;
    }
    assert_eq!(rec.get_recording_status().samples_collected, 20);
    assert_eq!(rec.get_recording_status().elapsed_seconds, Some(1));
    rec.finish(plan.session);
    assert!(!rec.get_recording_status().is_recording);
    assert_eq!(frames.len(), 20);
    for w in frames.windows(2) {
        assert!(w[0].timestamp < w[1].timestamp);
    }
    assert!(frames.iter().all(|f| f.device_index == 0));
}

#[test]
fn failed_samples_are_skipped() {
    let mut frames = Vec::new();
    accept_sample(&mut frames, None);
    assert!(frames.is_empty());
    accept_sample(&mut frames, Some(sample(1)));
    accept_sample(&mut frames, None);
    assert_eq!(frames.len(), 1);
    assert_eq!(frames[0].power_mw, 0);
}

#[test]
fn stopped_session_loop_ends_and_recorder_frees() {
    let mut rec = Recorder::new();
    let plan = rec.start_at(10, 1, metrics(), 100).unwrap();
    assert!(rec.record_tick(plan.session, 0));
    rec.stop_interval_recording().unwrap();
    assert!(!rec.record_tick(plan.session, 1));
    assert_eq!(rec.get_recording_status().samples_collected, 2);
    rec.finish(plan.session);
    let next = rec.start_at(1, 1, Vec::new(), 100).unwrap();
    assert_eq!(next.session_id, "rec_101");
    assert!(next.session > plan.session);
}

#[test]
fn stale_loop_cannot_touch_new_session() {
    let mut rec = Recorder::new();
    let old = rec.start_at(10, 1, metrics(), 100).unwrap();
    rec.stop_interval_recording().unwrap();
    let new = rec.start_at(10, 1, metrics(), 200).unwrap();
    assert!(!rec.record_tick(old.session, 5));
    rec.finish(old.session);
    assert!(rec.is_recording());
    assert_eq!(rec.get_recording_status().samples_collected, 0);
    assert!(rec.record_tick(new.session, 0));
}

#[test]
fn sleep_compensates_for_tick_time() {
    assert_eq!(sleep_after_tick(100, 30), 70);
    assert_eq!(sleep_after_tick(100, 100), 0);
    assert_eq!(sleep_after_tick(100, 250), 0);
    assert_eq!(sleep_after_tick(0, 0), 0);
}

#[test]
fn start_with_clock_names_session() {
    let mut rec = Recorder::new();
    let plan = rec.start_interval_recording(1, 4, metrics()).unwrap();
    assert!(plan.session_id.starts_with("rec_"));
    assert_eq!(plan.interval_ms, 250);
    assert_eq!(plan.total_samples, 4);
    assert!(rec.is_recording());
}

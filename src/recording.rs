//! The recording session: a single-flight, time-bounded lifecycle with its
//! status snapshot, the schedule of its loop and the decisions of each tick.
use vstd::prelude::*;
use vstd::string::*;
use crate::clock::now_ms;
use crate::frame::{create_simple_telemetry_frame, enriched, RawSample, TelemetryFrame};
use crate::text::{decimal, decimal_string};

verus! {

/// Why a recording operation was refused.
#[derive(Clone, Copy, Debug, PartialEq, Eq, Structural)]
pub enum RecordingError {
    /// A session is already recording.
    AlreadyRecording,
    /// The sample rate is zero.
    InvalidSampleRate,
    /// Duration times rate does not fit the sample counter.
    TooManySamples,
    /// No session is recording.
    NotRecording,
}

impl RecordingError {
    /// A human-readable description of the error.
    pub fn message(&self) -> (r: String)
        ensures
            r@ == error_message(*self),
    {
        match self {
            RecordingError::AlreadyRecording => String::from_str("Recording already in progress"),
            RecordingError::InvalidSampleRate => String::from_str("Sample rate must be at least 1 Hz"),
            RecordingError::TooManySamples => String::from_str("Recording duration times sample rate is too large"),
            RecordingError::NotRecording => String::from_str("No active recording to stop"),
        }
    }
}

pub open spec fn error_message(e: RecordingError) -> Seq<char> {
    match e {
        RecordingError::AlreadyRecording => "Recording already in progress"@,
        RecordingError::InvalidSampleRate => "Sample rate must be at least 1 Hz"@,
        RecordingError::TooManySamples => "Recording duration times sample rate is too large"@,
        RecordingError::NotRecording => "No active recording to stop"@,
    }
}

/// A snapshot of the recording state.
pub struct RecordingStatus {
    pub is_recording: bool,
    pub session_id: Option<String>,
    pub duration_seconds: Option<u64>,
    pub elapsed_seconds: Option<u64>,
    pub sample_rate_hz: Option<u64>,
    pub metrics: Vec<String>,
    pub samples_collected: u64,
    pub output_file: Option<String>,
}

/// A recording status as contracts see it.
pub struct StatusView {
    pub is_recording: bool,
    pub session_id: Option<Seq<char>>,
    pub duration_seconds: Option<u64>,
    pub elapsed_seconds: Option<u64>,
    pub sample_rate_hz: Option<u64>,
    pub metrics: Seq<Seq<char>>,
    pub samples_collected: u64,
    pub output_file: Option<Seq<char>>,
}

pub open spec fn opt_string_view(s: Option<String>) -> Option<Seq<char>> {
    match s {
        Some(v) => Some(v@),
        None => None,
    }
}

pub open spec fn strings_view(v: Seq<String>) -> Seq<Seq<char>> {
    v.map_values(|s: String| s@)
}

impl View for RecordingStatus {
    type V = StatusView;

    open spec fn view(&self) -> StatusView {
        StatusView {
            is_recording: self.is_recording,
            session_id: opt_string_view(self.session_id),
            duration_seconds: self.duration_seconds,
            elapsed_seconds: self.elapsed_seconds,
            sample_rate_hz: self.sample_rate_hz,
            metrics: strings_view(self.metrics@),
            samples_collected: self.samples_collected,
            output_file: opt_string_view(self.output_file),
        }
    }
}

/// The status reported when no session exists.
pub open spec fn idle_status() -> StatusView {
    StatusView {
        is_recording: false,
        session_id: None,
        duration_seconds: None,
        elapsed_seconds: None,
        sample_rate_hz: None,
        metrics: Seq::empty(),
        samples_collected: 0,
        output_file: None,
    }
}

/// The identifier of the session started at `id_ms`.
pub open spec fn session_id_of(id_ms: u64) -> Seq<char> {
    "rec_"@ + decimal(id_ms as nat)
}

/// The file the session started at `id_ms` is written to.
pub open spec fn output_path_of(id_ms: u64) -> Seq<char> {
    "recordings/gpu_recording_"@ + session_id_of(id_ms) + ".json"@
}

/// The timestamp that names a session started at `now` after one named `last`:
/// the clock reading, moved past `last` so that names never repeat.
pub open spec fn next_id_ms(last: u64, now: u64) -> u64 {
    if now > last { now } else if last < u64::MAX { (last + 1) as u64 } else { last }
}

/// The status a session starts with.
pub open spec fn initial_status(id_ms: u64, duration_seconds: u64, sample_rate_hz: u64, metrics: Seq<Seq<char>>) -> StatusView {
    StatusView {
        is_recording: true,
        session_id: Some(session_id_of(id_ms)),
        duration_seconds: Some(duration_seconds),
        elapsed_seconds: Some(0),
        sample_rate_hz: Some(sample_rate_hz),
        metrics,
        samples_collected: 0,
        output_file: Some(output_path_of(id_ms)),
    }
}

/// What a started recording loop runs by.
pub struct RecordingPlan {
    /// The session's token: the timestamp that names it.
    pub session: u64,
    pub session_id: String,
    pub output_file: String,
    pub duration_seconds: u64,
    pub sample_rate_hz: u64,
    /// Milliseconds between samples.
    pub interval_ms: u64,
    /// How many samples the session takes if it is not stopped.
    pub total_samples: u64,
}

/// The recorder as contracts see it: the current session's status, if any,
/// and the timestamp that named the latest session.
pub struct RecorderView {
    pub status: Option<StatusView>,
    pub last_id_ms: u64,
}

/// A session is recording.
pub open spec fn is_active(v: RecorderView) -> bool {
    v.status matches Some(s) && s.is_recording
}

/// The recorder is well formed: a status belongs to the latest session and
/// carries that session's configuration.
pub open spec fn recorder_wf(v: RecorderView) -> bool {
    v.status matches Some(s) ==> {
        &&& s.session_id == Some(session_id_of(v.last_id_ms))
        &&& s.output_file == Some(output_path_of(v.last_id_ms))
        &&& s.duration_seconds is Some
        &&& s.elapsed_seconds is Some
        &&& s.sample_rate_hz matches Some(r) && r > 0
    }
}

/// What starting a recording does.
pub open spec fn start_outcome(
    pre: RecorderView,
    duration_seconds: u64,
    sample_rate_hz: u64,
    metrics: Seq<Seq<char>>,
    now: u64,
    post: RecorderView,
    r: Result<RecordingPlan, RecordingError>,
) -> bool {
    if is_active(pre) {
        r == Err::<RecordingPlan, RecordingError>(RecordingError::AlreadyRecording) && post == pre
    } else if sample_rate_hz == 0 {
        r == Err::<RecordingPlan, RecordingError>(RecordingError::InvalidSampleRate) && post == pre
    } else if duration_seconds * sample_rate_hz > u64::MAX {
        r == Err::<RecordingPlan, RecordingError>(RecordingError::TooManySamples) && post == pre
    } else {
        let id = next_id_ms(pre.last_id_ms, now);
        &&& r matches Ok(plan) && {
            &&& plan.session == id
            &&& plan.session_id@ == session_id_of(id)
            &&& plan.output_file@ == output_path_of(id)
            &&& plan.duration_seconds == duration_seconds
            &&& plan.sample_rate_hz == sample_rate_hz
            &&& plan.interval_ms == 1000u64 / sample_rate_hz
            &&& plan.total_samples == duration_seconds * sample_rate_hz
        }
        &&& post.last_id_ms == id
        &&& post.status == Some(initial_status(id, duration_seconds, sample_rate_hz, metrics))
    }
}

/// What stopping a recording does: an active session is marked stopped and
/// its output path returned; otherwise nothing changes.
pub open spec fn stop_outcome(pre: RecorderView, post: RecorderView, r: Result<String, RecordingError>) -> bool {
    if is_active(pre) {
        let s = pre.status.unwrap();
        &&& r matches Ok(path) && path@ == s.output_file.unwrap()
        &&& post == RecorderView { status: Some(StatusView { is_recording: false, ..s }), ..pre }
    } else {
        r == Err::<String, RecordingError>(RecordingError::NotRecording) && post == pre
    }
}

/// The status a query reports.
pub open spec fn reported_status(v: RecorderView) -> StatusView {
    match v.status {
        Some(s) => s,
        None => idle_status(),
    }
}

/// What recording sample `sample_idx` of session `session` does: the
/// session's counters advance and the loop goes on while it is recording;
/// for a session that is no longer current, nothing changes and the loop ends.
pub open spec fn tick_outcome(pre: RecorderView, session: u64, sample_idx: u64, post: RecorderView, r: bool) -> bool {
    match pre.status {
        Some(s) if pre.last_id_ms == session => {
            let rate = s.sample_rate_hz.unwrap();
            &&& post == RecorderView {
                status: Some(StatusView {
                    samples_collected: (sample_idx + 1) as u64,
                    elapsed_seconds: Some((sample_idx / rate) as u64),
                    ..s
                }),
                ..pre
            }
            &&& r == s.is_recording
        },
        _ => post == pre && !r,
    }
}

/// What ending session `session` does: its status is cleared, so that a new
/// session can start; a status of another session is left alone.
pub open spec fn finish_outcome(pre: RecorderView, session: u64, post: RecorderView) -> bool {
    if pre.status is Some && pre.last_id_ms == session {
        post == RecorderView { status: None, ..pre }
    } else {
        post == pre
    }
}

fn clone_strings(v: &Vec<String>) -> (r: Vec<String>)
    ensures
        strings_view(r@) == strings_view(v@),
{
    let mut out: Vec<String> = Vec::new();
    let mut i: usize = 0;
    while i < v.len()
        invariant
            i <= v@.len(),
            out@.len() == i,
            forall|k: int| 0 <= k < i ==> (#[trigger] out@[k])@ == v@[k]@,
        decreases v@.len() - i,
    {
        let c = v[i].clone();
        out.push(c);
        i = i + 1;
    }
    assert(strings_view(out@) =~= strings_view(v@));
    out
}

fn clone_opt_string(s: &Option<String>) -> (r: Option<String>)
    ensures
        opt_string_view(r) == opt_string_view(*s),
{
    match s {
        Some(v) => Some(v.clone()),
        None => None,
    }
}

impl RecordingStatus {
    /// A copy of the status.
    pub fn snapshot(&self) -> (r: RecordingStatus)
        ensures
            r@ == self@,
    {
        RecordingStatus {
            is_recording: self.is_recording,
            session_id: clone_opt_string(&self.session_id),
            duration_seconds: self.duration_seconds,
            elapsed_seconds: self.elapsed_seconds,
            sample_rate_hz: self.sample_rate_hz,
            metrics: clone_strings(&self.metrics),
            samples_collected: self.samples_collected,
            output_file: clone_opt_string(&self.output_file),
        }
    }

    /// The status of a recorder with no session.
    pub fn idle() -> (r: RecordingStatus)
        ensures
            r@ == idle_status(),
    {
        let r = RecordingStatus {
            is_recording: false,
            session_id: None,
            duration_seconds: None,
            elapsed_seconds: None,
            sample_rate_hz: None,
            metrics: Vec::new(),
            samples_collected: 0,
            output_file: None,
        };
        assert(r@.metrics =~= Seq::<Seq<char>>::empty());
        r
    }
}

/// Owns the single recording session of a process, if there is one.
pub struct Recorder {
    status: Option<RecordingStatus>,
    last_id_ms: u64,
}

impl View for Recorder {
    type V = RecorderView;

    closed spec fn view(&self) -> RecorderView {
        RecorderView {
            status: match self.status {
                Some(s) => Some(s@),
                None => None,
            },
            last_id_ms: self.last_id_ms,
        }
    }
}

impl Recorder {
    /// A recorder with no session.
    pub fn new() -> (r: Recorder)
        ensures
            r@.status is None,
            r@.last_id_ms == 0,
            recorder_wf(r@),
    {
        Recorder { status: None, last_id_ms: 0 }
    }

    /// Whether a session is recording.
    pub fn is_recording(&self) -> (r: bool)
        ensures
            r == is_active(self@),
    {
        match &self.status {
            Some(s) => s.is_recording,
            None => false,
        }
    }

    /// Starts a session at clock reading `now` (ms since the epoch). Fails,
    /// changing nothing, while a session is recording, when the rate is zero,
    /// or when the sample count does not fit; otherwise records the initial
    /// status and returns what the recording loop runs by.
    pub fn start_at(
        &mut self,
        duration_seconds: u64,
        sample_rate_hz: u64,
        metrics: Vec<String>,
        now: u64,
    ) -> (r: Result<RecordingPlan, RecordingError>)
        requires
            recorder_wf(old(self)@),
        ensures
            start_outcome(old(self)@, duration_seconds, sample_rate_hz, strings_view(metrics@), now, final(self)@, r),
            recorder_wf(final(self)@),
    {
        if self.is_recording() {
            return Err(RecordingError::AlreadyRecording);
        }
        if sample_rate_hz == 0 {
            return Err(RecordingError::InvalidSampleRate);
        }
        let total_samples: u64 = match duration_seconds.checked_mul(sample_rate_hz) {
            Some(t) => t,
            None => {
                return Err(RecordingError::TooManySamples);
            },
        };
        let id: u64 = if now > self.last_id_ms {
            now
        } else if self.last_id_ms < u64::MAX {
            self.last_id_ms + 1
        } else {
            self.last_id_ms
        };
        let mut session_id = String::from_str("rec_");
        let digits = decimal_string(id);
        session_id.append(digits.as_str());
        let mut output_file = String::from_str("recordings/gpu_recording_");
        output_file.append(session_id.as_str());
        output_file.append(".json");
        let status = RecordingStatus {
            is_recording: true,
            session_id: Some(session_id.clone()),
            duration_seconds: Some(duration_seconds),
            elapsed_seconds: Some(0),
            sample_rate_hz: Some(sample_rate_hz),
            metrics,
            samples_collected: 0,
            output_file: Some(output_file.clone()),
        };
        self.status = Some(status);
        self.last_id_ms = id;
        Ok(RecordingPlan {
            session: id,
            session_id,
            output_file,
            duration_seconds,
            sample_rate_hz,
            interval_ms: 1000 / sample_rate_hz,
            total_samples,
        })
    }

    /// Starts a session named after the current time; see `start_at`.
    pub fn start_interval_recording(
        &mut self,
        duration_seconds: u64,
        sample_rate_hz: u64,
        metrics: Vec<String>,
    ) -> (r: Result<RecordingPlan, RecordingError>)
        requires
            recorder_wf(old(self)@),
        ensures
            exists|now: u64|
                start_outcome(old(self)@, duration_seconds, sample_rate_hz, strings_view(metrics@), now, final(self)@, r),
            recorder_wf(final(self)@),
    {
        let now = now_ms();
        self.start_at(duration_seconds, sample_rate_hz, metrics, now)
    }

    /// Marks the recording session stopped and returns its output path; its
    /// loop ends at its next tick and still writes what it collected.
    pub fn stop_interval_recording(&mut self) -> (r: Result<String, RecordingError>)
        requires
            recorder_wf(old(self)@),
        ensures
            stop_outcome(old(self)@, final(self)@, r),
            recorder_wf(final(self)@),
    {
        match &mut self.status {
            Some(s) => {
                if s.is_recording {
                    s.is_recording = false;
                    let path = match &s.output_file {
                        Some(p) => p.clone(),
                        None => String::new(),
                    };
                    Ok(path)
                } else {
                    Err(RecordingError::NotRecording)
                }
            },
            None => Err(RecordingError::NotRecording),
        }
    }

    /// The current status, or the idle status when there is no session.
    pub fn get_recording_status(&self) -> (r: RecordingStatus)
        ensures
            r@ == reported_status(self@),
    {
        match &self.status {
            Some(s) => s.snapshot(),
            None => RecordingStatus::idle(),
        }
    }

    /// Records that sample `sample_idx` of session `session` was taken and
    /// says whether the loop should go on.
    pub fn record_tick(&mut self, session: u64, sample_idx: u64) -> (r: bool)
        requires
            recorder_wf(old(self)@),
            sample_idx < u64::MAX,
        ensures
            tick_outcome(old(self)@, session, sample_idx, final(self)@, r),
            recorder_wf(final(self)@),
    {
        if self.last_id_ms != session {
            return false;
        }
        match &mut self.status {
            Some(s) => {
                let rate: u64 = match s.sample_rate_hz {
                    Some(v) => v,
                    None => 1,
                };
                s.samples_collected = sample_idx + 1;
                s.elapsed_seconds = Some(sample_idx / rate);
                s.is_recording
            },
            None => false,
        }
    }

    /// Clears the status of session `session`, however its loop ended.
    pub fn finish(&mut self, session: u64)
        requires
            recorder_wf(old(self)@),
        ensures
            finish_outcome(old(self)@, session, final(self)@),
            recorder_wf(final(self)@),
    {
        if self.status.is_some() && self.last_id_ms == session {
            self.status = None;
        }
    }
}

/// Adds the frame of a reading of device 0 to a session's frames; a failed
/// reading skips this sample and adds nothing.
pub fn accept_sample(frames: &mut Vec<TelemetryFrame>, reading: Option<RawSample>)
    ensures
        match reading {
            Some(raw) => {
                &&& final(frames)@.len() == old(frames)@.len() + 1
                &&& final(frames)@.subrange(0, old(frames)@.len() as int) == old(frames)@
                &&& enriched(final(frames)@.last(), raw, 0)
            },
            None => final(frames)@ == old(frames)@,
        },
{
    match reading {
        Some(raw) => {
            let frame = create_simple_telemetry_frame(&raw, 0);
            frames.push(frame);
            assert(frames@.subrange(0, frames@.len() - 1) =~= old(frames)@);
        },
        None => {},
    }
}

/// How long the loop sleeps after a tick that took `spent_ms`: what is left
/// of the interval, or nothing when the tick overran it.
pub fn sleep_after_tick(interval_ms: u64, spent_ms: u64) -> (r: u64)
    ensures
        r == (if spent_ms < interval_ms { interval_ms - spent_ms } else { 0 }),
{
    if spent_ms < interval_ms {
        interval_ms - spent_ms
    } else {
        0
    }
}

/// Single flight: while a session is recording, a start fails with
/// `AlreadyRecording` and leaves the session's status as it was.
pub proof fn start_while_recording_is_refused(
    pre: RecorderView,
    post: RecorderView,
    duration_seconds: u64,
    sample_rate_hz: u64,
    metrics: Seq<Seq<char>>,
    now: u64,
    r: Result<RecordingPlan, RecordingError>,
)
    requires
        is_active(pre),
        start_outcome(pre, duration_seconds, sample_rate_hz, metrics, now, post, r),
    ensures
        r == Err::<RecordingPlan, RecordingError>(RecordingError::AlreadyRecording),
        post.status == pre.status,
        reported_status(post) == reported_status(pre),
{
}

/// After a successful start, a second start fails and keeps the first
/// session's status.
pub proof fn second_start_is_refused(
    v0: RecorderView,
    v1: RecorderView,
    v2: RecorderView,
    d1: u64,
    rate1: u64,
    m1: Seq<Seq<char>>,
    now1: u64,
    r1: Result<RecordingPlan, RecordingError>,
    d2: u64,
    rate2: u64,
    m2: Seq<Seq<char>>,
    now2: u64,
    r2: Result<RecordingPlan, RecordingError>,
)
    requires
        start_outcome(v0, d1, rate1, m1, now1, v1, r1),
        r1 is Ok,
        start_outcome(v1, d2, rate2, m2, now2, v2, r2),
    ensures
        r2 == Err::<RecordingPlan, RecordingError>(RecordingError::AlreadyRecording),
        v2 == v1,
{
}

/// A zero sample rate is refused before any loop could start: no plan is
/// handed out and nothing changes.
pub proof fn zero_rate_is_refused(
    pre: RecorderView,
    post: RecorderView,
    duration_seconds: u64,
    metrics: Seq<Seq<char>>,
    now: u64,
    r: Result<RecordingPlan, RecordingError>,
)
    requires
        start_outcome(pre, duration_seconds, 0, metrics, now, post, r),
    ensures
        r is Err,
        post == pre,
        !is_active(pre) ==> r == Err::<RecordingPlan, RecordingError>(RecordingError::InvalidSampleRate),
{
}

/// Stopping fails when no session is recording; stopping a recording
/// session succeeds, and the status reported afterwards is not recording.
pub proof fn stop_outcome_by_activity(pre: RecorderView, post: RecorderView, r: Result<String, RecordingError>)
    requires
        stop_outcome(pre, post, r),
    ensures
        !is_active(pre) ==> r == Err::<String, RecordingError>(RecordingError::NotRecording) && post == pre,
        is_active(pre) ==> r is Ok,
        !is_active(post),
        !reported_status(post).is_recording,
{
}

/// A stopped session's loop ends at its next tick.
pub proof fn stopped_session_ends_at_next_tick(
    v0: RecorderView,
    v1: RecorderView,
    v2: RecorderView,
    stopped: Result<String, RecordingError>,
    sample_idx: u64,
    go_on: bool,
)
    requires
        is_active(v0),
        stop_outcome(v0, v1, stopped),
        tick_outcome(v1, v0.last_id_ms, sample_idx, v2, go_on),
    ensures
        !go_on,
{
}

/// A recording session's first tick reports one sample collected and zero
/// seconds elapsed, and the session goes on.
pub proof fn first_tick_progress(
    v0: RecorderView,
    v1: RecorderView,
    v2: RecorderView,
    duration_seconds: u64,
    sample_rate_hz: u64,
    metrics: Seq<Seq<char>>,
    now: u64,
    r: Result<RecordingPlan, RecordingError>,
    go_on: bool,
)
    requires
        start_outcome(v0, duration_seconds, sample_rate_hz, metrics, now, v1, r),
        r is Ok,
        tick_outcome(v1, r.unwrap().session, 0, v2, go_on),
    ensures
        go_on,
        reported_status(v2).samples_collected == 1,
        reported_status(v2).elapsed_seconds == Some(0u64),
        r.unwrap().total_samples == duration_seconds * sample_rate_hz,
{
}

/// Once a session's loop has finished, however it ended, a new session with
/// a valid configuration can start.
pub proof fn finished_session_frees_recorder(
    v0: RecorderView,
    v1: RecorderView,
    v2: RecorderView,
    session: u64,
    duration_seconds: u64,
    sample_rate_hz: u64,
    metrics: Seq<Seq<char>>,
    now: u64,
    r: Result<RecordingPlan, RecordingError>,
)
    requires
        v0.status is Some,
        session == v0.last_id_ms,
        finish_outcome(v0, session, v1),
        sample_rate_hz > 0,
        duration_seconds * sample_rate_hz <= u64::MAX,
        start_outcome(v1, duration_seconds, sample_rate_hz, metrics, now, v2, r),
    ensures
        v1.status is None,
        r is Ok,
        is_active(v2),
{
}

/// Sessions get fresh tokens: a started session's token exceeds every
/// earlier one, so the loop of an earlier session cannot touch it.
pub proof fn session_tokens_increase(
    pre: RecorderView,
    post: RecorderView,
    duration_seconds: u64,
    sample_rate_hz: u64,
    metrics: Seq<Seq<char>>,
    now: u64,
    r: Result<RecordingPlan, RecordingError>,
)
    requires
        start_outcome(pre, duration_seconds, sample_rate_hz, metrics, now, post, r),
        r is Ok,
        pre.last_id_ms < u64::MAX,
    ensures
        r.unwrap().session > pre.last_id_ms,
        post.last_id_ms == r.unwrap().session,
{
}

} // verus!

//! The life of a step's Job: start, watch, finish, and the events that report it.
use vstd::prelude::*;
use crate::k8s_model::{opt_pairs_view, opt_str_view};
use crate::model::JobMetadata;
use crate::naming::{job_name, job_name_spec};
use crate::pod_metrics::opt_view;
use crate::text::{owned, u64_text, decimal_text};
use crate::version::{check_version_ok, version_error_text, VersionCheckError};

verus! {

/// What a finished Job reports.
pub struct JobMetrics {
    pub exit_code: Option<i32>,
    pub attempts: i32,
    pub duration_ms: u64,
    pub latency_ms: u64,
    /// Storage name and content hash, when the worker parked storages.
    pub storage_hashes: Option<Vec<(String, String)>>,
    /// Artifact name and its metadata as JSON text.
    pub artifacts: Option<Vec<(String, String)>>,
    /// Report name and the collected report as JSON text.
    pub test_reports: Option<Vec<(String, String)>>,
}

impl JobMetrics {
    /// No exit code, no attempts, nothing collected.
    pub fn empty() -> (m: JobMetrics)
        ensures
            m.exit_code is None && m.attempts == 0 && m.duration_ms == 0 && m.latency_ms == 0,
            m.storage_hashes is None && m.artifacts is None && m.test_reports is None,
    {
        JobMetrics {
            exit_code: None,
            attempts: 0,
            duration_ms: 0,
            latency_ms: 0,
            storage_hashes: None,
            artifacts: None,
            test_reports: None,
        }
    }
}

/// How a Job ended.
pub enum JobState {
    Succeeded(JobMetrics),
    Failed(String, JobMetrics),
}

/// The Job has not been submitted yet.
pub struct Initialized;

/// The Job runs under `job_name` since `dispatched_at_ns`.
pub struct Running {
    pub job_name: String,
    pub dispatched_at_ns: i64,
}

/// The Job is over.
pub struct Finished {
    pub result: JobState,
}

/// A step's Job in one of its states.
pub struct K8sJobMachine<S> {
    pub metadata: JobMetadata,
    pub state: S,
}

/// Either the Job runs, or it ended before it could.
pub enum StartResult {
    Running(K8sJobMachine<Running>),
    Failed(K8sJobMachine<Finished>),
}

/// What to do to start a Job.
pub enum StartPlan {
    /// Submit a Job under this name.
    Create { machine: K8sJobMachine<Initialized>, job_name: String },
    /// Do not submit: the step cannot run here.
    Failed(K8sJobMachine<Finished>),
}

/// How the API server answered the submission of a Job.
pub enum CreateOutcome {
    Created,
    /// Refused with an HTTP status (when it gave one) and the error as text.
    Rejected { code: Option<u16>, error: String },
}

impl K8sJobMachine<Initialized> {
    /// A machine for a step whose Job is not submitted yet.
    pub fn new(metadata: JobMetadata) -> (m: Self)
        ensures
            m.metadata == metadata,
    {
        K8sJobMachine { metadata, state: Initialized }
    }

    /// Takes over a Job found running in the cluster; it counts as dispatched when the
    /// task was received.
    pub fn adopt(self, job_name: String) -> (m: K8sJobMachine<Running>)
        ensures
            m.metadata == self.metadata,
            m.state.job_name == job_name,
            m.state.dispatched_at_ns == self.metadata.received_at_ns,
    {
        let at = self.metadata.received_at_ns;
        K8sJobMachine { metadata: self.metadata, state: Running { job_name, dispatched_at_ns: at } }
    }

    /// Decides how to start: a `RunK8sJob` step whose minimum version the cluster does not
    /// meet fails with `Version mismatch: ...`; otherwise the Job is to be created under its
    /// name. `minimum_version` is the one the step's spec asks for, if it reads as a
    /// Kubernetes job spec.
    pub fn plan_start(self, minimum_version: Option<String>) -> (p: StartPlan)
        ensures
            match p {
                StartPlan::Create { machine, job_name } => machine.metadata == self.metadata && job_name@
                    == job_name_spec(self.metadata.step_dsl.name@, self.metadata.step_id) && !(
                self.metadata.step_dsl.step_type@ == "RunK8sJob"@ && minimum_version is Some && !check_version_ok(
                    self.metadata.cluster_version@,
                    minimum_version->0@,
                )),
                StartPlan::Failed(m) => {
                    &&& m.metadata == self.metadata
                    &&& self.metadata.step_dsl.step_type@ == "RunK8sJob"@
                    &&& minimum_version is Some
                    &&& !check_version_ok(self.metadata.cluster_version@, minimum_version->0@)
                    &&& m.state.result matches JobState::Failed(reason, metrics) && reason@ == "Version mismatch: "@
                        + version_error_text(self.metadata.cluster_version@, minimum_version->0@)
                        && metrics.exit_code is None && metrics.attempts == 0 && metrics.duration_ms == 0
                        && metrics.latency_ms == 0 && metrics.storage_hashes is None && metrics.artifacts is None
                        && metrics.test_reports is None
                },
            },
    {
        let name = job_name(self.metadata.step_dsl.name.as_str(), self.metadata.step_id);
        if self.metadata.step_dsl.step_type == owned("RunK8sJob") {
            if let Some(min_v) = &minimum_version {
                match Self::do_check_version(self.metadata.cluster_version.as_str(), min_v.as_str()) {
                    Ok(()) => {},
                    Err(e) => {
                        let reason = owned("Version mismatch: ");
                        let reason = reason.concat(e.message().as_str());
                        proof {
                            reveal_strlit("Version mismatch: ");
                        }
                        return StartPlan::Failed(
                            K8sJobMachine {
                                metadata: self.metadata,
                                state: Finished { result: JobState::Failed(reason, JobMetrics::empty()) },
                            },
                        );
                    },
                }
            }
        }
        StartPlan::Create { machine: self, job_name: name }
    }

    /// Continues after the submission: created, or refused as already existing (HTTP 409),
    /// the Job runs from `now_ns`; any other refusal ends it with `K8s API error: ...`.
    pub fn finish_start(self, job_name: String, outcome: CreateOutcome, now_ns: i64) -> (r: StartResult)
        ensures
            match outcome {
                CreateOutcome::Created => r matches StartResult::Running(m) && m.metadata == self.metadata
                    && m.state.job_name == job_name && m.state.dispatched_at_ns == now_ns,
                CreateOutcome::Rejected { code, error } => if code == Some(409u16) {
                    r matches StartResult::Running(m) && m.metadata == self.metadata && m.state.job_name
                        == job_name && m.state.dispatched_at_ns == now_ns
                } else {
                    r matches StartResult::Failed(m) && (m.metadata == self.metadata && (m.state.result matches JobState::Failed(
                        reason,
                        metrics,
                    ) && reason@ == "K8s API error: "@ + error@ && metrics.exit_code is None && metrics.attempts == 0))
                },
            },
    {
        match outcome {
            CreateOutcome::Created => StartResult::Running(
                K8sJobMachine { metadata: self.metadata, state: Running { job_name, dispatched_at_ns: now_ns } },
            ),
            CreateOutcome::Rejected { code, error } => {
                if code == Some(409u16) {
                    StartResult::Running(
                        K8sJobMachine { metadata: self.metadata, state: Running { job_name, dispatched_at_ns: now_ns } },
                    )
                } else {
                    let reason = owned("K8s API error: ");
                    let reason = reason.concat(error.as_str());
                    StartResult::Failed(
                        K8sJobMachine {
                            metadata: self.metadata,
                            state: Finished { result: JobState::Failed(reason, JobMetrics::empty()) },
                        },
                    )
                }
            },
        }
    }
}

impl K8sJobMachine<Finished> {
    /// The Job's result.
    pub fn into_result(self) -> (r: JobState)
        ensures
            r == self.state.result,
    {
        self.state.result
    }
}

// ---------------------------------------------------------------- reading the Job's status

/// A condition reported on a Job.
pub struct JobCondition {
    pub type_: String,
    pub message: Option<String>,
}

/// The status of a Job, as far as the runner reads it.
pub struct JobStatusInfo {
    pub succeeded: Option<i32>,
    pub failed: Option<i32>,
    pub conditions: Option<Vec<JobCondition>>,
}

/// What a Job's status says about its end.
pub enum JobOutcome {
    /// Some pod succeeded.
    Succeeded,
    /// Some pod failed and the Job is marked `Failed`, with the condition's message.
    Failed { job_reason: String },
    /// Not over yet.
    Pending,
}

pub open spec fn count_positive(o: Option<i32>) -> bool {
    match o {
        Some(n) => n > 0,
        None => false,
    }
}

/// The index of the first `Failed` condition, if any.
pub open spec fn first_failed(cs: Seq<JobCondition>) -> Option<int>
    decreases cs.len(),
{
    if cs.len() == 0 {
        None
    } else if cs[0].type_@ == "Failed"@ {
        Some(0)
    } else {
        match first_failed(cs.drop_first()) {
            Some(i) => Some(i + 1),
            None => None,
        }
    }
}

pub open spec fn conditions_view(o: Option<Vec<JobCondition>>) -> Seq<JobCondition> {
    match o {
        Some(v) => v@,
        None => Seq::empty(),
    }
}

/// The reason of a failed Job: its first `Failed` condition's message, or `Job failed`.
pub open spec fn job_failure_reason(cs: Seq<JobCondition>) -> Seq<char> {
    match first_failed(cs) {
        Some(i) => match cs[i].message {
            Some(m) => m@,
            None => "Job failed"@,
        },
        None => "Job failed"@,
    }
}

/// The outcome `classify_job_status` reports.
pub open spec fn outcome_spec(status: Option<JobStatusInfo>) -> Option<Option<Seq<char>>> {
    // None: pending; Some(None): succeeded; Some(Some(reason)): failed
    match status {
        None => None,
        Some(s) => if count_positive(s.succeeded) {
            Some(None)
        } else if count_positive(s.failed) && first_failed(conditions_view(s.conditions)) is Some {
            Some(Some(job_failure_reason(conditions_view(s.conditions))))
        } else {
            None
        },
    }
}

proof fn lemma_first_failed_bound(cs: Seq<JobCondition>)
    ensures
        first_failed(cs) matches Some(i) ==> 0 <= i < cs.len() && cs[i].type_@ == "Failed"@,
    decreases cs.len(),
{
    if cs.len() > 0 && cs[0].type_@ != "Failed"@ {
        lemma_first_failed_bound(cs.drop_first());
    }
}

/// A Job counts as succeeded exactly when some pod succeeded; a Job with no succeeded pod,
/// a failed pod and a `Failed` condition has failed, with the message of its first `Failed`
/// condition as the reason (`Job failed` when that condition has no message); a Job with
/// neither a succeeded nor a failed pod is still pending.
pub proof fn lemma_job_outcome_law(s: JobStatusInfo, k: int)
    ensures
        (outcome_spec(Some(s)) == Some(None::<Seq<char>>)) <==> (s.succeeded is Some && s.succeeded->0 > 0),
        ({
            let cs = conditions_view(s.conditions);
            &&& !(s.succeeded is Some && s.succeeded->0 > 0)
            &&& s.failed is Some && s.failed->0 > 0
            &&& 0 <= k < cs.len()
            &&& cs[k].type_@ == "Failed"@
            &&& forall|j: int| 0 <= j < k ==> cs[j].type_@ != "Failed"@
        }) ==> outcome_spec(Some(s)) == Some(Some(
            match conditions_view(s.conditions)[k].message {
                Some(m) => m@,
                None => "Job failed"@,
            },
        )),
        !(s.succeeded is Some && s.succeeded->0 > 0) && !(s.failed is Some && s.failed->0 > 0) ==> outcome_spec(
            Some(s),
        ) is None,
        !(s.succeeded is Some && s.succeeded->0 > 0) && (forall|j: int|
            0 <= j < conditions_view(s.conditions).len() ==> (#[trigger] conditions_view(s.conditions)[j]).type_@
                != "Failed"@) ==> outcome_spec(Some(s)) is None,
{
    let cs = conditions_view(s.conditions);
    lemma_first_failed_bound(cs);
    if 0 <= k < cs.len() && cs[k].type_@ == "Failed"@ && forall|j: int| 0 <= j < k ==> cs[j].type_@ != "Failed"@ {
        lemma_first_failed_at(cs, k);
    }
}

proof fn lemma_first_failed_at(cs: Seq<JobCondition>, k: int)
    requires
        0 <= k < cs.len(),
        cs[k].type_@ == "Failed"@,
        forall|j: int| 0 <= j < k ==> cs[j].type_@ != "Failed"@,
    ensures
        first_failed(cs) == Some(k),
    decreases k,
{
    if k > 0 {
        assert(cs[0].type_@ != "Failed"@);
        assert forall|j: int| 0 <= j < k - 1 implies cs.drop_first()[j].type_@ != "Failed"@ by {
            assert(cs.drop_first()[j] == cs[j + 1]);
        }
        lemma_first_failed_at(cs.drop_first(), k - 1);
    }
}

/// Reads a Job's status: succeeded when a pod succeeded; failed when a pod failed and a
/// `Failed` condition is set; otherwise still pending.
pub fn classify_job_status(status: &Option<JobStatusInfo>) -> (o: JobOutcome)
    ensures
        match outcome_spec(*status) {
            None => o is Pending,
            Some(None) => o is Succeeded,
            Some(Some(reason)) => o matches JobOutcome::Failed { job_reason } && job_reason@ == reason,
        },
{
    match status {
        None => JobOutcome::Pending,
        Some(s) => {
            let succeeded = match s.succeeded {
                Some(n) => n,
                None => 0,
            };
            if succeeded > 0 {
                return JobOutcome::Succeeded;
            }
            let failed = match s.failed {
                Some(n) => n,
                None => 0,
            };
            if failed <= 0 {
                return JobOutcome::Pending;
            }
            let empty: Vec<JobCondition> = Vec::new();
            let cs = match &s.conditions {
                Some(v) => v,
                None => &empty,
            };
            let ghost cv = conditions_view(s.conditions);
            assert(cs@ == cv);
            let failed_type = owned("Failed");
            let mut i: usize = 0;
            assert(cv.skip(0) =~= cv);
            while i < cs.len()
                invariant
                    i <= cs@.len(),
                    cs@ == cv,
                    cv == conditions_view(s.conditions),
                    !count_positive(s.succeeded),
                    count_positive(s.failed),
                    *status == Some(*s),
                    failed_type@ == "Failed"@,
                    forall|j: int| 0 <= j < i ==> cv[j].type_@ != "Failed"@,
                    first_failed(cv) == match first_failed(cv.skip(i as int)) {
                        Some(k) => Some(k + i),
                        None => None::<int>,
                    },
                decreases cs@.len() - i,
            {
                assert(cv.skip(i as int).drop_first() =~= cv.skip(i + 1));
                if cs[i].type_ == failed_type {
                    assert(cv.skip(i as int)[0] == cv[i as int]);
                    assert(first_failed(cv.skip(i as int)) == Some(0int));
                    assert(first_failed(cv) == Some(i as int));
                    let reason = match &cs[i].message {
                        Some(m) => m.clone(),
                        None => owned("Job failed"),
                    };
                    return JobOutcome::Failed { job_reason: reason };
                }
                i = i + 1;
            }
            assert(cv.skip(i as int) =~= Seq::<JobCondition>::empty());
            JobOutcome::Pending
        },
    }
}

/// The whole milliseconds from `earlier` to `later` (both in nanoseconds), and 0 when
/// `later` does not come after `earlier`.
pub open spec fn elapsed_ms(earlier: i64, later: i64) -> u64 {
    if later - earlier > 0 {
        ((later - earlier) / 1_000_000) as u64
    } else {
        0
    }
}

/// The whole milliseconds from `earlier` to `later`, never negative.
pub fn elapsed(earlier: i64, later: i64) -> (r: u64)
    ensures
        r == elapsed_ms(earlier, later),
{
    let d: i128 = later as i128 - earlier as i128;
    if d > 0 {
        let ms: i128 = d / 1_000_000;
        assert(0 <= ms <= u64::MAX);
        ms as u64
    } else {
        0
    }
}

/// What the pods of the Job told, when they could be read.
pub struct CollectedMetrics {
    /// `(exit code, attempts, failure reason)` from the pods.
    pub pod_metrics: Option<(Option<i32>, i32, Option<String>)>,
    pub storage_hashes: Option<Vec<(String, String)>>,
    pub artifacts: Option<Vec<(String, String)>>,
    pub test_reports: Option<Vec<(String, String)>>,
}

/// Turns a Job's outcome into its final state: a success defaults to exit code 0 and one
/// attempt when the pods cannot be read, a failure to no exit code and one attempt; the
/// failure reason is the pods' reason, else the Job's.
pub fn job_state_from(
    outcome: JobOutcome,
    collected: CollectedMetrics,
    received_at_ns: i64,
    dispatched_at_ns: i64,
    now_ns: i64,
) -> (r: Option<JobState>)
    ensures
        match outcome {
            JobOutcome::Pending => r is None,
            JobOutcome::Succeeded => r matches Some(JobState::Succeeded(m)) && m.latency_ms == elapsed_ms(
                received_at_ns,
                dispatched_at_ns,
            ) && m.duration_ms == elapsed_ms(dispatched_at_ns, now_ns) && match collected.pod_metrics {
                Some((e, a, _)) => m.exit_code == e && m.attempts == a,
                None => m.exit_code == Some(0i32) && m.attempts == 1,
            } && m.storage_hashes == collected.storage_hashes && m.artifacts == collected.artifacts
                && m.test_reports == collected.test_reports,
            JobOutcome::Failed { job_reason } => r matches Some(JobState::Failed(reason, m)) && m.latency_ms
                == elapsed_ms(received_at_ns, dispatched_at_ns) && m.duration_ms == elapsed_ms(
                dispatched_at_ns,
                now_ns,
            ) && match collected.pod_metrics {
                Some((e, a, pr)) => m.exit_code == e && m.attempts == a && reason@ == match pr {
                    Some(p) => p@,
                    None => job_reason@,
                },
                None => m.exit_code is None && m.attempts == 1 && reason@ == job_reason@,
            } && m.storage_hashes == collected.storage_hashes && m.artifacts == collected.artifacts
                && m.test_reports == collected.test_reports,
        },
{
    let latency_ms = elapsed(received_at_ns, dispatched_at_ns);
    let duration_ms = elapsed(dispatched_at_ns, now_ns);
    match outcome {
        JobOutcome::Pending => None,
        JobOutcome::Succeeded => {
            let (exit_code, attempts) = match collected.pod_metrics {
                Some((e, a, _)) => (e, a),
                None => (Some(0i32), 1i32),
            };
            Some(
                JobState::Succeeded(
                    JobMetrics {
                        exit_code,
                        attempts,
                        duration_ms,
                        latency_ms,
                        storage_hashes: collected.storage_hashes,
                        artifacts: collected.artifacts,
                        test_reports: collected.test_reports,
                    },
                ),
            )
        },
        JobOutcome::Failed { job_reason } => {
            let (exit_code, attempts, reason) = match collected.pod_metrics {
                Some((e, a, pr)) => (
                    e,
                    a,
                    match pr {
                        Some(p) => p,
                        None => job_reason,
                    },
                ),
                None => (None, 1i32, job_reason),
            };
            Some(
                JobState::Failed(
                    reason,
                    JobMetrics {
                        exit_code,
                        attempts,
                        duration_ms,
                        latency_ms,
                        storage_hashes: collected.storage_hashes,
                        artifacts: collected.artifacts,
                        test_reports: collected.test_reports,
                    },
                ),
            )
        },
    }
}

// ---------------------------------------------------------------- watching the Job

/// What the watch stream of a Job delivered.
pub enum StreamItem {
    /// The Job was added or modified: its status is to be read.
    Changed,
    /// The Job was deleted.
    Deleted { name: Option<String> },
    /// Any other event (bookmarks, errors reported as events).
    Other,
    /// The stream failed.
    Error,
    /// The stream ended (timeout).
    End,
}

/// What to do after an item of the stream.
pub enum WatchStep {
    /// Read the Job's status and finish if it is over.
    Process,
    /// Give up with this error.
    Stop(String),
    /// Wait for the next item.
    Next,
    /// Leave this stream.
    Reconnect,
}

/// After a stream is left: poll from now on, or re-read the Job and watch again.
pub enum AfterStream {
    FallBackToPolling,
    Refetch,
}

/// Consecutive failures of the watch streams of one Job.
pub struct WatchLoop {
    pub failures: u32,
}

/// The failure count after one more failed stream.
pub open spec fn failures_after_error(f: u32) -> u32 {
    if f < u32::MAX { (f + 1) as u32 } else { u32::MAX }
}

/// Three failed streams in a row, from any count, make the runner poll.
pub proof fn lemma_three_failures_poll(f: u32)
    ensures
        failures_after_error(failures_after_error(failures_after_error(f))) >= max_watch_failures(),
{
}

/// Fewer than three failed streams since the last delivered event keep the runner watching.
pub proof fn lemma_two_failures_keep_watching()
    ensures
        failures_after_error(failures_after_error(0)) < max_watch_failures(),
{
}

/// Streams may fail this many times in a row before the runner polls instead.
pub open spec fn max_watch_failures() -> u32 {
    3
}

impl WatchLoop {
    /// No failure yet.
    pub fn new() -> (w: Self)
        ensures
            w.failures == 0,
    {
        WatchLoop { failures: 0 }
    }

    /// Handles one item: any delivered event resets the failure count; a failed stream
    /// counts one more failure and is left; an ended stream is left.
    pub fn on_item(&mut self, item: StreamItem) -> (step: WatchStep)
        ensures
            match item {
                StreamItem::Changed => final(self).failures == 0 && step is Process,
                StreamItem::Deleted { name } => final(self).failures == 0 && (step matches WatchStep::Stop(e)
                    && e@ == "Job "@ + match name {
                    Some(n) => n@,
                    None => Seq::<char>::empty(),
                } + " was deleted during watch"@),
                StreamItem::Other => final(self).failures == 0 && step is Next,
                StreamItem::Error => final(self).failures == failures_after_error(old(self).failures)
                    && step is Reconnect,
                StreamItem::End => final(self).failures == old(self).failures && step is Reconnect,
            },
    {
        match item {
            StreamItem::Changed => {
                self.failures = 0;
                WatchStep::Process
            },
            StreamItem::Deleted { name } => {
                self.failures = 0;
                let e = owned("Job ");
                let e = match name {
                    Some(n) => e.concat(n.as_str()),
                    None => {
                        proof {
                            assert(e@ + Seq::<char>::empty() =~= e@);
                        }
                        e
                    },
                };
                WatchStep::Stop(e.concat(" was deleted during watch"))
            },
            StreamItem::Other => {
                self.failures = 0;
                WatchStep::Next
            },
            StreamItem::Error => {
                if self.failures < u32::MAX {
                    self.failures = self.failures + 1;
                }
                WatchStep::Reconnect
            },
            StreamItem::End => WatchStep::Reconnect,
        }
    }

    /// After leaving a stream: three failures in a row switch to polling.
    pub fn after_stream(&self) -> (a: AfterStream)
        ensures
            (a is FallBackToPolling) == (self.failures >= max_watch_failures()),
    {
        if self.failures >= 3 {
            AfterStream::FallBackToPolling
        } else {
            AfterStream::Refetch
        }
    }
}

/// The error when the Job is gone while it is re-read (`polling` tells which loop).
pub fn vanished_error(job_name: &String, polling: bool) -> (e: String)
    ensures
        e@ == "Job "@ + job_name@ + if polling {
            " vanished during polling"@
        } else {
            " vanished during watch reconnection"@
        },
{
    let e = owned("Job ");
    let e = e.concat(job_name.as_str());
    if polling {
        e.concat(" vanished during polling")
    } else {
        e.concat(" vanished during watch reconnection")
    }
}

// ---------------------------------------------------------------- reporting

/// A value of the outputs of a step event.
pub enum OutputValue {
    Null,
    Int(i64),
    Text(String),
}

pub open spec fn output_value_view(v: OutputValue) -> (int, Seq<char>) {
    // (0, _) null, (1, n) int, (2, s) text: a compact view for contracts
    match v {
        OutputValue::Null => (0, Seq::empty()),
        OutputValue::Int(n) => (1, crate::text::int_text(n as int)),
        OutputValue::Text(s) => (2, s@),
    }
}

pub open spec fn outputs_view(v: Seq<(String, OutputValue)>) -> Seq<(Seq<char>, (int, Seq<char>))> {
    v.map_values(|p: (String, OutputValue)| (p.0@, output_value_view(p.1)))
}

/// The outputs reported for a Job: exit code, attempts, run duration and latency.
pub open spec fn job_outputs_spec(m: JobMetrics) -> Seq<(Seq<char>, (int, Seq<char>))> {
    seq![
        ("k8s exit code"@, match m.exit_code {
            Some(c) => (1, crate::text::int_text(c as int)),
            None => (0, Seq::empty()),
        }),
        ("Number of attempts"@, (1, crate::text::int_text(m.attempts as int))),
        ("run duration"@, (2, decimal_text(m.duration_ms as nat) + "ms"@)),
        ("run latency"@, (2, decimal_text(m.latency_ms as nat) + "ms"@)),
    ]
}

/// The outputs of a finished Job name each value once: the exit code (null when there is
/// none), the attempts, the run duration as `duration_ms` in decimal followed by `ms`, and the
/// run latency as `latency_ms` in decimal followed by `ms`.
pub proof fn lemma_job_outputs_law(m: JobMetrics)
    ensures
        job_outputs_spec(m).len() == 4,
        forall|i: int, j: int|
            0 <= i < j < 4 ==> (#[trigger] job_outputs_spec(m)[i]).0 != (#[trigger] job_outputs_spec(m)[j]).0,
        exists|i: int| 0 <= i < 4 && (#[trigger] job_outputs_spec(m)[i]).0 == "run duration"@,
        forall|i: int|
            0 <= i < 4 && (#[trigger] job_outputs_spec(m)[i]).0 == "run duration"@ ==> job_outputs_spec(m)[i].1
                == (2int, decimal_text(m.duration_ms as nat) + "ms"@),
        forall|i: int|
            0 <= i < 4 && (#[trigger] job_outputs_spec(m)[i]).0 == "run latency"@ ==> job_outputs_spec(m)[i].1
                == (2int, decimal_text(m.latency_ms as nat) + "ms"@),
        forall|i: int|
            0 <= i < 4 && (#[trigger] job_outputs_spec(m)[i]).0 == "Number of attempts"@ ==> job_outputs_spec(m)[i].1
                == (1int, crate::text::int_text(m.attempts as int)),
        forall|i: int|
            0 <= i < 4 && (#[trigger] job_outputs_spec(m)[i]).0 == "k8s exit code"@ ==> job_outputs_spec(m)[i].1
                == match m.exit_code {
                Some(c) => (1int, crate::text::int_text(c as int)),
                None => (0int, Seq::<char>::empty()),
            },
{
    reveal_strlit("k8s exit code");
    reveal_strlit("Number of attempts");
    reveal_strlit("run duration");
    reveal_strlit("run latency");
    let o = job_outputs_spec(m);
    assert("k8s exit code"@[0] != "Number of attempts"@[0]);
    assert("k8s exit code"@[0] != "run duration"@[0]);
    assert("k8s exit code"@[0] != "run latency"@[0]);
    assert("Number of attempts"@[0] != "run duration"@[0]);
    assert("Number of attempts"@[0] != "run latency"@[0]);
    assert("run duration"@[4] != "run latency"@[4]);
    assert(o[2].0 == "run duration"@);
}

/// Builds the outputs of a finished Job.
pub fn job_outputs(m: &JobMetrics) -> (r: Vec<(String, OutputValue)>)
    ensures
        outputs_view(r@) == job_outputs_spec(*m),
{
    let mut v: Vec<(String, OutputValue)> = Vec::new();
    let code = match m.exit_code {
        Some(c) => OutputValue::Int(c as i64),
        None => OutputValue::Null,
    };
    v.push((owned("k8s exit code"), code));
    v.push((owned("Number of attempts"), OutputValue::Int(m.attempts as i64)));
    let d = u64_text(m.duration_ms);
    v.push((owned("run duration"), OutputValue::Text(d.concat("ms"))));
    let l = u64_text(m.latency_ms);
    v.push((owned("run latency"), OutputValue::Text(l.concat("ms"))));
    assert(outputs_view(v@) =~= job_outputs_spec(*m));
    v
}

/// The kind of step event a Job ends with.
#[derive(PartialEq, Eq, Structural, Clone, Copy, Debug)]
pub enum StepEventKind {
    Completed,
    Failed,
}

/// The shard of the orchestrator's step subjects that a run's events go to: the one that the
/// orchestrator's shard function assigns to this run id.
#[derive(PartialEq, Eq, Structural, Clone, Copy, Debug)]
pub struct ShardKey {
    pub run_id: u128,
}

/// The NATS subject a step event is published on, with its shard when it has one.
#[derive(PartialEq, Eq, Structural, Clone, Copy, Debug)]
pub enum NatsSubject {
    StepCompleted(Option<ShardKey>),
    StepFailed(Option<ShardKey>),
}

/// The shard of a run's step events.
pub fn compute_shard_id(run_id: u128) -> (k: ShardKey)
    ensures
        k.run_id == run_id,
{
    ShardKey { run_id }
}

/// The event that reports the end of a step to the orchestrator.
pub struct StepResultEvent {
    /// Where it is published: the completed or failed subject, on the run's shard.
    pub subject: NatsSubject,
    pub kind: StepEventKind,
    pub run_id: u128,
    pub step_id: u128,
    pub fencing_token: i64,
    pub runner_id: String,
    pub exit_code: Option<i32>,
    pub error: Option<String>,
    pub storage_hashes: Option<Vec<(String, String)>>,
    pub artifacts: Option<Vec<(String, String)>>,
    pub test_reports: Option<Vec<(String, String)>>,
    pub outputs: Option<Vec<(String, OutputValue)>>,
}

/// The event for a Job's final state: `Completed` for a success, `Failed` with the reason
/// for a failure, each with the metrics and their outputs.
pub fn build_job_result_event(
    state: JobState,
    run_id: u128,
    step_id: u128,
    fencing_token: i64,
    runner_id: String,
) -> (e: StepResultEvent)
    ensures
        e.run_id == run_id && e.step_id == step_id && e.fencing_token == fencing_token && e.runner_id == runner_id,
        e.subject == match state {
            JobState::Succeeded(_) => NatsSubject::StepCompleted(Some(ShardKey { run_id })),
            JobState::Failed(_, _) => NatsSubject::StepFailed(Some(ShardKey { run_id })),
        },
        match state {
            JobState::Succeeded(m) => e.kind == StepEventKind::Completed && e.error is None && e.exit_code
                == m.exit_code && e.storage_hashes == m.storage_hashes && e.artifacts == m.artifacts
                && e.test_reports == m.test_reports && e.outputs is Some && outputs_view(e.outputs->0@)
                == job_outputs_spec(m),
            JobState::Failed(reason, m) => e.kind == StepEventKind::Failed && e.error == Some(reason)
                && e.exit_code == m.exit_code && e.storage_hashes == m.storage_hashes && e.artifacts
                == m.artifacts && e.test_reports == m.test_reports && e.outputs is Some && outputs_view(
                e.outputs->0@,
            ) == job_outputs_spec(m),
        },
{
    match state {
        JobState::Succeeded(m) => {
            let outputs = job_outputs(&m);
            StepResultEvent {
                subject: NatsSubject::StepCompleted(Some(compute_shard_id(run_id))),
                kind: StepEventKind::Completed,
                run_id,
                step_id,
                fencing_token,
                runner_id,
                exit_code: m.exit_code,
                error: None,
                storage_hashes: m.storage_hashes,
                artifacts: m.artifacts,
                test_reports: m.test_reports,
                outputs: Some(outputs),
            }
        },
        JobState::Failed(reason, m) => {
            let outputs = job_outputs(&m);
            StepResultEvent {
                subject: NatsSubject::StepFailed(Some(compute_shard_id(run_id))),
                kind: StepEventKind::Failed,
                run_id,
                step_id,
                fencing_token,
                runner_id,
                exit_code: m.exit_code,
                error: Some(reason),
                storage_hashes: m.storage_hashes,
                artifacts: m.artifacts,
                test_reports: m.test_reports,
                outputs: Some(outputs),
            }
        },
    }
}

/// The `Failed` event for a Job that could not be run or watched: only the error.
pub fn build_job_error_event(
    run_id: u128,
    step_id: u128,
    fencing_token: i64,
    runner_id: String,
    error: String,
) -> (e: StepResultEvent)
    ensures
        e.subject == NatsSubject::StepFailed(Some(ShardKey { run_id })),
        e.kind == StepEventKind::Failed && e.run_id == run_id && e.step_id == step_id && e.fencing_token
            == fencing_token && e.runner_id == runner_id && e.error == Some(error) && e.exit_code is None
            && e.storage_hashes is None && e.artifacts is None && e.test_reports is None && e.outputs is None,
{
    StepResultEvent {
        subject: NatsSubject::StepFailed(Some(compute_shard_id(run_id))),
        kind: StepEventKind::Failed,
        run_id,
        step_id,
        fencing_token,
        runner_id,
        exit_code: None,
        error: Some(error),
        storage_hashes: None,
        artifacts: None,
        test_reports: None,
        outputs: None,
    }
}

// ---------------------------------------------------------------- orphans and old jobs

/// An orphaned Job is adopted only while the orchestrator still knows its step as pending
/// or running.
pub fn should_adopt(exists: bool, status: &String) -> (r: bool)
    ensures
        r == (exists && (status@ == "pending"@ || status@ == "running"@)),
{
    exists && (*status == owned("pending") || *status == owned("running"))
}

/// A managed Job is reaped once it is at least a full day old (whole hours, as `num_hours`
/// counts them).
pub fn should_reap(now_secs: i64, created_secs: i64) -> (r: bool)
    ensures
        r == ((now_secs - created_secs) / 3600 >= 24 && now_secs - created_secs >= 0),
{
    let age: i128 = now_secs as i128 - created_secs as i128;
    age >= 86400
}

} // verus!

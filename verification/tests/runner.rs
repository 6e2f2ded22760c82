use stormchaser::job::{
    build_k8s_resources, do_build_job_spec, map_dsl_env_to_k8s, ContainerSpec, DslEnvVar, ParsedSpec,
    SpecError,
};
use stormchaser::job_machine::{
    build_job_error_event, build_job_result_event, compute_shard_id, Initialized, NatsSubject, JobMetrics, JobState, K8sJobMachine,
    OutputValue, StepEventKind,
};
use stormchaser::job_machine::{job_state_from, AfterStream, CollectedMetrics, JobOutcome, StreamItem, WatchLoop};
use stormchaser::job_spec::StorageMount;
use stormchaser::markers::{collected_test_reports, parked_artifacts, parked_storage_hashes};
use stormchaser::k8s_model::{Job, VolumeSource};
use stormchaser::model::{JobMetadata, ProvisionEntry, Step, StorageEntry, StorageUrls};
use stormchaser::naming::normalize_resource_name;
use stormchaser::pod_metrics::{
    do_extract_pod_metrics_with_reason, ContainerStateInfo, ContainerStatusInfo, PodInfo, TerminatedState,
};
use stormchaser::decode::{orphan_metadata, task_metadata};
use stormchaser::task::{dsl_source, fallback_step, reconstruct_step, Config, DslSource};

fn step(name: &str, step_type: &str, spec_json: &str) -> Step {
    Step {
        name: name.to_string(),
        step_type: step_type.to_string(),
        spec_json: spec_json.to_string(),
        params: vec![],
        reports_json: vec![],
        retry_count: None,
        others: vec![],
    }
}

fn metadata(run_id: u128, step_dsl: Step, storage: Option<Vec<StorageEntry>>) -> JobMetadata {
    JobMetadata {
        run_id,
        step_id: 0x1234_5678_9abc_def0_1234_5678_9abc_def0,
        fencing_token: 0,
        step_dsl,
        namespace: "default".into(),
        received_at_ns: 1_700_000_000_000_000_000,
        cluster_version: "v1.28.0".into(),
        encryption_key: None,
        storage,
        test_report_urls_json: None,
        has_registry_auth: false,
    }
}

fn alpine_spec(storage_mounts: Option<Vec<StorageMount>>) -> ParsedSpec {
    ParsedSpec::Container(ContainerSpec {
        image: "alpine:latest".into(),
        command: Some(vec!["echo".into()]),
        args: Some(vec!["hello".into()]),
        env: None,
        cpu: None,
        memory: None,
        privileged: None,
        storage_mounts,
    })
}

fn failing_pod() -> PodInfo {
    PodInfo {
        container_statuses: Some(vec![ContainerStatusInfo {
            restart_count: 2,
            state: Some(ContainerStateInfo {
                terminated: Some(TerminatedState {
                    exit_code: 1,
                    reason: Some("Error".to_string()),
                    message: Some("Something went wrong".to_string()),
                }),
                waiting: None,
            }),
        }]),
    }
}

fn check_pod_metrics() {
    let (exit_code, attempts, reason) = do_extract_pod_metrics_with_reason(vec![failing_pod()]);
    assert_eq!(exit_code, Some(1));
    assert_eq!(attempts, 3);
    assert_eq!(reason, Some("Error: Something went wrong".to_string()));
}

#[test]
fn k8s_utils_test_do_extract_pod_metrics() {
    check_pod_metrics();
}

#[test]
fn tests_test_do_extract_pod_metrics() {
    check_pod_metrics();
}

fn check_build_job_spec_basic() {
    let md = metadata(1, step("test-step", "RunContainer", "{}"), None);
    let job: Job = do_build_job_spec("test-job", &md, alpine_spec(None), None, None)
        .ok()
        .unwrap();
    assert_eq!(job.name, "test-job");
    assert_eq!(job.template.containers[0].image, "alpine:latest");
}

#[test]
fn k8s_utils_test_do_build_job_spec_basic() {
    check_build_job_spec_basic();
}

#[test]
fn tests_test_do_build_job_spec_basic() {
    check_build_job_spec_basic();
}

fn check_build_job_spec_with_pvc() {
    let run_id: u128 = 0x0011_2233_4455_6677_8899_aabb_ccdd_eeff;
    let storage = vec![StorageEntry {
        name: "workspace".into(),
        urls: StorageUrls {
            raw_json: r#"{"put_url":"http://example.com/put","get_url":"http://example.com/get","expected_hash":"abcd","provision":[{"url":"http://example.com/provision.tar.gz","destination":"/"}]}"#.into(),
            has_put_url: true,
            put_url: Some("http://example.com/put".into()),
            get_url: Some("http://example.com/get".into()),
            has_expected_hash: true,
            artifacts_json: None,
            artifact_entries: None,
            provision: Some(vec![ProvisionEntry {
                url: Some("http://example.com/provision.tar.gz".into()),
                destination: Some("/".into()),
            }]),
        },
    }];
    let md = metadata(run_id, step("test-pvc-step", "RunContainer", "{}"), Some(storage));
    let mounts = vec![StorageMount { name: "workspace".into(), mount_path: "/workspace".into(), read_only: Some(false) }];
    let job = do_build_job_spec(
        "test-job-pvc",
        &md,
        alpine_spec(Some(mounts)),
        None,
        Some("my-shared-pvc".to_string()),
    )
    .ok()
    .unwrap();
    let pod = &job.template;
    let vol = pod.volumes.iter().find(|v| v.name == "sfs-workspace").unwrap();
    match &vol.source {
        VolumeSource::PersistentVolumeClaim { claim_name } => assert_eq!(claim_name, "my-shared-pvc"),
        _ => panic!("the storage volume is not a claim"),
    }
    let main = &pod.containers[0];
    let mount = main.volume_mounts.as_ref().unwrap().iter().find(|m| m.name == "sfs-workspace").unwrap();
    assert_eq!(mount.sub_path, Some("00112233-4455-6677-8899-aabbccddeeff/workspace".to_string()));
    let env = main.env.as_ref().unwrap();
    assert!(!env.iter().any(|e| e.name == "STORMCHASER_PUT_URL_workspace"));
    assert!(!pod.init_containers.is_empty());
    assert!(pod.init_containers.iter().any(|c| c.name == "prov-workspace-0"));
    assert!(!pod.init_containers.iter().any(|c| c.name == "unpark-workspace"));
}

#[test]
fn k8s_utils_test_do_build_job_spec_with_pvc() {
    check_build_job_spec_with_pvc();
}

#[test]
fn tests_test_do_build_job_spec_with_pvc() {
    check_build_job_spec_with_pvc();
}

#[test]
fn test_normalize_resource_name() {
    assert_eq!(normalize_resource_name("My_Resource", "prefix"), "prefix-my-resource");
    assert_eq!(normalize_resource_name("Another-Test", "job"), "job-another-test");
}

#[test]
fn test_map_dsl_env_to_k8s() {
    let dsl_env = vec![
        DslEnvVar { name: "KEY1".to_string(), value: "VAL1".to_string() },
        DslEnvVar { name: "KEY2".to_string(), value: "VAL2".to_string() },
    ];
    let k8s_env = map_dsl_env_to_k8s(dsl_env);
    assert_eq!(k8s_env.len(), 2);
    assert_eq!(k8s_env[0].name, "KEY1");
    assert_eq!(k8s_env[0].value, "VAL1".to_string());
}

fn lookup<'a>(pairs: &'a [(String, String)], key: &str) -> &'a str {
    pairs.iter().find(|p| p.0 == key).map(|p| p.1.as_str()).unwrap()
}

#[test]
fn test_build_k8s_resources() {
    let res = build_k8s_resources(Some("500m".to_string()), Some("1Gi".to_string()));
    let requests = res.requests.unwrap();
    let limits = res.limits.unwrap();
    assert_eq!(lookup(&requests, "cpu"), "500m");
    assert_eq!(lookup(&requests, "memory"), "1Gi");
    assert_eq!(lookup(&limits, "cpu"), "500m");
    assert_eq!(lookup(&limits, "memory"), "1Gi");
}

fn check_parse_version() {
    assert_eq!(K8sJobMachine::<Initialized>::do_parse_version("1.2.3").ok().unwrap(), vec![1, 2, 3]);
    assert_eq!(K8sJobMachine::<Initialized>::do_parse_version("v1.2.3").ok().unwrap(), vec![1, 2, 3]);
    assert_eq!(K8sJobMachine::<Initialized>::do_parse_version("v1.2.3-alpha").ok().unwrap(), vec![1, 2, 3]);
    assert_eq!(K8sJobMachine::<Initialized>::do_parse_version("1.25.0+xyz").ok().unwrap(), vec![1, 25, 0]);
    assert!(K8sJobMachine::<Initialized>::do_parse_version("invalid").is_err());
}

#[test]
fn transitions_test_do_parse_version() {
    check_parse_version();
}

#[test]
fn tests_test_do_parse_version() {
    check_parse_version();
}

fn check_check_version() {
    assert!(K8sJobMachine::<Initialized>::do_check_version("1.25.0", "1.24.0").is_ok());
    assert!(K8sJobMachine::<Initialized>::do_check_version("1.25.0", "1.25.0").is_ok());
    assert!(K8sJobMachine::<Initialized>::do_check_version("1.25.1", "1.25.0").is_ok());
    let err = K8sJobMachine::<Initialized>::do_check_version("1.24.0", "1.25.0").err().unwrap();
    assert!(err.message().contains("less than required version"));
}

#[test]
fn transitions_test_do_check_version() {
    check_check_version();
}

#[test]
fn tests_test_do_check_version() {
    check_check_version();
}

#[test]
fn test_config_from_env_defaults() {
    let env: Vec<(String, String)> = vec![];
    let config = Config::from_env(env);
    assert_eq!(config.nats_url, "nats://localhost:4222");
    assert!(config.encryption_key.is_none());
    assert_eq!(config.rust_log, "stormchaser_runner_k8s=info");
    assert!(!config.runner_id.is_empty());
}

#[test]
fn test_config_from_env_custom() {
    let env = vec![
        ("NATS_URL".to_string(), "nats://remote:4222".to_string()),
        ("RUNNER_ID".to_string(), "my-runner".to_string()),
        ("STORMCHASER_STATE_ENCRYPTION_KEY".to_string(), "my-key".to_string()),
        ("RUST_LOG".to_string(), "debug".to_string()),
    ];
    let config = Config::from_env(env);
    assert_eq!(config.nats_url, "nats://remote:4222");
    assert_eq!(config.runner_id, "my-runner");
    assert_eq!(config.encryption_key.as_deref(), Some("my-key"));
    assert_eq!(config.rust_log, "debug");
}

fn task_step_of(data: &str) -> Step {
    let payload = format!(
        r#"{{"specversion":"1.0","data":{{"run_id":"67e55044-10b1-426f-9247-bb680e5fe0c8","step_id":"67e55044-10b1-426f-9247-bb680e5fe0c9",{}}}}}"#,
        data
    );
    task_metadata(&payload, 0, "default".to_string(), "v1.30.0".to_string(), None).unwrap().step_dsl
}

fn check_fallback_step() {
    let step = task_step_of(r#""spec":{"parallelism":2},"step_name":"test-step","step_type":"K8sJob","params":{"image":"nginx"}"#);
    assert_eq!(step.name, "test-step");
    assert_eq!(step.step_type, "K8sJob");
    assert_eq!(step.spec_json, r#"{"parallelism":2}"#);
    assert_eq!(step.params.iter().find(|p| p.0 == "image").unwrap().1, "nginx");
    let direct = fallback_step(
        Some("test-step".to_string()),
        Some("K8sJob".to_string()),
        Some(vec![("image".to_string(), "nginx".to_string())]),
        r#"{"parallelism":2}"#.to_string(),
    );
    assert_eq!(direct.params, step.params);
}

#[test]
fn task_test_fallback_step() {
    check_fallback_step();
}

#[test]
fn tests_test_fallback_step() {
    check_fallback_step();
}

#[test]
fn test_fallback_step_defaults_when_fields_missing_or_invalid() {
    let step = task_step_of(r#""step_name":null,"step_type":null,"params":"invalid""#);
    assert_eq!(step.name, "");
    assert_eq!(step.step_type, "");
    assert!(step.params.is_empty());
    assert_eq!(step.spec_json, "null");
}

fn find_output<'a>(outputs: &'a [(String, OutputValue)], key: &str) -> &'a OutputValue {
    &outputs.iter().find(|p| p.0 == key).unwrap().1
}

#[test]
fn test_build_job_result_event_success() {
    let run_id: u128 = 7;
    let step_id: u128 = 9;
    let metrics = JobMetrics {
        exit_code: Some(0),
        attempts: 2,
        duration_ms: 500,
        latency_ms: 12,
        storage_hashes: Some(vec![("out".to_string(), "abc".to_string())]),
        artifacts: Some(vec![("file".to_string(), "\"artifact.txt\"".to_string())]),
        test_reports: Some(vec![(
            "junit".to_string(),
            r#"{"url":"https://paninfracon.net/junit.xml"}"#.to_string(),
        )]),
    };
    let event = build_job_result_event(JobState::Succeeded(metrics), run_id, step_id, 0, "runner-k8s".to_string());
    assert_eq!(event.subject, NatsSubject::StepCompleted(Some(compute_shard_id(run_id))));
    assert!(matches!(event.kind, StepEventKind::Completed));
    assert_eq!(event.run_id, run_id);
    assert_eq!(event.step_id, step_id);
    let outputs = event.outputs.unwrap();
    assert!(matches!(find_output(&outputs, "Number of attempts"), OutputValue::Int(2)));
    assert_eq!(
        event.test_reports.unwrap()[0].1,
        r#"{"url":"https://paninfracon.net/junit.xml"}"#
    );
}

#[test]
fn test_build_job_result_event_failed() {
    let metrics = JobMetrics {
        exit_code: Some(1),
        attempts: 1,
        duration_ms: 10,
        latency_ms: 3,
        storage_hashes: None,
        artifacts: None,
        test_reports: None,
    };
    let event = build_job_result_event(
        JobState::Failed("boom".to_string(), metrics),
        7,
        9,
        0,
        "runner-k8s".to_string(),
    );
    assert_eq!(event.subject, NatsSubject::StepFailed(Some(compute_shard_id(7))));
    assert!(matches!(event.kind, StepEventKind::Failed));
    assert_eq!(event.error.as_deref(), Some("boom"));
    let outputs = event.outputs.unwrap();
    match find_output(&outputs, "run latency") {
        OutputValue::Text(t) => assert_eq!(t, "3ms"),
        _ => panic!("latency is not text"),
    }
}

#[test]
fn test_build_job_error_event() {
    let event = build_job_error_event(7, 9, 0, "runner-k8s".to_string(), "job exploded".to_string());
    assert_eq!(event.run_id, 7);
    assert_eq!(event.step_id, 9);
    assert!(event.exit_code.is_none());
    assert!(event.outputs.is_none());
    assert!(event.error.unwrap().contains("job exploded"));
}

fn orphan_step(annotations: &[(&str, &str)], key: Option<&str>) -> Step {
    let labels = vec![
        ("stormchaser-run-id".to_string(), "67e55044-10b1-426f-9247-bb680e5fe0c8".to_string()),
        ("stormchaser-step-id".to_string(), "67e55044-10b1-426f-9247-bb680e5fe0c9".to_string()),
    ];
    let annotations: Vec<(String, String)> = annotations.iter().map(|(k, v)| (k.to_string(), v.to_string())).collect();
    orphan_metadata(
        "test-job".to_string(),
        "default".to_string(),
        &labels,
        &annotations,
        "v1.30.0".to_string(),
        key.map(|k| k.to_string()),
        0,
    )
    .unwrap()
    .step_dsl
}

#[test]
fn test_reconstruct_step_encrypted_no_key() {
    let source = dsl_source(true, None, Some("encoded_stuff".to_string()));
    assert!(matches!(source, DslSource::Fallback));
    let step = orphan_step(
        &[("stormchaser.v1.io/state-encrypted", "true"), ("stormchaser.v1.io/step-dsl", "encoded_stuff")],
        None,
    );
    assert_eq!(step.name, "test-job");
}

#[test]
fn test_reconstruct_step_unencrypted_invalid_json() {
    let step = orphan_step(&[("stormchaser.v1.io/step-dsl", "invalid json")], None);
    assert_eq!(step.name, "test-job");
    assert_eq!(step.step_type, "RunContainer");
    assert_eq!(step.spec_json, "null");
}

#[test]
fn test_reconstruct_step_unencrypted_invalid_shape() {
    let step = orphan_step(&[("stormchaser.v1.io/step-dsl", r#"{"unexpected":"shape"}"#)], None);
    assert_eq!(step.name, "test-job");
    assert_eq!(step.step_type, "RunContainer");
    assert_eq!(step.spec_json, "null");
}

#[test]
fn test_reconstruct_step_unencrypted_valid_json() {
    let raw = r#"{"name":"test-job","type":"RunContainer","spec":{"image":"nginx"},"params":{},"aggregation":[],"next":[],"outputs":[],"reports":[]}"#;
    let step = orphan_step(&[("stormchaser.v1.io/step-dsl", raw)], None);
    assert_eq!(step.name, "test-job");
    assert_eq!(step.spec_json, r#"{"image":"nginx"}"#);
    let kept = reconstruct_step(&"other".to_string(), Some(step));
    assert_eq!(kept.name, "test-job");
}

#[test]
fn test_reconstruct_step_no_raw_dsl() {
    assert!(matches!(dsl_source(false, None, None), DslSource::Fallback));
    let step = orphan_step(&[], None);
    assert_eq!(step.name, "test-job");
    assert_eq!(step.spec_json, "null");
}

#[test]
fn spec_errors_name_the_step_type() {
    let md = metadata(1, step("s", "Custom", "{}"), None);
    let r = do_build_job_spec("j", &md, ParsedSpec::NotNeeded, None, None);
    match r {
        Err(e) => {
            assert!(matches!(e, SpecError::MissingImage { .. }));
            assert_eq!(e.message(), "Missing 'image' for Custom step (neither in spec nor params)");
        },
        Ok(_) => panic!("a step without an image became a Job"),
    }
    let md = metadata(1, step("s", "RunContainer", "{}"), None);
    let r = do_build_job_spec("j", &md, ParsedSpec::Unreadable, None, None);
    assert!(matches!(r, Err(SpecError::InvalidContainerSpec)));
}

#[test]
fn marked_log_lines_are_read() {
    let logs = "starting\r\nParked storage hashes: not json {oops\nParked storage hashes: {\"out\":\"abc\",\"cache\":\"def\"}\r\nParked artifacts: {\"file\":{\"size\":3}}\nCollected test reports JSON: {\"junit\":{\"url\":\"u\"}}";
    let hashes = parked_storage_hashes(true, logs).unwrap();
    assert_eq!(hashes, vec![("out".to_string(), "abc".to_string()), ("cache".to_string(), "def".to_string())]);
    assert_eq!(parked_storage_hashes(false, logs), None);
    let artifacts = parked_artifacts(true, logs).unwrap();
    assert_eq!(artifacts, vec![("file".to_string(), "{\"size\":3}".to_string())]);
    let reports = collected_test_reports(true, logs).unwrap();
    assert_eq!(reports, vec![("junit".to_string(), "{\"url\":\"u\"}".to_string())]);
    assert_eq!(collected_test_reports(true, "nothing here\n"), None);
    assert_eq!(parked_storage_hashes(true, "Parked storage hashes: {\"n\":1}"), None);
}

#[test]
fn a_cluster_meets_its_own_version() {
    for v in ["1.2.3", "v1.28.0", "1.25.0+xyz", "2"] {
        assert!(K8sJobMachine::<Initialized>::do_check_version(v, v).is_ok());
    }
    assert!(K8sJobMachine::<Initialized>::do_check_version("1.25", "1.25.0").is_ok());
    assert!(K8sJobMachine::<Initialized>::do_check_version("1.24.9", "1.25").is_err());
}

#[test]
fn three_failed_streams_switch_to_polling() {
    let mut w = WatchLoop::new();
    w.on_item(StreamItem::Error);
    w.on_item(StreamItem::Error);
    assert!(matches!(w.after_stream(), AfterStream::Refetch));
    w.on_item(StreamItem::Changed);
    assert_eq!(w.failures, 0);
    w.on_item(StreamItem::Error);
    w.on_item(StreamItem::Error);
    w.on_item(StreamItem::Error);
    assert!(matches!(w.after_stream(), AfterStream::FallBackToPolling));
}

#[test]
fn a_cluster_below_the_minimum_version_fails_the_start() {
    let m = metadata(1, step("deploy", "RunK8sJob", "{}"), None);
    let plan = K8sJobMachine::<Initialized>::new(m).plan_start(Some("v1.30.0".to_string()));
    match plan {
        stormchaser::job_machine::StartPlan::Failed(f) => match f.into_result() {
            JobState::Failed(reason, metrics) => {
                assert_eq!(reason, "Version mismatch: Cluster version v1.28.0 is less than required version v1.30.0");
                assert_eq!(metrics.attempts, 0);
                assert_eq!(metrics.duration_ms, 0);
                assert!(metrics.exit_code.is_none());
            }
            _ => panic!("the start did not fail"),
        },
        _ => panic!("a Job was to be created"),
    }
}

#[test]
fn the_last_setting_of_a_variable_wins() {
    let env = vec![
        ("RUST_LOG".to_string(), "info".to_string()),
        ("UNRELATED".to_string(), "x".to_string()),
        ("RUST_LOG".to_string(), "trace".to_string()),
        ("RUNNER_ID".to_string(), "r".to_string()),
    ];
    let config = Config::from_env(env);
    assert_eq!(config.rust_log, "trace");
    assert_eq!(config.runner_id, "r");
    assert_eq!(config.nats_url, "nats://localhost:4222");
}

#[test]
fn the_job_keeps_its_step_as_json_and_a_state_key_is_refused() {
    let md = metadata(1, step("test-step", "RunContainer", "{}"), None);
    let job: Job = do_build_job_spec("test-job", &md, alpine_spec(None), None, None).ok().unwrap();
    let dsl = &job.annotations.iter().find(|a| a.0 == "stormchaser.v1.io/step-dsl").unwrap().1;
    assert_eq!(dsl, r#"{"name":"test-step","type":"RunContainer","spec":{},"params":{},"reports":[]}"#);
    assert!(!job.annotations.iter().any(|a| a.0 == "stormchaser.v1.io/state-encrypted"));
    let mut keyed = metadata(1, step("test-step", "RunContainer", "{}"), None);
    keyed.encryption_key = Some("12345678901234567890123456789012".to_string());
    match do_build_job_spec("test-job", &keyed, alpine_spec(None), None, None) {
        Err(e) => {
            assert!(matches!(e, SpecError::StateEncryptionUnavailable));
            assert_eq!(e.message(), "Failed to encrypt step state: no state cipher is available");
        }
        Ok(_) => panic!("a keyed runner stored its step state unencrypted"),
    }
}

const STATE_KEY: &str = "12345678901234567890123456789012";

#[test]
fn test_reconstruct_step_encrypted_invalid_decrypt() {
    let step = orphan_step(
        &[("stormchaser.v1.io/state-encrypted", "true"), ("stormchaser.v1.io/step-dsl", "invalid_base64")],
        Some(STATE_KEY),
    );
    assert_eq!(step.name, "test-job");
}

// No state cipher is available to the library, so an encrypted annotation is never read:
// whatever it holds, the step that comes back is the stand-in named after the Job.
#[test]
fn test_reconstruct_step_encrypted_valid_decrypt() {
    let sealed = r#"{"name":"test-job","type":"RunContainer","spec":{}}"#;
    let step = orphan_step(
        &[("stormchaser.v1.io/state-encrypted", "true"), ("stormchaser.v1.io/step-dsl", sealed)],
        Some(STATE_KEY),
    );
    assert_eq!(step.name, "test-job");
}

#[test]
fn test_reconstruct_step_encrypted_valid_decrypt_but_invalid_json() {
    let step = orphan_step(
        &[("stormchaser.v1.io/state-encrypted", "true"), ("stormchaser.v1.io/step-dsl", "not-json")],
        Some(STATE_KEY),
    );
    assert_eq!(step.name, "test-job");
    assert_eq!(step.step_type, "RunContainer");
    assert_eq!(step.spec_json, "null");
}

#[test]
fn a_plain_step_written_on_a_job_is_read_back_from_it() {
    let raw = r#"{"name":"test-job","type":"RunContainer","spec":{"image":"nginx"},"params":{},"aggregation":[],"next":[],"outputs":[],"reports":[]}"#;
    let step = orphan_step(&[("stormchaser.v1.io/step-dsl", raw)], None);
    assert_eq!(
        step.others,
        vec![
            ("aggregation".to_string(), "[]".to_string()),
            ("next".to_string(), "[]".to_string()),
            ("outputs".to_string(), "[]".to_string()),
        ]
    );
    let md = metadata(1, step, None);
    let job: Job = do_build_job_spec("test-job", &md, alpine_spec(None), None, None).ok().unwrap();
    let dsl = job.annotations.iter().find(|a| a.0 == "stormchaser.v1.io/step-dsl").unwrap().1.clone();
    assert_eq!(
        dsl,
        r#"{"name":"test-job","type":"RunContainer","spec":{"image":"nginx"},"params":{},"reports":[],"aggregation":[],"next":[],"outputs":[]}"#
    );
    let back = orphan_step(&[("stormchaser.v1.io/step-dsl", dsl.as_str())], None);
    assert_eq!(back.spec_json, r#"{"image":"nginx"}"#);
    assert_eq!(back.others.len(), 3);
}

#[test]
fn latency_and_duration_count_whole_milliseconds() {
    let collected = CollectedMetrics { pod_metrics: None, storage_hashes: None, artifacts: None, test_reports: None };
    let state = job_state_from(JobOutcome::Succeeded, collected, 100, 1_900_100, 1_000).unwrap();
    match state {
        JobState::Succeeded(m) => {
            assert_eq!(m.latency_ms, 1);
            assert_eq!(m.duration_ms, 0);
            assert_eq!(m.exit_code, Some(0));
            assert_eq!(m.attempts, 1);
        }
        _ => panic!("a succeeded Job did not succeed"),
    }
}

#[test]
fn the_arrival_time_is_written_to_the_nanosecond() {
    let mut md = metadata(1, step("test-step", "RunContainer", "{}"), None);
    md.received_at_ns = 1_609_459_200_123_456_789;
    let job: Job = do_build_job_spec("test-job", &md, alpine_spec(None), None, None).ok().unwrap();
    let at = &job.annotations.iter().find(|a| a.0 == "stormchaser.v1.io/received-at").unwrap().1;
    assert_eq!(at, "2021-01-01T00:00:00.123456789+00:00");
    let back = orphan_metadata(
        "test-job".to_string(),
        "default".to_string(),
        &vec![
            ("stormchaser-run-id".to_string(), "67e55044-10b1-426f-9247-bb680e5fe0c8".to_string()),
            ("stormchaser-step-id".to_string(), "67e55044-10b1-426f-9247-bb680e5fe0c9".to_string()),
        ],
        &job.annotations,
        "v1.30.0".to_string(),
        None,
        0,
    )
    .unwrap();
    assert_eq!(back.received_at_ns, 1_609_459_200_123_456_789);
}

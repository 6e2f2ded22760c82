use stormchaser::decode::{orphan_metadata, step_from_text, step_json, task_metadata, OrphanError, TaskError};

const RUN: &str = "67e55044-10b1-426f-9247-bb680e5fe0c8";
const STEP: &str = "67e55044-10b1-426f-9247-bb680e5fe0c9";

fn task(data: &str) -> String {
    format!(r#"{{"specversion":"1.0","type":"stormchaser.v1.step.scheduled","data":{}}}"#, data)
}

#[test]
fn a_step_is_read_from_its_json() {
    let s = step_from_text(
        r#"{"name":"build","type":"RunContainer","spec":{"image":"alpine"},"params":{"image":"nginx","replicas":3},"reports":[{"name":"junit"}],"retry":{"count":4}}"#,
    )
    .unwrap();
    assert_eq!(s.name, "build");
    assert_eq!(s.step_type, "RunContainer");
    assert_eq!(s.spec_json, r#"{"image":"alpine"}"#);
    assert_eq!(s.params, vec![("image".to_string(), "nginx".to_string()), ("replicas".to_string(), "3".to_string())]);
    assert_eq!(s.reports_json, vec![r#"{"name":"junit"}"#.to_string()]);
    assert_eq!(s.retry_count, Some(4));
}

#[test]
fn a_step_needs_a_name_and_a_type() {
    assert!(step_from_text(r#"{"type":"RunContainer"}"#).is_none());
    assert!(step_from_text(r#"{"name":"build","type":7}"#).is_none());
    assert!(step_from_text("[1,2]").is_none());
    assert!(step_from_text("not json").is_none());
    let s = step_from_text(r#"{"name":"a","type":"b","retry":{"count":"x"}}"#).unwrap();
    assert_eq!(s.spec_json, "null");
    assert!(s.params.is_empty());
    assert!(s.retry_count.is_none());
}

#[test]
fn task_errors_name_the_missing_part() {
    let t = |p: &str| task_metadata(p, 0, "default".to_string(), "v1.30.0".to_string(), None).err();
    assert_eq!(t("not json"), Some(TaskError::NotJson));
    assert_eq!(t(r#"{"specversion":"1.0"}"#), Some(TaskError::NoData));
    assert_eq!(t(&task("null")), Some(TaskError::NoData));
    assert_eq!(t(&task(r#"{"run_id":"nope"}"#)), Some(TaskError::InvalidRunId));
    assert_eq!(t(&task(&format!(r#"{{"run_id":"{}"}}"#, RUN))), Some(TaskError::InvalidStepId));
}

#[test]
fn a_task_carries_its_step_and_storage() {
    let data = format!(
        r#"{{"run_id":"{}","step_id":"{}","spec":{{"image":"busybox"}},"fencing_token":12,"step_dsl":{{"name":"build","type":"RunContainer","spec":null}},"storage":{{"cache":{{"put_url":"http://p","get_url":"http://g","expected_hash":"h","provision":[{{"url":"http://u","destination":"/d"}},{{"url":"http://v"}}]}}}},"test_report_urls":{{"junit":"http://r"}},"registry_auth":{{"user":"x"}}}}"#,
        RUN, STEP
    );
    let m = task_metadata(&task(&data), 55, "ns".to_string(), "v1.30.0".to_string(), Some("k".to_string())).unwrap();
    assert_eq!(m.run_id, 0x67e55044_10b1_426f_9247_bb680e5fe0c8);
    assert_eq!(m.step_id, 0x67e55044_10b1_426f_9247_bb680e5fe0c9);
    assert_eq!(m.fencing_token, 12);
    assert_eq!(m.step_dsl.name, "build");
    assert_eq!(m.step_dsl.spec_json, r#"{"image":"busybox"}"#);
    assert_eq!(m.namespace, "ns");
    assert_eq!(m.received_at_ns, 55);
    assert_eq!(m.encryption_key.as_deref(), Some("k"));
    let storage = m.storage.unwrap();
    assert_eq!(storage.len(), 1);
    assert_eq!(storage[0].name, "cache");
    let u = &storage[0].urls;
    assert!(u.has_put_url);
    assert_eq!(u.put_url.as_deref(), Some("http://p"));
    assert_eq!(u.get_url.as_deref(), Some("http://g"));
    assert!(u.has_expected_hash);
    let p = u.provision.as_ref().unwrap();
    assert_eq!(p.len(), 2);
    assert_eq!(p[0].destination.as_deref(), Some("/d"));
    assert!(p[1].destination.is_none());
    assert_eq!(m.test_report_urls_json.as_deref(), Some(r#"{"junit":"http://r"}"#));
    assert!(m.has_registry_auth);
}

#[test]
fn a_bare_task_has_defaults() {
    let data = format!(r#"{{"run_id":"{}","step_id":"{}","fencing_token":"7","registry_auth":null}}"#, RUN, STEP);
    let m = task_metadata(&task(&data), 1, "default".to_string(), "v1.30.0".to_string(), None).unwrap();
    assert_eq!(m.fencing_token, 0);
    assert!(m.storage.is_none());
    assert!(m.test_report_urls_json.is_none());
    assert!(!m.has_registry_auth);
    assert_eq!(m.step_dsl.spec_json, "null");
    assert_eq!(m.step_dsl.name, "");
}

fn pairs(p: &[(&str, &str)]) -> Vec<(String, String)> {
    p.iter().map(|(k, v)| (k.to_string(), v.to_string())).collect()
}

#[test]
fn an_orphan_needs_its_run_and_step_labels() {
    let o = |labels: &[(&str, &str)]| {
        orphan_metadata("job".to_string(), "ns".to_string(), &pairs(labels), &vec![], "v1".to_string(), None, 9).err()
    };
    assert_eq!(o(&[]), Some(OrphanError::MissingRunId));
    assert_eq!(o(&[("stormchaser-run-id", RUN)]), Some(OrphanError::MissingStepId));
    assert_eq!(o(&[("stormchaser-run-id", RUN), ("stormchaser-step-id", STEP)]), None);
}

#[test]
fn an_orphan_keeps_its_labels_and_arrival() {
    let labels = pairs(&[("stormchaser-run-id", RUN), ("stormchaser-step-id", "garbage"), ("stormchaser-fencing-token", "+42")]);
    let annotations = pairs(&[
        ("stormchaser.v1.io/received-at", "2021-01-01T00:00:01Z"),
        ("stormchaser.v1.io/step-dsl", r#"{"name":"build","type":"RunK8sJob"}"#),
    ]);
    let m = orphan_metadata("job".to_string(), "ns".to_string(), &labels, &annotations, "v1".to_string(), None, 9).unwrap();
    assert_eq!(m.run_id, 0x67e55044_10b1_426f_9247_bb680e5fe0c8);
    assert_eq!(m.step_id, 0);
    assert_eq!(m.fencing_token, 42);
    assert_eq!(m.received_at_ns, 1_609_459_201_000_000_000);
    assert_eq!(m.step_dsl.step_type, "RunK8sJob");
    assert!(m.storage.is_none());
    let late = pairs(&[("stormchaser.v1.io/received-at", "yesterday")]);
    let m = orphan_metadata("job".to_string(), "ns".to_string(), &labels, &late, "v1".to_string(), None, 9).unwrap();
    assert_eq!(m.received_at_ns, 9);
    assert_eq!(m.step_dsl.name, "job");
}

#[test]
fn an_encrypted_step_is_not_read_as_plain() {
    let labels = pairs(&[("stormchaser-run-id", RUN), ("stormchaser-step-id", STEP)]);
    let annotations = pairs(&[
        ("stormchaser.v1.io/state-encrypted", "true"),
        ("stormchaser.v1.io/step-dsl", r#"{"name":"build","type":"RunK8sJob"}"#),
    ]);
    let m = orphan_metadata("job".to_string(), "ns".to_string(), &labels, &annotations, "v1".to_string(), Some("k".to_string()), 9)
        .unwrap();
    assert_eq!(m.step_dsl.name, "job");
    assert_eq!(m.step_dsl.step_type, "RunContainer");
}

#[test]
fn a_written_step_reads_back() {
    let s = step_from_text(
        r#"{"name":"build \"x\"","type":"RunContainer","spec":{"image":"alpine"},"params":{"image":"nginx"},"reports":[{"name":"junit"}],"retry":{"count":-2}}"#,
    )
    .unwrap();
    let text = step_json(&s);
    assert_eq!(
        text,
        r#"{"name":"build \"x\"","type":"RunContainer","spec":{"image":"alpine"},"params":{"image":"nginx"},"reports":[{"name":"junit"}],"retry":{"count":-2}}"#
    );
    let back = step_from_text(&text).unwrap();
    assert_eq!(back.name, s.name);
    assert_eq!(back.params, s.params);
    assert_eq!(back.reports_json, s.reports_json);
    assert_eq!(back.retry_count, Some(-2));
}

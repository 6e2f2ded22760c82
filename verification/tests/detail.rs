use stormchaser::app::{RunStatus, StepDetail, WorkflowRunDetail, WorkflowRunFullDetail};
use stormchaser::detail::run_detail_lines;

const NIL: &str = "00000000-0000-0000-0000-000000000000";
const STEPS_HEADER: &str = "Name                 | Status                              | Started At";
const STEPS_RULE: &str = "---------------------|-------------------------------------|---------------------";

fn run(status: RunStatus, finished_at_ms: Option<i64>, steps: Vec<StepDetail>, attachments_json: &str) -> WorkflowRunFullDetail {
    WorkflowRunFullDetail {
        detail: WorkflowRunDetail {
            id: 0,
            workflow_name: "test-workflow".to_string(),
            initiating_user: "jacrisp".to_string(),
            status,
            created_at_ms: 1609459200000,
            finished_at_ms,
        },
        steps,
        attachments_json: attachments_json.to_string(),
    }
}

fn step(name: &str, status: &str, instance: &str) -> StepDetail {
    StepDetail {
        name: Some(name.to_string()),
        status: Some(status.to_string()),
        id: None,
        is_object: true,
        display_json: format!(r#"{{"instance":{},"outputs":[],"history":[]}}"#, instance),
        logs: vec![],
    }
}

#[test]
fn render_run_detail_populated() {
    let r = run(
        RunStatus::Running,
        None,
        vec![step("build", "running", r#"{"step_name":"build","status":"running"}"#)],
        r#"{"artifacts":[],"test_summaries":[],"test_cases":[]}"#,
    );
    let lines = run_detail_lines(&r, Some(0));
    let expected = vec![
        "Workflow: test-workflow".to_string(),
        format!("Run ID: {}", NIL),
        "Status: Running".to_string(),
        "Created: 2021-01-01 00:00:00".to_string(),
        "User: jacrisp".to_string(),
        String::new(),
        "Steps:".to_string(),
        STEPS_HEADER.to_string(),
        STEPS_RULE.to_string(),
        format!(">> {:<17} | {:<35} | -", "build", "Running"),
    ];
    assert_eq!(lines, expected);
}

#[test]
fn render_run_detail_with_artifacts() {
    let sid = "67e55044-10b1-426f-9247-bb680e5fe0c8";
    let r = run(
        RunStatus::Succeeded,
        None,
        vec![step("build", "succeeded", &format!(r#"{{"id":"{}","step_name":"build","status":"succeeded"}}"#, sid))],
        &format!(
            r#"{{"artifacts":[{{"artifact_name":"binary","step_instance_id":"{}","remote_path":"path/to/bin","metadata":{{"size":1024}}}}],"test_summaries":[],"test_cases":[]}}"#,
            sid
        ),
    );
    let lines = run_detail_lines(&r, None);
    assert_eq!(lines[2], "Status: Succeeded");
    assert_eq!(lines[9], format!("   {:<17} | {:<35} | -", "build", "Succeeded"));
    assert_eq!(lines[10], "");
    assert_eq!(lines[11], "Published Artifacts:");
    assert_eq!(lines[12], "Name                                     | Step Name");
    assert_eq!(lines[13], "-----------------------------------------|-------------------------------------");
    assert_eq!(lines[14], format!("{:<40} | build", "binary"));
    assert_eq!(lines.len(), 15);
}

#[test]
fn a_finished_run_shows_its_duration() {
    let r = run(RunStatus::Failed, Some(1609459200000 + 9_420_000), vec![], "{}");
    let lines = run_detail_lines(&r, None);
    assert_eq!(lines[5], "Finished: 2021-01-01 02:37:00");
    assert_eq!(lines[6], "Duration: 2h 37m");
    let r = run(RunStatus::Failed, Some(1609459200000 - 5), vec![], "{}");
    assert_eq!(run_detail_lines(&r, None)[6], "Duration: 0s");
}

#[test]
fn a_timed_step_shows_how_long_it_took() {
    let instance = r#"{"step_name":"build","status":"succeeded","started_at":"2021-01-01T00:00:00Z","finished_at":"2021-01-01T00:01:30.032Z"}"#;
    let mut s = step("build", "succeeded", instance);
    s.display_json = format!(
        r#"{{"instance":{},"outputs":[],"history":[{{"status":"queued","created_at":"soon"}},{{"status":"running"}}]}}"#,
        instance
    );
    let r = run(RunStatus::Succeeded, None, vec![s], "{}");
    let lines = run_detail_lines(&r, Some(0));
    let row = &lines[9];
    let column = format!("{:<15} (1m 30s 32ms)", "Succeeded");
    assert!(row.starts_with(&format!(">> {:<17} | {:<35} | ", "build", column)));
    assert_eq!(row.chars().count(), 3 + 17 + 3 + 35 + 3 + 19);
    assert_eq!(lines[10], "       └─ Detailed Timing: Started at 2021-01-01T00:00:00Z, Finished at 2021-01-01T00:01:30.032Z");
    assert_eq!(lines[11], format!("       └─ {:<15} at soon", "Queued"));
    assert_eq!(lines[12], format!("       └─ {:<15} at -", "Running"));
    assert_eq!(lines.len(), 13);
    let unselected = run_detail_lines(&r, None);
    assert_eq!(unselected.len(), 11);
}

#[test]
fn an_artifact_of_an_unknown_step_shows_the_step_id() {
    let r = run(
        RunStatus::Running,
        None,
        vec![],
        r#"{"artifacts":[{"artifact_name":"log","step_instance_id":"67E55044-10B1-426F-9247-BB680E5FE0C8"}]}"#,
    );
    let lines = run_detail_lines(&r, None);
    assert_eq!(lines[13], format!("{:<40} | 67e55044-10b1-426f-9247-bb680e5fe0c8", "log"));
}

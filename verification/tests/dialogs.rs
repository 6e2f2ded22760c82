use stormchaser::app::{App, AppAction, Pane, RunStatus, StepDetail, WorkflowRunDetail, WorkflowRunFullDetail};
use stormchaser::dialogs::{
    list_request, ActionCommand, ApiBody, BodyValue, CallPurpose, CronEntry, DialogKeyOutcome, EventRuleEntry,
    HttpMethod, ListKind,
};
use stormchaser::filters::{Key, KeyPress};

fn setup_app() -> App {
    App::new("http://test".to_string(), Some("token".to_string()))
}

fn key(k: Key) -> KeyPress {
    KeyPress { key: k, shift: false, ctrl: false }
}

fn shift(k: Key) -> KeyPress {
    KeyPress { key: k, shift: true, ctrl: false }
}

fn ctrl(k: Key) -> KeyPress {
    KeyPress { key: k, shift: false, ctrl: true }
}

fn run(id: u128) -> WorkflowRunDetail {
    WorkflowRunDetail {
        id,
        workflow_name: "test".to_string(),
        initiating_user: "user".to_string(),
        status: RunStatus::Succeeded,
        created_at_ms: 1_700_000_000_000,
        finished_at_ms: None,
    }
}

fn rule(id: u128) -> EventRuleEntry {
    EventRuleEntry {
        id,
        name: "rule1".to_string(),
        description: None,
        webhook_id: None,
        event_type_pattern: "push".to_string(),
        condition_expr: None,
        workflow_name: "wf1".to_string(),
        repo_url: "http".to_string(),
        workflow_path: "wf.storm".to_string(),
        git_ref: "main".to_string(),
        input_mappings_pretty: "{}".to_string(),
        is_active: true,
    }
}

fn cron(id: u128) -> CronEntry {
    CronEntry {
        id,
        name: "cron1".to_string(),
        description: None,
        cronspec: "* * * * *".to_string(),
        workflow_name: "wf1".to_string(),
        repo_url: "http".to_string(),
        workflow_path: "wf.storm".to_string(),
        git_ref: "main".to_string(),
        inputs_pretty: "{}".to_string(),
        is_active: false,
    }
}

fn text(v: &BodyValue) -> Option<&str> {
    match v {
        BodyValue::Text(t) => Some(t.as_str()),
        _ => None,
    }
}

fn fields(body: &ApiBody) -> &Vec<(String, BodyValue)> {
    match body {
        ApiBody::Fields(f) => f,
        _ => panic!("expected an object body"),
    }
}

fn open_file_browser_test() {
    let mut app = setup_app();
    app.open_file_browser();
    assert!(app.file_browser_active);
}

#[test]
fn dialogs_test_open_file_browser() {
    open_file_browser_test();
}

#[test]
fn scheduling_test_open_file_browser() {
    open_file_browser_test();
}

fn open_schedule_git_dialog_test() {
    let mut app = setup_app();
    app.open_schedule_git_dialog();
    assert!(app.schedule_git_dialog.active);
    assert_eq!(app.schedule_git_dialog.focus, 0);
    assert_eq!(app.schedule_git_dialog.inputs.len(), 3);
}

#[test]
fn dialogs_test_open_schedule_git_dialog() {
    open_schedule_git_dialog_test();
}

#[test]
fn scheduling_test_open_schedule_git_dialog() {
    open_schedule_git_dialog_test();
}

fn open_event_rule_dialog_new_test() {
    let mut app = setup_app();
    app.open_event_rule_dialog(false, None);
    assert!(app.event_rule_dialog.active);
    assert_eq!(app.event_rule_dialog.edit_id, None);
    assert_eq!(app.event_rule_dialog.inputs.len(), 10);
}

#[test]
fn dialogs_test_open_event_rule_dialog_new() {
    open_event_rule_dialog_new_test();
}

#[test]
fn event_rules_test_open_event_rule_dialog_new() {
    open_event_rule_dialog_new_test();
}

fn open_event_rule_dialog_edit_test() {
    let mut app = setup_app();
    let id: u128 = 0x1234;
    app.open_event_rule_dialog(true, Some(rule(id)));
    assert!(app.event_rule_dialog.active);
    assert_eq!(app.event_rule_dialog.edit_id, Some(id));
    assert_eq!(app.event_rule_dialog.inputs[0], "rule1");
    assert!(app.event_rule_dialog.is_active);
}

#[test]
fn dialogs_test_open_event_rule_dialog_edit() {
    open_event_rule_dialog_edit_test();
}

#[test]
fn event_rules_test_open_event_rule_dialog_edit() {
    open_event_rule_dialog_edit_test();
}

fn open_cron_dialog_new_test() {
    let mut app = setup_app();
    app.open_cron_dialog(false, None);
    assert!(app.cron_dialog.active);
    assert_eq!(app.cron_dialog.edit_id, None);
    assert_eq!(app.cron_dialog.inputs.len(), 8);
}

#[test]
fn dialogs_test_open_cron_dialog_new() {
    open_cron_dialog_new_test();
}

#[test]
fn cron_test_open_cron_dialog_new() {
    open_cron_dialog_new_test();
}

fn open_cron_dialog_edit_test() {
    let mut app = setup_app();
    let id: u128 = 0x5678;
    app.open_cron_dialog(true, Some(cron(id)));
    assert!(app.cron_dialog.active);
    assert_eq!(app.cron_dialog.edit_id, Some(id));
    assert_eq!(app.cron_dialog.inputs[0], "cron1");
    assert!(!app.cron_dialog.is_active);
}

#[test]
fn dialogs_test_open_cron_dialog_edit() {
    open_cron_dialog_edit_test();
}

#[test]
fn cron_test_open_cron_dialog_edit() {
    open_cron_dialog_edit_test();
}

#[test]
fn test_handle_schedule_git_dialog_key() {
    let mut app = setup_app();
    app.schedule_git_dialog.active = true;
    app.schedule_git_dialog.inputs = vec![String::new(), String::new(), String::new()];
    app.schedule_git_dialog.focus = 0;

    assert_eq!(app.handle_schedule_git_dialog_key(key(Key::Char('x'))), DialogKeyOutcome::Edit(0));

    app.handle_schedule_git_dialog_key(key(Key::Tab));
    assert_eq!(app.schedule_git_dialog.focus, 1);

    app.handle_schedule_git_dialog_key(shift(Key::BackTab));
    assert_eq!(app.schedule_git_dialog.focus, 0);

    app.handle_schedule_git_dialog_key(key(Key::Esc));
    assert!(!app.schedule_git_dialog.active);
}

#[test]
fn test_handle_event_rule_dialog_key() {
    let mut app = setup_app();
    app.event_rule_dialog.active = true;
    app.event_rule_dialog.inputs = vec![String::new()];
    app.event_rule_dialog.focus = 0;

    assert_eq!(app.handle_event_rule_dialog_key(key(Key::Char('w'))), DialogKeyOutcome::Edit(0));

    app.handle_event_rule_dialog_key(key(Key::Tab));
    assert_eq!(app.event_rule_dialog.focus, 1);

    app.event_rule_dialog.is_active = false;
    app.handle_event_rule_dialog_key(key(Key::Char(' ')));
    assert!(app.event_rule_dialog.is_active);

    app.handle_event_rule_dialog_key(key(Key::Esc));
    assert!(!app.event_rule_dialog.active);
}

#[test]
fn test_handle_cron_dialog_key() {
    let mut app = setup_app();
    app.cron_dialog.active = true;
    app.cron_dialog.inputs = vec![String::new()];
    app.cron_dialog.focus = 0;

    assert_eq!(app.handle_cron_dialog_key(key(Key::Char('v'))), DialogKeyOutcome::Edit(0));

    app.handle_cron_dialog_key(key(Key::Tab));
    assert_eq!(app.cron_dialog.focus, 1);

    app.cron_dialog.is_active = false;
    app.handle_cron_dialog_key(key(Key::Char(' ')));
    assert!(app.cron_dialog.is_active);

    app.handle_cron_dialog_key(key(Key::Esc));
    assert!(!app.cron_dialog.active);
}

#[test]
fn test_handle_file_browser_key() {
    let mut app = setup_app();
    app.file_browser_active = true;
    app.handle_file_browser_key(key(Key::Esc));
    assert!(!app.file_browser_active);
}

#[test]
fn mod_test_handle_approval_dialog_key() {
    let mut app = setup_app();
    app.approval_dialog_active = true;

    assert_eq!(app.handle_approval_dialog_key(key(Key::Char('b'))), DialogKeyOutcome::Edit(0));

    app.handle_approval_dialog_key(key(Key::Esc));
    assert!(!app.approval_dialog_active);
}

#[test]
fn handlers_test_handle_approval_dialog_key() {
    let mut app = setup_app();
    app.approval_dialog_active = true;
    app.handle_approval_dialog_key(key(Key::Esc));
    assert!(!app.approval_dialog_active);
}

#[test]
fn test_handle_action_keys() {
    let mut app = setup_app();

    app.active_pane = Pane::RunsList;
    app.handle_action_keys(key(Key::Char('r')));
    assert!(app.file_browser_active);
    app.file_browser_active = false;

    app.handle_action_keys(key(Key::Char('c')));
    assert!(app.schedule_git_dialog.active);
    app.schedule_git_dialog.active = false;

    app.runs.push(run(7));
    app.runs_selected = Some(0);
    app.handle_action_keys(key(Key::Char('d')));
    assert!(app.delete_run_dialog_active);
    app.delete_run_dialog_active = false;

    assert_eq!(app.handle_action_keys(key(Key::Char('e'))), ActionCommand::Nothing);
    assert!(!app.schedule_git_dialog.active);
    assert!(!app.file_browser_active);
    assert!(!app.delete_run_dialog_active);

    app.active_pane = Pane::ConnectionsList;
    assert_eq!(app.handle_action_keys(key(Key::Char('c'))), ActionCommand::OpenConnectionDialog { edit: false });
    assert_eq!(app.handle_action_keys(key(Key::Char('e'))), ActionCommand::OpenConnectionDialog { edit: true });
    assert_eq!(app.handle_action_keys(key(Key::Char('d'))), ActionCommand::DeleteSelectedConnection);
}

#[test]
fn action_keys_by_pane() {
    let mut app = setup_app();
    app.active_pane = Pane::RunDetail;
    assert_eq!(app.handle_action_keys(key(Key::Char('A'))), ActionCommand::OpenApprovalDialog);
    assert!(app.approval_dialog_active);
    assert_eq!(app.approval_inputs, "{}");
    assert_eq!(app.handle_action_keys(key(Key::Char('R'))), ActionCommand::RejectSelectedStep);
    app.active_pane = Pane::RunsList;
    assert_eq!(app.handle_action_keys(key(Key::Char('A'))), ActionCommand::Nothing);
    app.active_pane = Pane::WebhookDetail;
    assert_eq!(app.handle_action_keys(key(Key::Char('e'))), ActionCommand::OpenWebhookDialog { edit: true });
    app.active_pane = Pane::EventRulesList;
    assert_eq!(app.handle_action_keys(key(Key::Char('c'))), ActionCommand::OpenEventRuleDialog { edit: false });
    app.active_pane = Pane::CronWorkflowDetail;
    assert_eq!(app.handle_action_keys(key(Key::Char('d'))), ActionCommand::DeleteSelectedCronWorkflow);
    app.active_pane = Pane::TestResults;
    assert_eq!(app.handle_action_keys(key(Key::Char('c'))), ActionCommand::Nothing);
    assert_eq!(app.handle_action_keys(key(Key::Char('/'))), ActionCommand::OpenFilterDialog);
    // Without a selected run there is nothing to delete.
    app.active_pane = Pane::RunsList;
    assert_eq!(app.handle_action_keys(key(Key::Char('d'))), ActionCommand::OpenDeleteRunDialog);
    assert!(!app.delete_run_dialog_active);
}

#[test]
fn switch_form_focus_wraps_both_ways() {
    let mut app = setup_app();
    app.open_cron_dialog(false, None);
    // Eight fields and the switch: nine positions.
    app.handle_cron_dialog_key(shift(Key::BackTab));
    assert_eq!(app.cron_dialog.focus, 8);
    app.handle_cron_dialog_key(key(Key::Tab));
    assert_eq!(app.cron_dialog.focus, 0);
    // Enter on the switch flips it; Ctrl+Enter submits.
    app.cron_dialog.focus = 8;
    app.handle_cron_dialog_key(key(Key::Enter));
    assert!(!app.cron_dialog.is_active);
    assert_eq!(app.handle_cron_dialog_key(ctrl(Key::Enter)), DialogKeyOutcome::Submit);
    assert!(!app.cron_dialog.is_active);
}

#[test]
fn delete_run_confirmation() {
    let mut app = setup_app();
    app.delete_run_dialog_active = true;
    assert_eq!(app.handle_delete_run_dialog_key(key(Key::Char('x'))), DialogKeyOutcome::Done);
    assert!(app.delete_run_dialog_active);
    assert_eq!(app.handle_delete_run_dialog_key(key(Key::Char('Y'))), DialogKeyOutcome::Submit);
    assert!(!app.delete_run_dialog_active);
    app.delete_run_dialog_active = true;
    assert_eq!(app.handle_delete_run_dialog_key(key(Key::Char('n'))), DialogKeyOutcome::Closed);
    assert!(!app.delete_run_dialog_active);
}

#[test]
fn edit_dialog_normalizes_line_ends() {
    let mut app = setup_app();
    let mut r = rule(1);
    r.description = Some("first\r\nsecond\n".to_string());
    r.webhook_id = Some(0x00112233_4455_6677_8899_aabbccddeeff);
    r.input_mappings_pretty = "{\n  \"a\": 1\n}".to_string();
    app.open_event_rule_dialog(true, Some(r));
    assert_eq!(app.event_rule_dialog.inputs[1], "first\nsecond");
    assert_eq!(app.event_rule_dialog.inputs[2], "00112233-4455-6677-8899-aabbccddeeff");
    assert_eq!(app.event_rule_dialog.inputs[4], "");
    assert_eq!(app.event_rule_dialog.inputs[9], "{\n  \"a\": 1\n}");
}

#[test]
fn event_rule_submit_builds_request() {
    let mut app = setup_app();
    let mut r = rule(0x10);
    r.webhook_id = Some(0xabc);
    r.description = Some("  ".to_string());
    app.open_event_rule_dialog(true, Some(r));
    let call = app.submit_event_rule_form().expect("a request");
    assert_eq!(call.method, HttpMethod::Patch);
    assert_eq!(call.path, "/api/v1/rules/00000000-0000-0000-0000-000000000010");
    let f = fields(&call.body);
    assert_eq!(f.len(), 11);
    assert_eq!(f[0].0, "name");
    assert_eq!(text(&f[0].1), Some("rule1"));
    assert!(matches!(f[1].1, BodyValue::Null));
    assert_eq!(text(&f[2].1), Some("00000000-0000-0000-0000-000000000abc"));
    assert!(matches!(f[4].1, BodyValue::Null));
    assert!(matches!(&f[9].1, BodyValue::Json(t) if t == "{}"));
    assert!(matches!(f[10].1, BodyValue::Flag(true)));
    assert_eq!(app.error, None);
}

#[test]
fn event_rule_submit_refusals() {
    let mut app = setup_app();
    app.open_event_rule_dialog(false, None);
    assert!(app.submit_event_rule_form().is_none());
    assert_eq!(app.error.as_deref(), Some("Required fields are missing."));

    for (i, v) in ["n", "", "", "push", "", "wf", "repo", "wf.storm", "main"].iter().enumerate() {
        app.event_rule_dialog.inputs[i] = v.to_string();
    }
    app.event_rule_dialog.inputs[9] = "{not json".to_string();
    assert!(app.submit_event_rule_form().is_none());
    assert_eq!(app.error.as_deref(), Some("Input mappings must be valid JSON."));

    app.event_rule_dialog.inputs[9] = "   ".to_string();
    app.event_rule_dialog.inputs[2] = "not-a-uuid".to_string();
    assert!(app.submit_event_rule_form().is_none());
    assert_eq!(app.error.as_deref(), Some("Invalid Webhook ID format"));

    app.event_rule_dialog.inputs[2] = String::new();
    app.error = None;
    let call = app.submit_event_rule_form().expect("a request");
    assert_eq!(call.method, HttpMethod::Post);
    assert_eq!(call.path, "/api/v1/rules");
    assert!(matches!(&fields(&call.body)[9].1, BodyValue::Json(t) if t == "{}"));

    // Without a token nothing is sent and nothing changes.
    app.token = None;
    app.event_rule_dialog.inputs[0] = String::new();
    assert!(app.submit_event_rule_form().is_none());
    assert_eq!(app.error, None);
}

#[test]
fn cron_submit_builds_request() {
    let mut app = setup_app();
    app.open_cron_dialog(true, Some(cron(0x20)));
    let call = app.submit_cron_workflow_form().expect("a request");
    assert_eq!(call.method, HttpMethod::Patch);
    assert_eq!(call.path, "/api/v1/cron-workflows/00000000-0000-0000-0000-000000000020");
    let f = fields(&call.body);
    assert_eq!(f.len(), 9);
    assert_eq!(text(&f[2].1), Some("* * * * *"));
    assert!(matches!(f[8].1, BodyValue::Flag(false)));

    app.cron_dialog.inputs[7] = "[1,".to_string();
    assert!(app.submit_cron_workflow_form().is_none());
    assert_eq!(app.error.as_deref(), Some("Inputs must be valid JSON."));
    app.cron_dialog.inputs[2] = " ".to_string();
    assert!(app.submit_cron_workflow_form().is_none());
    assert_eq!(app.error.as_deref(), Some("Required fields are missing."));
}

#[test]
fn schedule_git_submit() {
    let mut app = setup_app();
    assert!(app.submit_schedule_git().is_none());
    assert_eq!(app.error, None);

    app.open_schedule_git_dialog();
    app.schedule_git_dialog.inputs[0] = " my-conn \nignored".to_string();
    app.schedule_git_dialog.inputs[1] = "flows/deploy/main.storm".to_string();
    assert!(app.submit_schedule_git().is_none());
    assert_eq!(app.error.as_deref(), Some("All fields must be provided"));

    app.schedule_git_dialog.inputs[2] = "v1.2".to_string();
    let call = app.submit_schedule_git().expect("a request");
    assert_eq!(call.method, HttpMethod::Post);
    assert_eq!(call.path, "/api/v1/runs");
    let f = fields(&call.body);
    assert_eq!(text(&f[0].1), Some("my-conn"));
    assert_eq!(text(&f[1].1), Some("main.storm"));
    assert_eq!(text(&f[2].1), Some("flows/deploy/main.storm"));
    assert_eq!(text(&f[3].1), Some("v1.2"));
    assert!(matches!(&f[4].1, BodyValue::Json(t) if t == "{}"));
}

#[test]
fn step_decisions_and_run_deletion() {
    let mut app = setup_app();
    assert!(app.approve_selected_step().is_none());
    let step = StepDetail {
        name: Some("gate".to_string()),
        status: Some("waiting".to_string()),
        id: Some(2),
        is_object: true,
        display_json: "{}".to_string(),
        logs: vec![],
    };
    app.selected_run = Some(WorkflowRunFullDetail { detail: run(1), steps: vec![step], attachments_json: "[]".to_string() });
    app.approval_inputs = "{\"ok\": true}".to_string();
    let call = app.approve_selected_step().expect("a request");
    assert_eq!(
        call.path,
        "/api/v1/runs/00000000-0000-0000-0000-000000000001/steps/00000000-0000-0000-0000-000000000002/approve"
    );
    assert!(matches!(&call.body, ApiBody::Json(t) if t == "{\"ok\": true}"));
    app.approval_inputs = "nope".to_string();
    assert!(matches!(&app.approve_selected_step().unwrap().body, ApiBody::Json(t) if t == "{}"));
    let reject = app.reject_selected_step().expect("a request");
    assert!(reject.path.ends_with("/reject"));
    assert!(matches!(reject.body, ApiBody::Empty));

    app.runs = vec![run(1), run(3)];
    app.runs_selected = Some(1);
    let del = app.delete_selected_run().expect("a request");
    assert_eq!(del.method, HttpMethod::Delete);
    assert_eq!(del.path, "/api/v1/runs/00000000-0000-0000-0000-000000000003");
    app.run_logs = vec!["x".to_string()];
    app.error = Some("old".to_string());
    app.run_deleted();
    assert_eq!(app.runs_selected, Some(0));
    assert!(app.selected_run.is_none());
    assert!(app.run_logs.is_empty());
    assert_eq!(app.error, None);
    app.run_deleted();
    assert_eq!(app.runs_selected, Some(0));
}

fn entry_json(id: &str, name: &str) -> String {
    format!("{{\"id\":\"{}\",\"name\":\"{}\",\"is_active\":true}}", id, name)
}

const ID_A: &str = "6f1c2a9e-8d1b-4c55-9a43-2b7c0e5d1f00";

fn refresh_list_test(kind: ListKind, path: &str) {
    let mut app = setup_app();
    let call = list_request(&app.token, kind).expect("a request");
    assert_eq!(call.method, HttpMethod::Get);
    assert_eq!(call.path, path);
    app.error = Some("stale".to_string());
    app.listing_fetched(kind, vec![entry_json(ID_A, "one")]);
    let l = match kind {
        ListKind::Connections => &app.connections,
        ListKind::Webhooks => &app.webhooks,
        ListKind::EventRules => &app.event_rules,
        ListKind::CronWorkflows => &app.cron_workflows,
    };
    assert_eq!(l.items.len(), 1);
    assert_eq!(l.selected, Some(0));
    assert_eq!(l.current.as_deref(), Some(entry_json(ID_A, "one").as_str()));
    assert!(app.error.is_none());
}

#[test]
fn test_refresh_connections_success() {
    refresh_list_test(ListKind::Connections, "/api/v1/connections");
}

#[test]
fn test_refresh_webhooks_success() {
    refresh_list_test(ListKind::Webhooks, "/api/v1/webhooks");
}

#[test]
fn test_refresh_event_rules_uses_correct_path() {
    refresh_list_test(ListKind::EventRules, "/api/v1/rules");
}

#[test]
fn test_refresh_cron_workflows_uses_correct_path() {
    refresh_list_test(ListKind::CronWorkflows, "/api/v1/cron-workflows");
}

fn delete_entry_test(kind: ListKind, base: &str) {
    let mut app = setup_app();
    app.listing_fetched(kind, vec![entry_json(ID_A, "one")]);
    let call = app.delete_selected_entry(kind).expect("a request");
    assert_eq!(call.method, HttpMethod::Delete);
    assert_eq!(call.path, format!("{}/{}", base, ID_A));
    assert!(matches!(call.body, ApiBody::Empty));
}

#[test]
fn test_delete_selected_connection() {
    delete_entry_test(ListKind::Connections, "/api/v1/connections");
}

#[test]
fn test_delete_selected_webhook() {
    delete_entry_test(ListKind::Webhooks, "/api/v1/webhooks");
}

#[test]
fn test_delete_event_rule_uses_correct_path() {
    delete_entry_test(ListKind::EventRules, "/api/v1/rules");
}

#[test]
fn test_delete_cron_workflow_uses_correct_path() {
    delete_entry_test(ListKind::CronWorkflows, "/api/v1/cron-workflows");
}

#[test]
fn list_refresh_edges() {
    let mut app = setup_app();
    // Nothing to delete without a selection, or without a UUID id.
    assert!(app.delete_selected_entry(ListKind::Webhooks).is_none());
    app.listing_fetched(ListKind::Webhooks, vec!["{\"id\":7}".to_string()]);
    assert!(app.delete_selected_entry(ListKind::Webhooks).is_none());
    // A kept copy stays; an empty list clears the selection.
    app.listing_fetched(ListKind::Webhooks, vec![entry_json(ID_A, "a"), entry_json(ID_A, "b")]);
    assert_eq!(app.webhooks.selected, Some(0));
    assert_eq!(app.webhooks.current.as_deref(), Some("{\"id\":7}"));
    app.listing_fetched(ListKind::Webhooks, vec![]);
    assert_eq!(app.webhooks.selected, None);
    assert_eq!(app.webhooks.current, None);
    app.listing_fetch_failed(ListKind::EventRules, "500 Internal Server Error".to_string());
    assert_eq!(app.error.as_deref(), Some("Failed to fetch event rules: 500 Internal Server Error"));
    // Without a token nothing is fetched.
    app.token = None;
    assert!(list_request(&app.token, ListKind::Connections).is_none());
}

#[test]
fn test_submit_schedule_git_success() {
    let mut app = setup_app();
    app.open_schedule_git_dialog();
    app.schedule_git_dialog.inputs[0].push_str("http://repo");
    app.schedule_git_dialog.inputs[1].push_str("wf.yaml");
    app.schedule_git_dialog.inputs[2].push_str("main");

    let call = app.submit_schedule_git().expect("a request");
    assert_eq!(call.path, "/api/v1/runs");
    // the server accepts it
    let acts = app.call_accepted(CallPurpose::ScheduleGit);
    assert_eq!(acts, vec![AppAction::RefreshRuns]);
    assert!(app.error.is_none());
    assert!(!app.schedule_git_dialog.active);
}

#[test]
fn answered_requests() {
    let mut app = setup_app();
    app.open_event_rule_dialog(false, None);
    assert_eq!(app.call_accepted(CallPurpose::SaveEventRule), vec![AppAction::RefreshEventRules]);
    assert!(!app.event_rule_dialog.active);
    app.approval_dialog_active = true;
    app.error = Some("x".to_string());
    assert_eq!(app.call_accepted(CallPurpose::RejectStep), vec![AppAction::RefreshRuns]);
    assert!(!app.approval_dialog_active);
    assert!(app.error.is_none());
    assert_eq!(app.call_accepted(CallPurpose::DeleteEntry(ListKind::Webhooks)), vec![AppAction::RefreshWebhooks]);
    app.call_refused(CallPurpose::DeleteEntry(ListKind::Connections), "404 Not Found".to_string());
    assert_eq!(app.error.as_deref(), Some("Failed to delete storage backend: 404 Not Found"));
    app.call_refused(CallPurpose::SaveCronWorkflow, "400 Bad Request".to_string());
    assert_eq!(app.error.as_deref(), Some("Failed to save cron workflow: 400 Bad Request"));
}

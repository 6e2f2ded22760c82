use stormchaser::app::{App, AppAction, Pane, RunStatus, StepDetail, WorkflowRunDetail, WorkflowRunFullDetail};
use stormchaser::filters::{FilterKeyOutcome, Key, KeyPress};
use stormchaser::keys::KeyCommand;

fn setup_app() -> App {
    App::new("http://test".to_string(), Some("token".to_string()))
}

fn mock_run_detail(id: u128, status: RunStatus) -> WorkflowRunDetail {
    WorkflowRunDetail {
        id,
        workflow_name: "test".to_string(),
        initiating_user: "user".to_string(),
        status,
        created_at_ms: 1_700_000_000_000,
        finished_at_ms: None,
    }
}

fn mock_step_detail(name: &str, status: &str) -> StepDetail {
    StepDetail {
        name: Some(name.to_string()),
        status: Some(status.to_string()),
        id: None,
        is_object: true,
        display_json: "{}".to_string(),
        logs: vec![],
    }
}

fn mock_full_detail(id: u128, status: RunStatus, steps: Vec<StepDetail>) -> WorkflowRunFullDetail {
    WorkflowRunFullDetail { detail: mock_run_detail(id, status), steps, attachments_json: "[]".to_string() }
}

fn key(k: Key) -> KeyPress {
    KeyPress { key: k, shift: false, ctrl: false }
}

fn shift(k: Key) -> KeyPress {
    KeyPress { key: k, shift: true, ctrl: false }
}

fn status_update_basic_mod() {
    let mut app = setup_app();
    let run_id: u128 = 42;
    app.handle_status_update(run_id, "running".to_string(), 0);
    assert!(app.runs.is_empty());
    app.runs.push(mock_run_detail(run_id, RunStatus::Queued));
    app.handle_status_update(run_id, "running".to_string(), 0);
    assert_eq!(app.runs[0].status, RunStatus::Running);
    app.selected_run = Some(mock_full_detail(run_id, RunStatus::Queued, vec![]));
    app.handle_status_update(run_id, "succeeded".to_string(), 0);
    assert_eq!(app.selected_run.as_ref().unwrap().detail.status, RunStatus::Succeeded);
}

#[test]
fn mod_test_handle_status_update_basic() {
    status_update_basic_mod();
}

#[test]
fn handlers_test_handle_status_update_basic() {
    let mut app = setup_app();
    let run_id: u128 = 42;
    app.runs.push(mock_run_detail(run_id, RunStatus::Queued));
    app.handle_status_update(run_id, r#"{"status": "running"}"#.to_string(), 0);
    assert_eq!(app.runs[0].status, RunStatus::Running);
    app.handle_status_update(run_id, r#"{"status": "succeeded"}"#.to_string(), 0);
    assert_eq!(app.runs[0].status, RunStatus::Succeeded);
    app.handle_status_update(run_id, r#"{"status": "queued"}"#.to_string(), 0);
    assert_eq!(app.runs[0].status, RunStatus::Succeeded);
}

#[test]
fn runs_test_handle_status_update_basic() {
    let mut app = setup_app();
    let run_id: u128 = 42;
    app.runs.push(mock_run_detail(run_id, RunStatus::Running));
    app.handle_status_update(run_id, "succeeded".to_string(), 0);
    assert_eq!(app.runs[0].status, RunStatus::Succeeded);
}

#[test]
fn test_handle_status_update_prevent_downgrade() {
    let mut app = setup_app();
    let run_id: u128 = 42;
    app.runs.push(mock_run_detail(run_id, RunStatus::Succeeded));
    app.handle_status_update(run_id, "running".to_string(), 0);
    assert_eq!(app.runs[0].status, RunStatus::Succeeded);
}

#[test]
fn quoted_json_status_is_read() {
    let mut app = setup_app();
    app.runs.push(mock_run_detail(1, RunStatus::Queued));
    app.handle_status_update(1, "\"aborted\"".to_string(), 0);
    assert_eq!(app.runs[0].status, RunStatus::Aborted);
}

#[test]
fn refresh_requests_are_throttled() {
    let mut app = setup_app();
    let acts = app.handle_status_update(5, "refresh".to_string(), 10_000);
    assert_eq!(acts, vec![AppAction::FetchRun { id: 5 }]);
    assert_eq!(app.last_refresh_ms, Some(10_000));
    let acts = app.handle_status_update(5, "refresh".to_string(), 11_999);
    assert!(acts.is_empty());
    let acts = app.handle_status_update(5, "force_refresh".to_string(), 11_999);
    assert_eq!(acts, vec![AppAction::FetchRun { id: 5 }]);
    let acts = app.handle_status_update(5, "refresh".to_string(), 14_000);
    assert_eq!(acts, vec![AppAction::FetchRun { id: 5 }]);
}

#[test]
fn finished_runs_are_delivered_from_the_cache() {
    let mut app = setup_app();
    app.runs.push(mock_run_detail(3, RunStatus::Running));
    app.runs_selected = Some(0);
    app.handle_full_run_update(mock_full_detail(3, RunStatus::Succeeded, vec![]));
    assert_eq!(app.cached_runs.len(), 1);
    let acts = app.handle_status_update(3, "force_refresh".to_string(), 0);
    assert_eq!(acts, vec![AppAction::DeliverCached { id: 3 }]);
    assert!(!app.needs_watching(3));
    assert_eq!(app.cached_run(3).unwrap().detail.id, 3);
}

fn workflow_update_mod() {
    let mut app = setup_app();
    let run_id: u128 = 42;
    let detail = mock_run_detail(run_id, RunStatus::Queued);
    app.handle_workflow_update(detail.duplicate());
    assert_eq!(app.runs.len(), 1);
    let mut updated = detail.duplicate();
    updated.status = RunStatus::Running;
    app.handle_workflow_update(updated);
    assert_eq!(app.runs[0].status, RunStatus::Running);
}

#[test]
fn mod_test_handle_workflow_update() {
    workflow_update_mod();
}

#[test]
fn handlers_test_handle_workflow_update() {
    let mut app = setup_app();
    let run_id: u128 = 42;
    app.handle_workflow_update(mock_run_detail(run_id, RunStatus::Queued));
    assert_eq!(app.runs.len(), 1);
    assert_eq!(app.runs[0].status, RunStatus::Queued);
    app.handle_workflow_update(mock_run_detail(run_id, RunStatus::Running));
    assert_eq!(app.runs.len(), 1);
    assert_eq!(app.runs[0].status, RunStatus::Running);
}

#[test]
fn forced_selection_follows_a_new_run() {
    let mut app = setup_app();
    app.runs.push(mock_run_detail(1, RunStatus::Running));
    app.runs_selected = Some(0);
    app.force_select_run_id = Some(2);
    let acts = app.handle_workflow_update(mock_run_detail(2, RunStatus::Queued));
    assert_eq!(app.runs[0].id, 2);
    assert_eq!(app.runs_selected, Some(0));
    assert_eq!(app.force_select_run_id, None);
    assert_eq!(acts[0], AppAction::RefreshRun { id: 2, force: true });
    assert_eq!(acts[1], AppAction::StartWatching { id: 2 });
    // an unforced new run moves the selection down
    app.handle_workflow_update(mock_run_detail(3, RunStatus::Queued));
    assert_eq!(app.runs_selected, Some(1));
    assert_eq!(app.runs[1].id, 2);
}

fn step_update(start: &str) {
    let mut app = setup_app();
    let run_id: u128 = 42;
    app.selected_run = Some(mock_full_detail(run_id, RunStatus::Running, vec![mock_step_detail("test_step", start)]));
    let acts = app.handle_step_update(run_id, "test_step".to_string(), "running".to_string());
    assert_eq!(app.selected_run.as_ref().unwrap().steps[0].status.as_deref(), Some("running"));
    assert_eq!(acts.last(), Some(&AppAction::RefreshRun { id: run_id, force: false }));
}

#[test]
fn mod_test_handle_step_update() {
    step_update("pending");
}

#[test]
fn handlers_test_handle_step_update() {
    step_update("queued");
}

#[test]
fn final_step_status_forces_a_refresh() {
    let mut app = setup_app();
    app.selected_run = Some(mock_full_detail(1, RunStatus::Running, vec![mock_step_detail("a", "running")]));
    let acts = app.handle_step_update(1, "a".to_string(), "skipped".to_string());
    assert_eq!(acts.last(), Some(&AppAction::RefreshRun { id: 1, force: true }));
    let acts = app.handle_step_update(1, "b".to_string(), "failed".to_string());
    assert!(acts.is_empty());
}

fn step_logs_fetched_merge() {
    let mut app = setup_app();
    let run_id: u128 = 42;
    let mut step = mock_step_detail("test_step", "running");
    step.logs = vec!["live log 1".to_string(), "live log 2".to_string()];
    app.selected_run = Some(mock_full_detail(run_id, RunStatus::Running, vec![step]));
    app.selected_step_index = 0;
    let fetched = vec!["historic log 1".to_string(), "historic log 2".to_string(), "live log 1".to_string()];
    app.handle_step_logs_fetched(run_id, 0, fetched);
    let logs = &app.selected_run.as_ref().unwrap().steps[0].logs;
    assert_eq!(logs.len(), 4);
    assert_eq!(logs[0], "historic log 1");
    assert_eq!(logs[1], "historic log 2");
    assert_eq!(logs[2], "live log 1");
    assert_eq!(logs[3], "live log 2");
    assert_eq!(app.run_logs.len(), 4);
    assert_eq!(app.run_logs[3], "live log 2");
    assert_eq!(app.log_scroll, 3);
}

#[test]
fn mod_test_handle_step_logs_fetched_merge_with_live() {
    step_logs_fetched_merge();
}

#[test]
fn handlers_test_handle_step_logs_fetched_merge_with_live() {
    step_logs_fetched_merge();
}

#[test]
fn mod_test_handle_log_line() {
    let mut app = setup_app();
    let run_id: u128 = 42;
    app.selected_run = Some(mock_full_detail(run_id, RunStatus::Running, vec![mock_step_detail("test_step", "running")]));
    app.selected_step_index = 0;
    app.handle_log_line(run_id, "[test_step] Hello World".to_string());
    assert_eq!(app.run_logs.len(), 1);
    assert_eq!(app.run_logs[0], "Hello World");
    app.handle_log_line(run_id, "[test_step]  Extra Space".to_string());
    assert_eq!(app.run_logs.len(), 2);
    assert_eq!(app.run_logs[1], " Extra Space");
}

#[test]
fn handlers_test_handle_log_line() {
    let mut app = setup_app();
    let run_id: u128 = 42;
    app.selected_run = Some(mock_full_detail(run_id, RunStatus::Running, vec![mock_step_detail("test_step", "running")]));
    app.selected_step_index = 0;
    app.handle_log_line(run_id, "[test_step] Hello World".to_string());
    let step = &app.selected_run.as_ref().unwrap().steps[0];
    assert_eq!(step.logs.len(), 1);
    assert_eq!(step.logs[0], "Hello World");
    assert_eq!(app.run_logs.len(), 1);
    assert_eq!(app.run_logs[0], "Hello World");
}

#[test]
fn log_lines_of_other_steps_are_not_shown() {
    let mut app = setup_app();
    app.selected_run = Some(mock_full_detail(
        1,
        RunStatus::Running,
        vec![mock_step_detail("a", "running"), mock_step_detail("b", "running")],
    ));
    app.selected_step_index = 0;
    app.handle_log_line(1, "[b]x".to_string());
    assert!(app.run_logs.is_empty());
    assert_eq!(app.selected_run.as_ref().unwrap().steps[1].logs, vec!["x".to_string()]);
    app.handle_log_line(1, "[c] nobody".to_string());
    assert!(app.selected_run.as_ref().unwrap().steps[0].logs.is_empty());
}

#[test]
fn test_handle_full_run_update_preserves_logs() {
    let mut app = setup_app();
    let run_id: u128 = 42;
    let mut old_step = mock_step_detail("build", "running");
    old_step.logs = vec!["compiling...".to_string()];
    let old = mock_full_detail(run_id, RunStatus::Running, vec![old_step]);
    app.runs.push(old.detail.duplicate());
    app.selected_run = Some(old);
    app.runs_selected = Some(0);
    app.handle_full_run_update(mock_full_detail(run_id, RunStatus::Running, vec![mock_step_detail("build", "running")]));
    assert_eq!(app.selected_run.as_ref().unwrap().steps[0].logs, vec!["compiling..."]);
}

#[test]
fn full_run_update_keeps_progress_and_cleans_logs() {
    let mut app = setup_app();
    let old = mock_full_detail(1, RunStatus::Failed, vec![mock_step_detail("build", "running")]);
    app.runs.push(old.detail.duplicate());
    app.runs_selected = Some(0);
    app.selected_run = Some(old);
    app.selected_step_index = 5;
    let mut fresh_step = mock_step_detail("build", "pending");
    fresh_step.logs = vec!["line one\r\n  ".to_string(), "two".to_string()];
    fresh_step.id = Some(77);
    let act = app.handle_full_run_update(mock_full_detail(1, RunStatus::Running, vec![fresh_step]));
    let shown = app.selected_run.as_ref().unwrap();
    assert_eq!(shown.detail.status, RunStatus::Failed);
    assert_eq!(shown.steps[0].status.as_deref(), Some("running"));
    assert_eq!(shown.steps[0].logs, vec!["line one".to_string(), "two".to_string()]);
    assert_eq!(app.selected_step_index, 0);
    assert_eq!(app.run_logs, vec!["line one".to_string(), "two".to_string()]);
    assert_eq!(act, Some(AppAction::FetchStepLogs { run_id: 1, step_id: 77, step_index: 0 }));
    assert_eq!(app.cached_runs.len(), 1);
    // the step's logs are asked for once only
    assert_eq!(app.refresh_step_logs(false), None);
}

#[test]
fn full_run_update_of_another_run_is_ignored() {
    let mut app = setup_app();
    app.runs.push(mock_run_detail(1, RunStatus::Running));
    app.runs_selected = Some(0);
    assert_eq!(app.handle_full_run_update(mock_full_detail(2, RunStatus::Running, vec![])), None);
    assert!(app.selected_run.is_none());
}

#[test]
fn test_scroll_logic() {
    let mut app = setup_app();
    app.scroll_logs_down();
    assert_eq!(app.log_scroll, 1);
    app.scroll_logs_up();
    assert_eq!(app.log_scroll, 0);
    assert!(!app.log_auto_scroll);
    app.scroll_logs_right();
    assert_eq!(app.log_scroll_x, 1);
    app.scroll_logs_left();
    assert_eq!(app.log_scroll_x, 0);
    app.scroll_logs_left();
    assert_eq!(app.log_scroll_x, 0);
    app.scroll_overview_down();
    assert_eq!(app.overview_scroll, 1);
    app.scroll_overview_up();
    assert_eq!(app.overview_scroll, 0);
    app.scroll_logs_down();
    app.scroll_logs_down();
    app.scroll_logs_to_top();
    assert_eq!(app.log_scroll, 0);
    assert!(!app.log_auto_scroll);
}

#[test]
fn test_run_navigation_empty() {
    let mut app = setup_app();
    app.next_run();
    assert_eq!(app.runs_selected, None);
    app.previous_run();
    assert_eq!(app.runs_selected, None);
}

#[test]
fn test_run_navigation() {
    let mut app = setup_app();
    app.runs = vec![
        WorkflowRunDetail {
            id: 1,
            workflow_name: "1".to_string(),
            initiating_user: "u".to_string(),
            status: RunStatus::Succeeded,
            created_at_ms: 0,
            finished_at_ms: None,
        },
        WorkflowRunDetail {
            id: 2,
            workflow_name: "2".to_string(),
            initiating_user: "u".to_string(),
            status: RunStatus::Succeeded,
            created_at_ms: 0,
            finished_at_ms: None,
        },
    ];
    let acts = app.next_run();
    assert_eq!(app.runs_selected, Some(0));
    assert_eq!(acts, vec![AppAction::RefreshRun { id: 1, force: true }, AppAction::StartWatching { id: 1 }]);
    app.next_run();
    assert_eq!(app.runs_selected, Some(1));
    app.next_run();
    assert_eq!(app.runs_selected, Some(0));
    app.previous_run();
    assert_eq!(app.runs_selected, Some(1));
    app.previous_run();
    assert_eq!(app.runs_selected, Some(0));
}

#[test]
fn test_pending_approval_navigation_empty() {
    let mut app = setup_app();
    app.next_pending_approval();
    assert_eq!(app.pending_approvals_selected, None);
    app.previous_pending_approval();
    assert_eq!(app.pending_approvals_selected, None);
}

#[test]
fn test_pending_approval_navigation() {
    let mut app = setup_app();
    app.pending_approvals = vec![mock_run_detail(1, RunStatus::Running), mock_run_detail(2, RunStatus::Running)];
    app.next_pending_approval();
    assert_eq!(app.pending_approvals_selected, Some(0));
    app.next_pending_approval();
    assert_eq!(app.pending_approvals_selected, Some(1));
    app.next_pending_approval();
    assert_eq!(app.pending_approvals_selected, Some(0));
    app.previous_pending_approval();
    assert_eq!(app.pending_approvals_selected, Some(1));
    app.previous_pending_approval();
    assert_eq!(app.pending_approvals_selected, Some(0));
}

#[test]
fn connection_navigation_copies_the_entry() {
    let mut app = setup_app();
    app.connections.items = vec!["{\"a\":1}".to_string(), "{\"b\":2}".to_string()];
    app.previous_connection();
    assert_eq!(app.connections.selected, Some(0));
    assert_eq!(app.connections.current.as_deref(), Some("{\"a\":1}"));
    app.previous_connection();
    assert_eq!(app.connections.selected, Some(1));
    assert_eq!(app.connections.current.as_deref(), Some("{\"b\":2}"));
    app.next_connection();
    assert_eq!(app.connections.selected, Some(0));
}

#[test]
fn step_navigation_wraps_and_asks_for_logs_once() {
    let mut app = setup_app();
    let mut a = mock_step_detail("a", "running");
    a.id = Some(10);
    a.logs = vec!["x".to_string()];
    let b = mock_step_detail("b", "running");
    app.selected_run = Some(mock_full_detail(1, RunStatus::Running, vec![a, b]));
    app.selected_step_index = 0;
    assert_eq!(app.next_step(), None);
    assert_eq!(app.selected_step_index, 1);
    assert!(app.run_logs.is_empty());
    assert_eq!(app.next_step(), Some(AppAction::FetchStepLogs { run_id: 1, step_id: 10, step_index: 0 }));
    assert_eq!(app.run_logs, vec!["x".to_string()]);
    assert_eq!(app.previous_step(), None);
    assert_eq!(app.previous_step(), None);
    assert_eq!(app.selected_step_index, 0);
}

fn default_key_scroll_logs_mod() {
    let mut app = setup_app();
    app.handle_default_key(shift(Key::Right));
    assert_eq!(app.log_scroll_x, 1);
    app.handle_default_key(shift(Key::Char('l')));
    assert_eq!(app.log_scroll_x, 2);
    app.handle_default_key(shift(Key::Left));
    assert_eq!(app.log_scroll_x, 1);
    app.handle_default_key(shift(Key::Char('h')));
    assert_eq!(app.log_scroll_x, 0);
    app.handle_default_key(key(Key::Char('<')));
    assert_eq!(app.log_scroll_x, 0);
    app.handle_default_key(key(Key::Char('>')));
    assert_eq!(app.log_scroll_x, 1);
}

#[test]
fn mod_test_handle_default_key_scroll_logs() {
    default_key_scroll_logs_mod();
}

#[test]
fn navigation_test_handle_default_key_scroll_logs() {
    default_key_scroll_logs_mod();
}

#[test]
fn handlers_test_handle_default_key_scroll_logs() {
    let mut app = setup_app();
    app.handle_default_key(shift(Key::Right));
    assert_eq!(app.log_scroll_x, 1);
    app.handle_default_key(shift(Key::Char('l')));
    assert_eq!(app.log_scroll_x, 2);
    app.handle_default_key(key(Key::Char('>')));
    assert_eq!(app.log_scroll_x, 3);
    app.handle_default_key(shift(Key::Left));
    assert_eq!(app.log_scroll_x, 2);
    app.handle_default_key(shift(Key::Char('h')));
    assert_eq!(app.log_scroll_x, 1);
    app.handle_default_key(key(Key::Char('<')));
    assert_eq!(app.log_scroll_x, 0);
    app.handle_default_key(key(Key::Char('<')));
    assert_eq!(app.log_scroll_x, 0);
}

#[test]
fn panes_follow_the_keys() {
    let mut app = setup_app();
    for _ in 0..11 {
        let (c, _) = app.handle_default_key(key(Key::Tab));
        assert!(matches!(c, KeyCommand::ShowPane(_)));
    }
    assert_eq!(app.active_pane, Pane::RunsList);
    app.handle_default_key(key(Key::Char('l')));
    assert_eq!(app.active_pane, Pane::RunDetail);
    app.handle_default_key(key(Key::Char('t')));
    assert_eq!(app.active_pane, Pane::TestResults);
    app.handle_default_key(key(Key::Char('h')));
    assert_eq!(app.active_pane, Pane::RunsList);
    app.handle_default_key(key(Key::Char('4')));
    assert_eq!(app.active_pane, Pane::EventRulesList);
    let (c, _) = app.handle_default_key(key(Key::Char('q')));
    assert_eq!(c, KeyCommand::Quit);
    let (c, _) = app.handle_default_key(key(Key::Char('d')));
    assert_eq!(c, KeyCommand::Other);
    app.handle_default_key(key(Key::PageDown));
    assert_eq!(app.log_scroll, 10);
    app.handle_default_key(key(Key::PageUp));
    assert_eq!(app.log_scroll, 0);
    assert!(!app.log_auto_scroll);
    app.handle_default_key(key(Key::Char('a')));
    assert!(app.log_auto_scroll);
}

fn filter_dialog_key_mod() {
    let mut app = setup_app();
    app.filter_dialog_active = true;
    app.filter_inputs = vec![String::new(); 6];
    app.filter_focus = 0;
    assert_eq!(app.handle_filter_dialog_key(key(Key::Char('a'))), FilterKeyOutcome::Edit(0));
    app.handle_filter_dialog_key(key(Key::Tab));
    assert_eq!(app.filter_focus, 1);
    app.handle_filter_dialog_key(shift(Key::BackTab));
    assert_eq!(app.filter_focus, 0);
    app.filter_focus = 6;
    app.handle_filter_dialog_key(key(Key::Tab));
    assert_eq!(app.filter_focus, 0);
    app.handle_filter_dialog_key(shift(Key::BackTab));
    assert_eq!(app.filter_focus, 6);
    app.filter_status_index = 0;
    app.handle_filter_dialog_key(key(Key::Right));
    assert_eq!(app.filter_status_index, 1);
    app.handle_filter_dialog_key(key(Key::Left));
    assert_eq!(app.filter_status_index, 0);
    app.handle_filter_dialog_key(key(Key::Left));
    assert_eq!(app.filter_status_index, stormchaser::filters::FILTER_STATUS_COUNT - 1);
    assert_eq!(app.handle_filter_dialog_key(key(Key::Esc)), FilterKeyOutcome::Closed);
    assert!(!app.filter_dialog_active);
}

#[test]
fn mod_test_handle_filter_dialog_key() {
    filter_dialog_key_mod();
}

#[test]
fn handlers_test_handle_filter_dialog_key() {
    let mut app = setup_app();
    app.filter_dialog_active = true;
    app.handle_filter_dialog_key(key(Key::Esc));
    assert!(!app.filter_dialog_active);
}

fn open_filter_dialog() {
    let mut app = setup_app();
    app.filter_owner = Some("owner".to_string());
    app.filter_status = Some("failed".to_string());
    app.open_filter_dialog();
    assert!(app.filter_dialog_active);
    assert_eq!(app.filter_focus, 0);
    assert_eq!(app.filter_inputs.len(), 6);
    assert_eq!(app.filter_inputs[0], "owner");
    assert_eq!(app.filter_status_index, 5);
}

#[test]
fn dialogs_test_open_filter_dialog() {
    open_filter_dialog();
}

#[test]
fn runs_test_open_filter_dialog() {
    open_filter_dialog();
}

#[test]
fn applied_filters_are_trimmed_and_lowercased() {
    let mut app = setup_app();
    app.open_filter_dialog();
    app.filter_inputs[0] = "  alice ".to_string();
    app.filter_inputs[1] = "   ".to_string();
    app.filter_status_index = 3;
    assert_eq!(app.handle_filter_dialog_key(KeyPress { key: Key::Enter, shift: false, ctrl: true }), FilterKeyOutcome::Apply);
    app.apply_filter_inputs();
    assert_eq!(app.filter_owner.as_deref(), Some("alice"));
    assert_eq!(app.filter_name, None);
    assert_eq!(app.filter_status.as_deref(), Some("running"));
    assert!(!app.filter_dialog_active);
    app.filter_status_index = 0;
    app.open_filter_dialog();
    assert_eq!(app.filter_status_index, 3);
    app.filter_status_index = 0;
    app.apply_filter_inputs();
    assert_eq!(app.filter_status, None);
}

#[test]
fn fetched_run_list_keeps_the_selection_inside() {
    let mut app = setup_app();
    app.runs = vec![mock_run_detail(1, RunStatus::Running), mock_run_detail(2, RunStatus::Running), mock_run_detail(3, RunStatus::Running)];
    app.runs_selected = Some(2);
    let fetch = app.apply_run_list(vec![mock_run_detail(1, RunStatus::Running)]);
    assert_eq!(app.runs_selected, Some(0));
    assert_eq!(fetch, Some(1));
    app.force_select_run_id = Some(9);
    let fetch = app.apply_run_list(vec![mock_run_detail(1, RunStatus::Running), mock_run_detail(9, RunStatus::Queued)]);
    assert_eq!(app.runs_selected, Some(1));
    assert_eq!(app.force_select_run_id, None);
    assert_eq!(fetch, Some(9));
    assert_eq!(app.apply_run_list(vec![]), None);
    assert_eq!(app.runs_selected, None);
    assert!(app.selected_run.is_none());
}

fn refresh_runs_success() {
    let mut app = setup_app();
    let run = mock_run_detail(0x11, RunStatus::Succeeded);
    let fetch = app.apply_run_list(vec![run]);
    assert_eq!(app.runs.len(), 1);
    assert_eq!(app.runs[0].id, 0x11);
    assert!(app.error.is_none());
    assert_eq!(fetch, Some(0x11));
}

#[test]
fn runs_test_refresh_runs_success() {
    refresh_runs_success();
}

#[test]
fn tests_test_refresh_runs_success() {
    refresh_runs_success();
}

fn refresh_runs_filters() {
    let mut app = setup_app();
    app.filter_owner = Some("test_user".to_string());
    app.filter_status = Some("failed".to_string());
    let query = app.runs_query();
    assert_eq!(
        query,
        vec![("initiating_user".to_string(), "test_user".to_string()), ("status".to_string(), "failed".to_string())]
    );
    let mut url = url::Url::parse("http://test/api/v1/runs").unwrap();
    url.query_pairs_mut().extend_pairs(query);
    assert!(url.query().unwrap().contains("initiating_user=test_user"));
    assert!(url.query().unwrap().contains("status=failed"));
}

#[test]
fn runs_test_refresh_runs_filters() {
    refresh_runs_filters();
}

#[test]
fn tests_test_refresh_runs_filters() {
    refresh_runs_filters();
}

fn fetch_run_detail_success() {
    let mut app = setup_app();
    let run_id: u128 = 0x22;
    app.runs.push(mock_run_detail(run_id, RunStatus::Succeeded));
    app.runs_selected = Some(0);
    app.handle_full_run_update(mock_full_detail(run_id, RunStatus::Succeeded, vec![]));
    assert!(app.selected_run.is_some());
    assert_eq!(app.selected_run.unwrap().detail.id, run_id);
}

#[test]
fn runs_test_fetch_run_detail_success() {
    fetch_run_detail_success();
}

#[test]
fn tests_test_fetch_run_detail_success() {
    fetch_run_detail_success();
}

fn refresh_runs_clamps_out_of_range_selection() {
    let mut app = setup_app();
    app.runs_selected = Some(5);
    let fetch = app.apply_run_list(vec![mock_run_detail(0x33, RunStatus::Running)]);
    assert_eq!(app.runs_selected, Some(0));
    assert_eq!(fetch, Some(0x33));
}

#[test]
fn runs_test_refresh_runs_clamps_out_of_range_selection() {
    refresh_runs_clamps_out_of_range_selection();
}

#[test]
fn tests_test_refresh_runs_clamps_out_of_range_selection() {
    refresh_runs_clamps_out_of_range_selection();
}

fn delete_selected_run_clears_stale_selection_and_refreshes_details() {
    let mut app = setup_app();
    let first: u128 = 0x41;
    let second: u128 = 0x42;
    app.runs = vec![mock_run_detail(first, RunStatus::Running), mock_run_detail(second, RunStatus::Queued)];
    app.runs_selected = Some(1);
    app.selected_run = Some(mock_full_detail(second, RunStatus::Queued, vec![]));

    let call = app.delete_selected_run().expect("a request");
    assert_eq!(call.path, "/api/v1/runs/00000000-0000-0000-0000-000000000042");
    app.run_deleted();
    // the server now lists the first run only
    let fetch = app.apply_run_list(vec![mock_run_detail(first, RunStatus::Running)]);
    assert_eq!(fetch, Some(first));
    app.handle_full_run_update(mock_full_detail(first, RunStatus::Running, vec![]));

    assert_eq!(app.runs.len(), 1);
    assert_eq!(app.runs_selected, Some(0));
    assert_eq!(app.selected_run.as_ref().map(|run| run.detail.id), Some(first));
    assert!(app.error.is_none());
}

#[test]
fn runs_test_delete_selected_run_clears_stale_selection_and_refreshes_details() {
    delete_selected_run_clears_stale_selection_and_refreshes_details();
}

#[test]
fn tests_test_delete_selected_run_clears_stale_selection_and_refreshes_details() {
    delete_selected_run_clears_stale_selection_and_refreshes_details();
}

#[test]
fn test_start_watching_handles() {
    let app = App::new("http://localhost".to_string(), None);
    // an uncached run is watched, again on every request
    assert!(app.needs_watching(7));
    assert!(app.needs_watching(7));
}

#[test]
fn test_start_watching_cached() {
    let mut app = setup_app();
    let id: u128 = 9;
    app.cached_runs.push(mock_full_detail(id, RunStatus::Succeeded, vec![]));
    // a cached run is not watched
    assert!(!app.needs_watching(id));
}

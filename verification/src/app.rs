//! State and decisions of the terminal UI: run lists, selection, log views and panes.
use vstd::prelude::*;
use crate::text::owned;
use crate::k8s_model::{opt_str_view, strs_view, clone_opt_string, clone_strings};
use crate::dialogs::FormDialog;

verus! {

/// The status of a workflow run.
#[derive(PartialEq, Eq, Structural, Clone, Copy, Debug)]
pub enum RunStatus {
    Queued,
    Resolving,
    StartPending,
    Running,
    Succeeded,
    Failed,
    Aborted,
    /// A status this UI does not know.
    Unknown,
}

/// The status a status text names (`queued`, `running`, ...).
pub open spec fn run_status_spec(s: Seq<char>) -> RunStatus {
    if s == "queued"@ {
        RunStatus::Queued
    } else if s == "resolving"@ {
        RunStatus::Resolving
    } else if s == "start_pending"@ {
        RunStatus::StartPending
    } else if s == "running"@ {
        RunStatus::Running
    } else if s == "succeeded"@ {
        RunStatus::Succeeded
    } else if s == "failed"@ {
        RunStatus::Failed
    } else if s == "aborted"@ {
        RunStatus::Aborted
    } else {
        RunStatus::Unknown
    }
}

/// A status text names its status: the snake_case name of each known status reads back as
/// that status, and only that name does; any other text reads as `Unknown`.
pub proof fn lemma_status_text_law(s: RunStatus, t: Seq<char>)
    ensures
        s != RunStatus::Unknown ==> run_status_spec(crate::detail::run_status_text(s)) == s,
        s != RunStatus::Unknown && run_status_spec(t) == s ==> t == crate::detail::run_status_text(s),
{
    reveal_strlit("queued");
    reveal_strlit("resolving");
    reveal_strlit("start_pending");
    reveal_strlit("running");
    reveal_strlit("succeeded");
    reveal_strlit("failed");
    reveal_strlit("aborted");
    assert("queued"@[0] != "resolving"@[0]);
    assert("queued"@[0] != "start_pending"@[0]);
    assert("queued"@[0] != "running"@[0]);
    assert("queued"@[0] != "succeeded"@[0]);
    assert("queued"@[0] != "failed"@[0]);
    assert("queued"@[0] != "aborted"@[0]);
    assert("resolving"@[0] != "start_pending"@[0]);
    assert("resolving"@.len() != "running"@.len());
    assert("resolving"@[0] != "succeeded"@[0]);
    assert("resolving"@[0] != "failed"@[0]);
    assert("resolving"@[0] != "aborted"@[0]);
    assert("start_pending"@[0] != "running"@[0]);
    assert("start_pending"@.len() != "succeeded"@.len());
    assert("start_pending"@[0] != "failed"@[0]);
    assert("start_pending"@[0] != "aborted"@[0]);
    assert("running"@[0] != "succeeded"@[0]);
    assert("running"@[0] != "failed"@[0]);
    assert("running"@[0] != "aborted"@[0]);
    assert("succeeded"@[0] != "failed"@[0]);
    assert("succeeded"@[0] != "aborted"@[0]);
    assert("failed"@[0] != "aborted"@[0]);
}

impl RunStatus {
    /// Reads a status text.
    pub fn from_text(s: &String) -> (r: RunStatus)
        ensures
            r == run_status_spec(s@),
    {
        if *s == owned("queued") {
            RunStatus::Queued
        } else if *s == owned("resolving") {
            RunStatus::Resolving
        } else if *s == owned("start_pending") {
            RunStatus::StartPending
        } else if *s == owned("running") {
            RunStatus::Running
        } else if *s == owned("succeeded") {
            RunStatus::Succeeded
        } else if *s == owned("failed") {
            RunStatus::Failed
        } else if *s == owned("aborted") {
            RunStatus::Aborted
        } else {
            RunStatus::Unknown
        }
    }

    /// Succeeded, failed and aborted runs do not change any more.
    pub open spec fn is_terminal_spec(self) -> bool {
        self == RunStatus::Succeeded || self == RunStatus::Failed || self == RunStatus::Aborted
    }

    pub fn is_terminal(&self) -> (r: bool)
        ensures
            r == self.is_terminal_spec(),
    {
        match self {
            RunStatus::Succeeded | RunStatus::Failed | RunStatus::Aborted => true,
            _ => false,
        }
    }
}

/// The summary of a workflow run, as the run list shows it.
pub struct WorkflowRunDetail {
    pub id: u128,
    pub workflow_name: String,
    pub initiating_user: String,
    pub status: RunStatus,
    pub created_at_ms: i64,
    pub finished_at_ms: Option<i64>,
}

/// A run summary with its texts as character sequences.
pub struct RunView {
    pub id: u128,
    pub workflow_name: Seq<char>,
    pub initiating_user: Seq<char>,
    pub status: RunStatus,
    pub created_at_ms: i64,
    pub finished_at_ms: Option<i64>,
}

impl View for WorkflowRunDetail {
    type V = RunView;

    open spec fn view(&self) -> RunView {
        RunView {
            id: self.id,
            workflow_name: self.workflow_name@,
            initiating_user: self.initiating_user@,
            status: self.status,
            created_at_ms: self.created_at_ms,
            finished_at_ms: self.finished_at_ms,
        }
    }
}

impl WorkflowRunDetail {
    /// A copy of the summary.
    pub fn duplicate(&self) -> (r: WorkflowRunDetail)
        ensures
            r@ == self@,
    {
        WorkflowRunDetail {
            id: self.id,
            workflow_name: self.workflow_name.clone(),
            initiating_user: self.initiating_user.clone(),
            status: self.status,
            created_at_ms: self.created_at_ms,
            finished_at_ms: self.finished_at_ms,
        }
    }
}

/// A step of a run, as far as the UI reads it.
pub struct StepDetail {
    /// The step's name (`step_name` of its instance, when it is a string).
    pub name: Option<String>,
    /// The step's status (`status` of its instance, when it is a string).
    pub status: Option<String>,
    /// The step instance's id, when it is a UUID.
    pub id: Option<u128>,
    /// Whether the instance is a JSON object (only then can its status be set).
    pub is_object: bool,
    /// The rest of the instance, outputs and history, as JSON text for display.
    pub display_json: String,
    pub logs: Vec<String>,
}

/// A step with its texts as character sequences.
pub struct StepView {
    pub name: Option<Seq<char>>,
    pub status: Option<Seq<char>>,
    pub id: Option<u128>,
    pub is_object: bool,
    pub display_json: Seq<char>,
    pub logs: Seq<Seq<char>>,
}

impl View for StepDetail {
    type V = StepView;

    open spec fn view(&self) -> StepView {
        StepView {
            name: opt_str_view(self.name),
            status: opt_str_view(self.status),
            id: self.id,
            is_object: self.is_object,
            display_json: self.display_json@,
            logs: strs_view(self.logs@),
        }
    }
}

impl StepDetail {
    /// A copy of the step.
    pub fn duplicate(&self) -> (r: StepDetail)
        ensures
            r@ == self@,
    {
        StepDetail {
            name: clone_opt_string(&self.name),
            status: clone_opt_string(&self.status),
            id: self.id,
            is_object: self.is_object,
            display_json: self.display_json.clone(),
            logs: clone_strings(&self.logs),
        }
    }
}

/// A run with its steps.
pub struct WorkflowRunFullDetail {
    pub detail: WorkflowRunDetail,
    pub steps: Vec<StepDetail>,
    /// Artifacts, test summaries and test cases as JSON text for display.
    pub attachments_json: String,
}

/// A run with its steps, as values.
pub struct FullRunView {
    pub detail: RunView,
    pub steps: Seq<StepView>,
    pub attachments_json: Seq<char>,
}

pub open spec fn steps_view(v: Seq<StepDetail>) -> Seq<StepView> {
    v.map_values(|s: StepDetail| s@)
}

impl View for WorkflowRunFullDetail {
    type V = FullRunView;

    open spec fn view(&self) -> FullRunView {
        FullRunView {
            detail: self.detail@,
            steps: steps_view(self.steps@),
            attachments_json: self.attachments_json@,
        }
    }
}

/// Copies a list of steps.
pub fn clone_steps(v: &Vec<StepDetail>) -> (r: Vec<StepDetail>)
    ensures
        steps_view(r@) == steps_view(v@),
{
    let mut r: Vec<StepDetail> = Vec::new();
    let mut i: usize = 0;
    while i < v.len()
        invariant
            i <= v@.len(),
            r@.len() == i,
            steps_view(r@) == steps_view(v@.take(i as int)),
        decreases v@.len() - i,
    {
        let ghost before = r@;
        r.push(v[i].duplicate());
        proof {
            assert(r@ == before.push(r@[i as int]));
            assert(v@.take(i + 1) =~= v@.take(i as int).push(v@[i as int]));
            assert(steps_view(r@) =~= steps_view(before).push(r@[i as int]@));
            assert(steps_view(v@.take(i + 1)) =~= steps_view(v@.take(i as int)).push(v@[i as int]@));
        }
        i = i + 1;
    }
    assert(v@.take(i as int) =~= v@);
    r
}

impl WorkflowRunFullDetail {
    /// A copy of the run.
    pub fn duplicate(&self) -> (r: WorkflowRunFullDetail)
        ensures
            r@ == self@,
    {
        WorkflowRunFullDetail {
            detail: self.detail.duplicate(),
            steps: clone_steps(&self.steps),
            attachments_json: self.attachments_json.clone(),
        }
    }
}

/// What the UI sends to exchange a single-sign-on token for an access token.
pub struct AuthExchangeRequest {
    pub sso_token: String,
    pub callback_url: String,
}

/// The tokens the exchange returns.
pub struct AuthExchangeResponse {
    pub access_token: String,
    pub refresh_token: Option<String>,
}

/// Whether the user is logged in.
#[derive(PartialEq, Eq, Structural, Clone, Copy, Debug)]
pub enum AppState {
    LoggedOut,
    LoggingIn,
    LoggedIn,
}

/// The pane that has the focus.
#[derive(PartialEq, Eq, Structural, Clone, Copy, Debug)]
pub enum Pane {
    RunsList,
    RunDetail,
    TestResults,
    ConnectionsList,
    ConnectionDetail,
    WebhooksList,
    WebhookDetail,
    EventRulesList,
    EventRuleDetail,
    CronWorkflowsList,
    CronWorkflowDetail,
}

/// Work the UI hands to its event loop.
#[derive(PartialEq, Eq, Structural, Clone, Copy, Debug)]
pub enum AppAction {
    /// Re-read a run (`force` skips the two-second throttle).
    RefreshRun { id: u128, force: bool },
    /// Follow the live status and logs of a run.
    StartWatching { id: u128 },
    /// Re-deliver the cached copy of a finished run.
    DeliverCached { id: u128 },
    /// Fetch a run from the API.
    FetchRun { id: u128 },
    /// Fetch the full logs of a step.
    FetchStepLogs { run_id: u128, step_id: u128, step_index: usize },
    /// Trade the refresh token for a new access token.
    RefreshSession,
    /// Follow the server's stream of run summaries.
    ListenForWorkflows,
    /// Fetch the run list.
    RefreshRuns,
    /// Fetch the connections (storage backends).
    RefreshConnections,
    /// Fetch the webhooks.
    RefreshWebhooks,
    /// Fetch the event rules.
    RefreshEventRules,
    /// Fetch the cron workflows.
    RefreshCronWorkflows,
}

/// The next index in a list of `len` items, wrapping to the start.
pub open spec fn next_index(sel: Option<usize>, len: nat) -> usize {
    match sel {
        Some(i) => if i + 1 >= len { 0 } else { (i + 1) as usize },
        None => 0,
    }
}

/// The previous index in a list of `len` items, wrapping to the end.
pub open spec fn prev_index(sel: Option<usize>, len: nat) -> usize {
    match sel {
        Some(i) => if i == 0 { (len - 1) as usize } else { (i - 1) as usize },
        None => 0,
    }
}

pub fn next_index_exec(sel: Option<usize>, len: usize) -> (r: usize)
    requires
        len > 0,
    ensures
        r == next_index(sel, len as nat),
        r < len,
{
    match sel {
        Some(i) => if i >= len - 1 { 0 } else { i + 1 },
        None => 0,
    }
}

pub fn prev_index_exec(sel: Option<usize>, len: usize) -> (r: usize)
    requires
        len > 0,
        sel matches Some(i) ==> i < len,
    ensures
        r == prev_index(sel, len as nat),
        r < len,
{
    match sel {
        Some(i) => if i == 0 { len - 1 } else { i - 1 },
        None => 0,
    }
}

fn selection_fits(selected: Option<usize>, len: usize) -> (r: bool)
    ensures
        r == (selected matches Some(i) ==> i < len),
{
    match selected {
        Some(i) => i < len,
        None => true,
    }
}

/// A list of entries (connections, webhooks, event rules, cron workflows), each kept as
/// its JSON text, with the selected entry and a copy of it.
pub struct Listing {
    pub items: Vec<String>,
    pub selected: Option<usize>,
    pub current: Option<String>,
}

impl Listing {
    /// An empty list.
    pub fn new() -> (r: Listing)
        ensures
            r.items@.len() == 0,
            r.selected is None,
            r.current is None,
    {
        Listing { items: Vec::new(), selected: None, current: None }
    }

    /// The selection is inside the list.
    pub open spec fn wf(self) -> bool {
        self.selected matches Some(i) ==> i < self.items@.len()
    }

    /// Selects the next entry, wrapping to the first, and copies it; an empty list is left
    /// as it is.
    pub fn next(&mut self)
        requires
            old(self).wf(),
        ensures
            final(self).wf(),
            listing_moved(*old(self), *final(self), next_index(old(self).selected, old(self).items@.len())),
    {
        if self.items.len() > 0 {
            let i = next_index_exec(self.selected, self.items.len());
            self.selected = Some(i);
            self.current = Some(self.items[i].clone());
        }
    }

    /// Takes a freshly fetched list: an empty one clears the selection and the copy;
    /// otherwise the first entry is selected when none was, and the selected entry is copied
    /// when no copy was kept.
    pub fn replace_items(&mut self, items: Vec<String>)
        requires
            old(self).current is None && items@.len() > 0 ==> (old(self).selected matches Some(i) ==> i
                < items@.len()),
        ensures
            final(self).items == items,
            items@.len() == 0 ==> final(self).selected is None && final(self).current is None,
            items@.len() > 0 ==> {
                let sel: usize = match old(self).selected {
                    Some(i) => i,
                    None => 0,
                };
                &&& final(self).selected == Some(sel)
                &&& old(self).current is Some ==> final(self).current == old(self).current
                &&& old(self).current is None ==> opt_str_view(final(self).current) == Some(items@[sel as int]@)
            },
    {
        if items.len() == 0 {
            self.selected = None;
            self.current = None;
        } else {
            let sel = match self.selected {
                Some(i) => i,
                None => 0,
            };
            self.selected = Some(sel);
            if self.current.is_none() {
                self.current = Some(items[sel].clone());
            }
        }
        self.items = items;
    }

    /// Selects the previous entry, wrapping to the last, and copies it.
    pub fn previous(&mut self)
        requires
            old(self).wf(),
        ensures
            final(self).wf(),
            listing_moved(*old(self), *final(self), prev_index(old(self).selected, old(self).items@.len())),
    {
        if self.items.len() > 0 {
            let i = prev_index_exec(self.selected, self.items.len());
            self.selected = Some(i);
            self.current = Some(self.items[i].clone());
        }
    }
}

/// The options of the status filter, in the order the filter dialog offers them.
pub open spec fn filter_status_options() -> Seq<Seq<char>> {
    seq!["Any"@, "Queued"@, "Resolving"@, "Running"@, "Succeeded"@, "Failed"@, "Aborted"@]
}

/// The state of the terminal UI, without the terminal, the network tasks and the widgets.
pub struct App {
    pub url: String,
    pub state: AppState,
    pub token: Option<String>,
    pub refresh_token: Option<String>,
    pub filter_owner: Option<String>,
    pub filter_name: Option<String>,
    pub filter_repo_url: Option<String>,
    pub filter_workflow_path: Option<String>,
    pub filter_created_after: Option<String>,
    pub filter_created_before: Option<String>,
    pub filter_status: Option<String>,
    pub runs: Vec<WorkflowRunDetail>,
    /// The selected entry of `runs`.
    pub runs_selected: Option<usize>,
    pub selected_run: Option<WorkflowRunFullDetail>,
    pub selected_step_index: usize,
    pub run_logs: Vec<String>,
    pub log_scroll: usize,
    pub log_scroll_x: usize,
    pub log_auto_scroll: bool,
    pub overview_scroll: usize,
    pub active_pane: Pane,
    pub error: Option<String>,
    /// When the last throttled refresh was made, in milliseconds since the epoch.
    pub last_refresh_ms: Option<i64>,
    /// Finished runs, which need no further fetching.
    pub cached_runs: Vec<WorkflowRunFullDetail>,
    /// Steps whose full logs were already requested.
    pub fetched_steps: Vec<u128>,
    /// A run to select as soon as the run list shows it.
    pub force_select_run_id: Option<u128>,
    pub pending_approvals: Vec<WorkflowRunDetail>,
    pub pending_approvals_selected: Option<usize>,
    pub connections: Listing,
    pub webhooks: Listing,
    pub event_rules: Listing,
    pub cron_workflows: Listing,
    pub filter_dialog_active: bool,
    pub filter_focus: usize,
    /// The six text fields of the filter dialog.
    pub filter_inputs: Vec<String>,
    pub filter_status_index: usize,
    /// The dialog that schedules a workflow from Git: connection, workflow path, Git ref.
    pub schedule_git_dialog: FormDialog,
    pub event_rule_dialog: FormDialog,
    pub cron_dialog: FormDialog,
    pub approval_dialog_active: bool,
    /// The JSON inputs typed into the approval dialog.
    pub approval_inputs: String,
    pub delete_run_dialog_active: bool,
    pub file_browser_active: bool,
}

/// What selecting run `i` of the list does: the run list of `old` is empty and nothing
/// changes, or run `i` is selected, the shown run is forgotten and the run is read and watched.
pub open spec fn run_moved(old: App, new: App, acts: Seq<AppAction>, i: usize) -> bool {
    &&& old.runs@.len() == 0 ==> new == old && acts.len() == 0
    &&& old.runs@.len() > 0 ==> {
        let id = old.runs@[i as int].id;
        &&& new == (App { runs_selected: Some(i), selected_step_index: 0, selected_run: None, ..old })
        &&& acts == seq![AppAction::RefreshRun { id, force: true }, AppAction::StartWatching { id }]
    }
}

/// What selecting entry `i` of a list does: an empty list is left as it is; otherwise entry
/// `i` is selected and copied.
pub open spec fn listing_moved(old: Listing, new: Listing, i: usize) -> bool {
    &&& new.items == old.items
    &&& old.items@.len() == 0 ==> new == old
    &&& old.items@.len() > 0 ==> new.selected == Some(i) && opt_str_view(new.current) == Some(old.items@[i as int]@)
}

impl App {
    /// Selections point into their lists.
    pub open spec fn wf(self) -> bool {
        &&& self.runs_selected matches Some(i) ==> i < self.runs@.len()
        &&& self.lists_wf()
    }

    /// The selections of the lists other than the runs point into their lists.
    pub open spec fn lists_wf(self) -> bool {
        &&& self.pending_approvals_selected matches Some(i) ==> i < self.pending_approvals@.len()
        &&& self.connections.wf()
        &&& self.webhooks.wf()
        &&& self.event_rules.wf()
        &&& self.cron_workflows.wf()
    }

    /// Whether every selection points into its list (what the event handlers require).
    pub fn selections_fit(&self) -> (r: bool)
        ensures
            r == self.wf(),
    {
        selection_fits(self.runs_selected, self.runs.len())
            && selection_fits(self.pending_approvals_selected, self.pending_approvals.len())
            && selection_fits(self.connections.selected, self.connections.items.len())
            && selection_fits(self.webhooks.selected, self.webhooks.items.len())
            && selection_fits(self.event_rules.selected, self.event_rules.items.len())
            && selection_fits(self.cron_workflows.selected, self.cron_workflows.items.len())
    }

    /// A logged-out UI on `url` with an optional token, nothing loaded and nothing selected.
    pub fn new(url: String, token: Option<String>) -> (app: App)
        ensures
            app.wf(),
            app.url == url,
            app.token == token,
            app.state == AppState::LoggedOut,
            app.refresh_token is None,
            app.filter_owner is None,
            app.filter_name is None,
            app.filter_repo_url is None,
            app.filter_workflow_path is None,
            app.filter_created_after is None,
            app.filter_created_before is None,
            app.filter_status is None,
            app.runs@.len() == 0,
            app.runs_selected is None,
            app.selected_run is None,
            app.selected_step_index == 0,
            app.run_logs@.len() == 0,
            app.log_scroll == 0,
            app.log_scroll_x == 0,
            app.log_auto_scroll,
            app.overview_scroll == 0,
            app.active_pane == Pane::RunsList,
            app.error is None,
            app.last_refresh_ms is None,
            app.cached_runs@.len() == 0,
            app.fetched_steps@.len() == 0,
            app.force_select_run_id is None,
            app.pending_approvals@.len() == 0,
            app.pending_approvals_selected is None,
            app.connections.items@.len() == 0 && app.connections.selected is None,
            app.webhooks.items@.len() == 0 && app.webhooks.selected is None,
            app.event_rules.items@.len() == 0 && app.event_rules.selected is None,
            app.cron_workflows.items@.len() == 0 && app.cron_workflows.selected is None,
            !app.filter_dialog_active,
            app.filter_focus == 0,
            app.filter_inputs@.len() == 0,
            app.filter_status_index == 0,
            !app.schedule_git_dialog.active && app.schedule_git_dialog.inputs@.len() == 0,
            !app.event_rule_dialog.active && app.event_rule_dialog.inputs@.len() == 0,
            !app.cron_dialog.active && app.cron_dialog.inputs@.len() == 0,
            !app.approval_dialog_active,
            !app.delete_run_dialog_active,
            !app.file_browser_active,
    {
        App {
            url,
            state: AppState::LoggedOut,
            token,
            refresh_token: None,
            filter_owner: None,
            filter_name: None,
            filter_repo_url: None,
            filter_workflow_path: None,
            filter_created_after: None,
            filter_created_before: None,
            filter_status: None,
            runs: Vec::new(),
            runs_selected: None,
            selected_run: None,
            selected_step_index: 0,
            run_logs: Vec::new(),
            log_scroll: 0,
            log_scroll_x: 0,
            log_auto_scroll: true,
            overview_scroll: 0,
            active_pane: Pane::RunsList,
            error: None,
            last_refresh_ms: None,
            cached_runs: Vec::new(),
            fetched_steps: Vec::new(),
            force_select_run_id: None,
            pending_approvals: Vec::new(),
            pending_approvals_selected: None,
            connections: Listing::new(),
            webhooks: Listing::new(),
            event_rules: Listing::new(),
            cron_workflows: Listing::new(),
            filter_dialog_active: false,
            filter_focus: 0,
            filter_inputs: Vec::new(),
            filter_status_index: 0,
            schedule_git_dialog: FormDialog::closed(),
            event_rule_dialog: FormDialog::closed(),
            cron_dialog: FormDialog::closed(),
            approval_dialog_active: false,
            approval_inputs: String::new(),
            delete_run_dialog_active: false,
            file_browser_active: false,
        }
    }

    /// Selects the next run (wrapping), forgets the shown run and asks for the new one's
    /// details and live updates. An empty list changes nothing.
    pub fn next_run(&mut self) -> (acts: Vec<AppAction>)
        requires
            old(self).wf(),
        ensures
            final(self).wf(),
            run_moved(*old(self), *final(self), acts@, next_index(old(self).runs_selected, old(self).runs@.len())),
    {
        let mut acts: Vec<AppAction> = Vec::new();
        if self.runs.len() == 0 {
            return acts;
        }
        let i = next_index_exec(self.runs_selected, self.runs.len());
        self.runs_selected = Some(i);
        self.selected_step_index = 0;
        self.selected_run = None;
        let id = self.runs[i].id;
        acts.push(AppAction::RefreshRun { id, force: true });
        acts.push(AppAction::StartWatching { id });
        assert(acts@ =~= seq![AppAction::RefreshRun { id, force: true }, AppAction::StartWatching { id }]);
        acts
    }

    /// Selects the previous run (wrapping), forgets the shown run and asks for the new one's
    /// details and live updates. An empty list changes nothing.
    pub fn previous_run(&mut self) -> (acts: Vec<AppAction>)
        requires
            old(self).wf(),
        ensures
            final(self).wf(),
            run_moved(*old(self), *final(self), acts@, prev_index(old(self).runs_selected, old(self).runs@.len())),
    {
        let mut acts: Vec<AppAction> = Vec::new();
        if self.runs.len() == 0 {
            return acts;
        }
        let i = prev_index_exec(self.runs_selected, self.runs.len());
        self.runs_selected = Some(i);
        self.selected_step_index = 0;
        self.selected_run = None;
        let id = self.runs[i].id;
        acts.push(AppAction::RefreshRun { id, force: true });
        acts.push(AppAction::StartWatching { id });
        assert(acts@ =~= seq![AppAction::RefreshRun { id, force: true }, AppAction::StartWatching { id }]);
        acts
    }

    /// Selects the next run awaiting approval, wrapping to the first.
    pub fn next_pending_approval(&mut self)
        requires
            old(self).wf(),
        ensures
            final(self).wf(),
            old(self).pending_approvals@.len() == 0 ==> *final(self) == *old(self),
            old(self).pending_approvals@.len() > 0 ==> *final(self) == (App {
                pending_approvals_selected: Some(next_index(old(self).pending_approvals_selected, old(self).pending_approvals@.len())),
                ..*old(self)
            }),
    {
        if self.pending_approvals.len() > 0 {
            self.pending_approvals_selected = Some(next_index_exec(self.pending_approvals_selected, self.pending_approvals.len()));
        }
    }

    /// Selects the previous run awaiting approval, wrapping to the last.
    pub fn previous_pending_approval(&mut self)
        requires
            old(self).wf(),
        ensures
            final(self).wf(),
            old(self).pending_approvals@.len() == 0 ==> *final(self) == *old(self),
            old(self).pending_approvals@.len() > 0 ==> *final(self) == (App {
                pending_approvals_selected: Some(prev_index(old(self).pending_approvals_selected, old(self).pending_approvals@.len())),
                ..*old(self)
            }),
    {
        if self.pending_approvals.len() > 0 {
            self.pending_approvals_selected = Some(prev_index_exec(self.pending_approvals_selected, self.pending_approvals.len()));
        }
    }

    /// Scrolls the log view up one line and stops following new lines.
    pub fn scroll_logs_up(&mut self)
        ensures
            *final(self) == (App {
                log_auto_scroll: false,
                log_scroll: if old(self).log_scroll > 0 { (old(self).log_scroll - 1) as usize } else { 0 },
                ..*old(self)
            }),
    {
        self.log_auto_scroll = false;
        if self.log_scroll > 0 {
            self.log_scroll = self.log_scroll - 1;
        }
    }

    /// Scrolls the log view down one line.
    pub fn scroll_logs_down(&mut self)
        requires
            old(self).log_scroll < usize::MAX,
        ensures
            *final(self) == (App { log_scroll: (old(self).log_scroll + 1) as usize, ..*old(self) }),
    {
        self.log_scroll = self.log_scroll + 1;
    }

    /// Scrolls the log view one column left, stopping at the first column.
    pub fn scroll_logs_left(&mut self)
        ensures
            *final(self) == (App {
                log_scroll_x: if old(self).log_scroll_x > 0 { (old(self).log_scroll_x - 1) as usize } else { 0 },
                ..*old(self)
            }),
    {
        if self.log_scroll_x > 0 {
            self.log_scroll_x = self.log_scroll_x - 1;
        }
    }

    /// Scrolls the log view one column right.
    pub fn scroll_logs_right(&mut self)
        requires
            old(self).log_scroll_x < usize::MAX,
        ensures
            *final(self) == (App { log_scroll_x: (old(self).log_scroll_x + 1) as usize, ..*old(self) }),
    {
        self.log_scroll_x = self.log_scroll_x + 1;
    }

    /// Scrolls the overview up one line, stopping at the top.
    pub fn scroll_overview_up(&mut self)
        ensures
            *final(self) == (App {
                overview_scroll: if old(self).overview_scroll > 0 { (old(self).overview_scroll - 1) as usize } else { 0 },
                ..*old(self)
            }),
    {
        if self.overview_scroll > 0 {
            self.overview_scroll = self.overview_scroll - 1;
        }
    }

    /// Scrolls the overview down one line.
    pub fn scroll_overview_down(&mut self)
        requires
            old(self).overview_scroll < usize::MAX,
        ensures
            *final(self) == (App { overview_scroll: (old(self).overview_scroll + 1) as usize, ..*old(self) }),
    {
        self.overview_scroll = self.overview_scroll + 1;
    }

    /// Jumps to the first log line and stops following new lines.
    pub fn scroll_logs_to_top(&mut self)
        ensures
            *final(self) == (App { log_auto_scroll: false, log_scroll: 0, ..*old(self) }),
    {
        self.log_auto_scroll = false;
        self.log_scroll = 0;
    }
}

/// Whether `id` is in `v`.
pub fn contains_id(v: &Vec<u128>, id: u128) -> (r: bool)
    ensures
        r == v@.contains(id),
{
    let mut i: usize = 0;
    while i < v.len()
        invariant
            i <= v@.len(),
            forall|j: int| 0 <= j < i ==> v@[j] != id,
        decreases v@.len() - i,
    {
        if v[i] == id {
            assert(v@[i as int] == id);
            return true;
        }
        i = i + 1;
    }
    false
}

/// What showing the logs of the selected step does: `new` shows the step's logs (none when
/// there is no such step), the scroll is reset when asked, and a step with an id whose logs
/// were not requested yet is marked and its logs are requested.
pub open spec fn step_logs_refreshed(old: App, new: App, reset: bool, act: Option<AppAction>) -> bool {
    let scroll = if reset { 0usize } else { old.log_scroll };
    let auto = if reset { true } else { old.log_auto_scroll };
    match old.selected_run {
        None => new == old && act is None,
        Some(run) => {
            if old.selected_step_index < run.steps@.len() {
                let step = run.steps@[old.selected_step_index as int]@;
                &&& strs_view(new.run_logs@) == step.logs
                &&& match step.id {
                    None => act is None && new.fetched_steps == old.fetched_steps,
                    Some(sid) => if old.fetched_steps@.contains(sid) {
                        act is None && new.fetched_steps == old.fetched_steps
                    } else {
                        &&& act == Some(AppAction::FetchStepLogs {
                            run_id: run.detail.id,
                            step_id: sid,
                            step_index: old.selected_step_index,
                        })
                        &&& new.fetched_steps@ == old.fetched_steps@.push(sid)
                    },
                }
                &&& new == (App {
                    run_logs: new.run_logs,
                    fetched_steps: new.fetched_steps,
                    log_scroll: scroll,
                    log_auto_scroll: auto,
                    ..old
                })
            } else {
                &&& new.run_logs@.len() == 0
                &&& act is None
                &&& new == (App { run_logs: new.run_logs, log_scroll: scroll, log_auto_scroll: auto, ..old })
            }
        },
    }
}

impl App {
    /// Shows the logs of the selected step and, once per step, asks for its full logs.
    pub fn refresh_step_logs(&mut self, reset_scroll: bool) -> (act: Option<AppAction>)
        ensures
            step_logs_refreshed(*old(self), *final(self), reset_scroll, act),
    {
        match &self.selected_run {
            None => None,
            Some(run) => {
                let idx = self.selected_step_index;
                if idx < run.steps.len() {
                    let logs = clone_strings(&run.steps[idx].logs);
                    self.run_logs = logs;
                    if reset_scroll {
                        self.log_scroll = 0;
                        self.log_auto_scroll = true;
                    }
                    match run.steps[idx].id {
                        None => None,
                        Some(sid) => {
                            if contains_id(&self.fetched_steps, sid) {
                                None
                            } else {
                                self.fetched_steps.push(sid);
                                Some(AppAction::FetchStepLogs {
                                    run_id: run.detail.id,
                                    step_id: sid,
                                    step_index: idx,
                                })
                            }
                        },
                    }
                } else {
                    self.run_logs = Vec::new();
                    if reset_scroll {
                        self.log_scroll = 0;
                        self.log_auto_scroll = true;
                    }
                    None
                }
            },
        }
    }

    /// Selects the next step of the shown run (wrapping) and shows its logs.
    pub fn next_step(&mut self) -> (act: Option<AppAction>)
        ensures
            match old(self).selected_run {
                Some(run) if run.steps@.len() > 0 => step_logs_refreshed(
                    App {
                        selected_step_index: ((old(self).selected_step_index + 1) % (run.steps@.len() as int)) as usize,
                        ..*old(self)
                    },
                    *final(self),
                    true,
                    act,
                ),
                _ => *final(self) == *old(self) && act is None,
            },
    {
        let n: usize = match &self.selected_run {
            Some(run) => run.steps.len(),
            None => 0,
        };
        if n == 0 {
            return None;
        }
        let idx = self.selected_step_index;
        proof {
            assert((idx + 1) % (n as int) == ((idx % n) + 1) % (n as int)) by (nonlinear_arith)
                requires n > 0;
        }
        self.selected_step_index = (idx % n + 1) % n;
        self.refresh_step_logs(true)
    }

    /// Selects the previous step of the shown run (wrapping) and shows its logs.
    pub fn previous_step(&mut self) -> (act: Option<AppAction>)
        ensures
            match old(self).selected_run {
                Some(run) if run.steps@.len() > 0 => step_logs_refreshed(
                    App {
                        selected_step_index: if old(self).selected_step_index == 0 {
                            (run.steps@.len() - 1) as usize
                        } else {
                            (old(self).selected_step_index - 1) as usize
                        },
                        ..*old(self)
                    },
                    *final(self),
                    true,
                    act,
                ),
                _ => *final(self) == *old(self) && act is None,
            },
    {
        let n: usize = match &self.selected_run {
            Some(run) => run.steps.len(),
            None => 0,
        };
        if n == 0 {
            return None;
        }
        if self.selected_step_index == 0 {
            self.selected_step_index = n - 1;
        } else {
            self.selected_step_index = self.selected_step_index - 1;
        }
        self.refresh_step_logs(true)
    }

    /// Selects the next connection (wrapping) and copies it.
    pub fn next_connection(&mut self)
        requires
            old(self).wf(),
        ensures
            final(self).wf(),
            *final(self) == (App { connections: final(self).connections, ..*old(self) }),
            listing_moved(old(self).connections, final(self).connections, next_index(old(self).connections.selected, old(self).connections.items@.len())),
    {
        self.connections.next();
    }

    /// Selects the previous connection (wrapping) and copies it.
    pub fn previous_connection(&mut self)
        requires
            old(self).wf(),
        ensures
            final(self).wf(),
            *final(self) == (App { connections: final(self).connections, ..*old(self) }),
            listing_moved(old(self).connections, final(self).connections, prev_index(old(self).connections.selected, old(self).connections.items@.len())),
    {
        self.connections.previous();
    }

    /// Selects the next webhook (wrapping) and copies it.
    pub fn next_webhook(&mut self)
        requires
            old(self).wf(),
        ensures
            final(self).wf(),
            *final(self) == (App { webhooks: final(self).webhooks, ..*old(self) }),
            listing_moved(old(self).webhooks, final(self).webhooks, next_index(old(self).webhooks.selected, old(self).webhooks.items@.len())),
    {
        self.webhooks.next();
    }

    /// Selects the previous webhook (wrapping) and copies it.
    pub fn previous_webhook(&mut self)
        requires
            old(self).wf(),
        ensures
            final(self).wf(),
            *final(self) == (App { webhooks: final(self).webhooks, ..*old(self) }),
            listing_moved(old(self).webhooks, final(self).webhooks, prev_index(old(self).webhooks.selected, old(self).webhooks.items@.len())),
    {
        self.webhooks.previous();
    }

    /// Selects the next event rule (wrapping) and copies it.
    pub fn next_event_rule(&mut self)
        requires
            old(self).wf(),
        ensures
            final(self).wf(),
            *final(self) == (App { event_rules: final(self).event_rules, ..*old(self) }),
            listing_moved(old(self).event_rules, final(self).event_rules, next_index(old(self).event_rules.selected, old(self).event_rules.items@.len())),
    {
        self.event_rules.next();
    }

    /// Selects the previous event rule (wrapping) and copies it.
    pub fn previous_event_rule(&mut self)
        requires
            old(self).wf(),
        ensures
            final(self).wf(),
            *final(self) == (App { event_rules: final(self).event_rules, ..*old(self) }),
            listing_moved(old(self).event_rules, final(self).event_rules, prev_index(old(self).event_rules.selected, old(self).event_rules.items@.len())),
    {
        self.event_rules.previous();
    }

    /// Selects the next cron workflow (wrapping) and copies it.
    pub fn next_cron_workflow(&mut self)
        requires
            old(self).wf(),
        ensures
            final(self).wf(),
            *final(self) == (App { cron_workflows: final(self).cron_workflows, ..*old(self) }),
            listing_moved(old(self).cron_workflows, final(self).cron_workflows, next_index(old(self).cron_workflows.selected, old(self).cron_workflows.items@.len())),
    {
        self.cron_workflows.next();
    }

    /// Selects the previous cron workflow (wrapping) and copies it.
    pub fn previous_cron_workflow(&mut self)
        requires
            old(self).wf(),
        ensures
            final(self).wf(),
            *final(self) == (App { cron_workflows: final(self).cron_workflows, ..*old(self) }),
            listing_moved(old(self).cron_workflows, final(self).cron_workflows, prev_index(old(self).cron_workflows.selected, old(self).cron_workflows.items@.len())),
    {
        self.cron_workflows.previous();
    }
}

/// Moving to the next entry and back returns to it (from a selected entry).
pub proof fn lemma_next_then_previous(i: usize, len: nat)
    requires
        i < len,
        len <= usize::MAX,
    ensures
        prev_index(Some(next_index(Some(i), len)), len) == i,
{
}

/// Moving to the previous entry and on again returns to it.
pub proof fn lemma_previous_then_next(i: usize, len: nat)
    requires
        i < len,
        len <= usize::MAX,
    ensures
        next_index(Some(prev_index(Some(i), len)), len) == i,
{
}

} // verus!

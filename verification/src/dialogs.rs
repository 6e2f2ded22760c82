//! The create and edit dialogs of the terminal UI: which field has the focus, what a key
//! does, and what a submitted form asks of the server.
use vstd::prelude::*;
use crate::app::{App, AppAction, AppState, Listing, Pane};
use crate::filters::{Key, KeyPress};
use crate::json::{is_json_text, json_parses};
use crate::k8s_model::{opt_str_view, pairs_view};
use crate::markers::{json_value_entries, read_value_entries};
use crate::naming::{parse_uuid, uuid_parsed, uuid_string, uuid_text};
use crate::text::{chars_of, concat_str, owned, string_from_chars, substring, trim, trim_exec};
use crate::version::{first_index_of, lemma_first_index_of};

verus! {

/// What a key in a dialog leads to.
#[derive(PartialEq, Eq, Structural, Clone, Copy, Debug)]
pub enum DialogKeyOutcome {
    /// The dialog was closed.
    Closed,
    /// The form is to be submitted (or the action confirmed).
    Submit,
    /// The key goes to the text field at this position.
    Edit(usize),
    /// The focus moved, a switch flipped, or nothing happened.
    Done,
}

/// A form dialog: whether it is shown, the focused position, its text fields, its "active"
/// switch and the entry it edits (`None` when it creates one).
pub struct FormDialog {
    pub active: bool,
    pub focus: usize,
    pub inputs: Vec<String>,
    pub is_active: bool,
    pub edit_id: Option<u128>,
}

impl FormDialog {
    /// A closed dialog with no fields.
    pub fn closed() -> (d: FormDialog)
        ensures
            !d.active,
            d.focus == 0,
            d.inputs@.len() == 0,
            !d.is_active,
            d.edit_id is None,
    {
        FormDialog { active: false, focus: 0, inputs: Vec::new(), is_active: false, edit_id: None }
    }
}

/// The position after `f` in a cycle of `n`.
pub open spec fn cycle_next(f: int, n: int) -> int {
    (f + 1) % n
}

/// The position before `f` in a cycle of `n`.
pub open spec fn cycle_prev(f: int, n: int) -> int {
    (f + n - 1) % n
}

pub fn cycle_next_exec(f: usize, n: usize) -> (r: usize)
    requires
        n > 0,
    ensures
        r == cycle_next(f as int, n as int),
        r < n,
{
    let m = f % n;
    proof {
        vstd::arithmetic::div_mod::lemma_add_mod_noop(f as int, 1, n as int);
        vstd::arithmetic::div_mod::lemma_mod_bound(f as int, n as int);
        if n > 1 {
            vstd::arithmetic::div_mod::lemma_small_mod(1, n as nat);
        } else {
            assert(1int % 1 == 0) by (nonlinear_arith);
        }
        if m + 1 == n {
            vstd::arithmetic::div_mod::lemma_mod_self_0(n as int);
        } else {
            vstd::arithmetic::div_mod::lemma_small_mod((m + 1) as nat, n as nat);
        }
    }
    if m + 1 == n {
        0
    } else {
        m + 1
    }
}

pub fn cycle_prev_exec(f: usize, n: usize) -> (r: usize)
    requires
        n > 0,
    ensures
        r == cycle_prev(f as int, n as int),
        r < n,
{
    let m = f % n;
    proof {
        vstd::arithmetic::div_mod::lemma_add_mod_noop(f as int, n - 1, n as int);
        vstd::arithmetic::div_mod::lemma_small_mod((n - 1) as nat, n as nat);
        vstd::arithmetic::div_mod::lemma_mod_bound(f as int, n as int);
        if m > 0 {
            vstd::arithmetic::div_mod::lemma_mod_add_multiples_vanish(m - 1, n as int);
            vstd::arithmetic::div_mod::lemma_small_mod((m - 1) as nat, n as nat);
            assert(m + (n - 1) == n + (m - 1));
        }
    }
    if m == 0 {
        n - 1
    } else {
        m - 1
    }
}

/// A key in a form whose text fields are followed by an "active" switch (the event rule and
/// cron workflow dialogs): Esc closes it, Ctrl+Enter submits it, Tab and Shift+Tab move the
/// focus round the fields and the switch, Space or Enter on the switch flips it, and other
/// keys go to the focused text field.
pub open spec fn switch_form_key(d: FormDialog, key: KeyPress) -> (FormDialog, DialogKeyOutcome) {
    let n = d.inputs@.len() + 1int;
    if key.key == Key::Esc {
        (FormDialog { active: false, ..d }, DialogKeyOutcome::Closed)
    } else if key.key == Key::Enter && key.ctrl {
        (d, DialogKeyOutcome::Submit)
    } else if key.key == Key::BackTab {
        (FormDialog { focus: cycle_prev(d.focus as int, n) as usize, ..d }, DialogKeyOutcome::Done)
    } else if key.key == Key::Tab {
        (FormDialog { focus: cycle_next(d.focus as int, n) as usize, ..d }, DialogKeyOutcome::Done)
    } else if (key.key == Key::Char(' ') || key.key == Key::Enter) && d.focus == d.inputs@.len() {
        (FormDialog { is_active: !d.is_active, ..d }, DialogKeyOutcome::Done)
    } else if d.focus < d.inputs@.len() {
        (d, DialogKeyOutcome::Edit(d.focus))
    } else {
        (d, DialogKeyOutcome::Done)
    }
}

/// A key in the dialog that schedules a workflow from Git (three text fields): Esc closes
/// it, Enter submits it, Tab and Shift+Tab move the focus round the three fields, and other
/// keys go to the focused field.
pub open spec fn git_form_key(d: FormDialog, key: KeyPress) -> (FormDialog, DialogKeyOutcome) {
    if key.key == Key::Esc {
        (FormDialog { active: false, ..d }, DialogKeyOutcome::Closed)
    } else if key.key == Key::Enter {
        (d, DialogKeyOutcome::Submit)
    } else if key.key == Key::BackTab {
        (FormDialog { focus: cycle_prev(d.focus as int, 3) as usize, ..d }, DialogKeyOutcome::Done)
    } else if key.key == Key::Tab {
        (FormDialog { focus: cycle_next(d.focus as int, 3) as usize, ..d }, DialogKeyOutcome::Done)
    } else {
        (d, DialogKeyOutcome::Edit(d.focus))
    }
}

impl FormDialog {
    /// Handles a key as `switch_form_key` says.
    pub fn handle_switch_form_key(&mut self, key: KeyPress) -> (r: DialogKeyOutcome)
        requires
            old(self).inputs@.len() < usize::MAX,
        ensures
            (*final(self), r) == switch_form_key(*old(self), key),
    {
        let n = self.inputs.len() + 1;
        let k = key.key;
        if k == Key::Esc {
            self.active = false;
            DialogKeyOutcome::Closed
        } else if k == Key::Enter && key.ctrl {
            DialogKeyOutcome::Submit
        } else if k == Key::BackTab {
            self.focus = cycle_prev_exec(self.focus, n);
            DialogKeyOutcome::Done
        } else if k == Key::Tab {
            self.focus = cycle_next_exec(self.focus, n);
            DialogKeyOutcome::Done
        } else if (k == Key::Char(' ') || k == Key::Enter) && self.focus == self.inputs.len() {
            self.is_active = !self.is_active;
            DialogKeyOutcome::Done
        } else if self.focus < self.inputs.len() {
            DialogKeyOutcome::Edit(self.focus)
        } else {
            DialogKeyOutcome::Done
        }
    }

    /// Handles a key as `git_form_key` says.
    pub fn handle_git_form_key(&mut self, key: KeyPress) -> (r: DialogKeyOutcome)
        ensures
            (*final(self), r) == git_form_key(*old(self), key),
    {
        let k = key.key;
        if k == Key::Esc {
            self.active = false;
            DialogKeyOutcome::Closed
        } else if k == Key::Enter {
            DialogKeyOutcome::Submit
        } else if k == Key::BackTab {
            self.focus = cycle_prev_exec(self.focus, 3);
            DialogKeyOutcome::Done
        } else if k == Key::Tab {
            self.focus = cycle_next_exec(self.focus, 3);
            DialogKeyOutcome::Done
        } else {
            DialogKeyOutcome::Edit(self.focus)
        }
    }
}

/// What a key on the main screen that is neither navigation nor scrolling asks for.
#[derive(PartialEq, Eq, Structural, Clone, Copy, Debug)]
pub enum ActionCommand {
    OpenFilterDialog,
    OpenApprovalDialog,
    RejectSelectedStep,
    OpenConnectionDialog { edit: bool },
    OpenWebhookDialog { edit: bool },
    OpenEventRuleDialog { edit: bool },
    OpenCronDialog { edit: bool },
    OpenScheduleGitDialog,
    DeleteSelectedConnection,
    DeleteSelectedWebhook,
    DeleteSelectedEventRule,
    DeleteSelectedCronWorkflow,
    OpenDeleteRunDialog,
    OpenFileBrowser,
    Nothing,
}

/// The kind of entries a pane lists or shows.
pub enum PaneGroup {
    Runs,
    Connections,
    Webhooks,
    EventRules,
    CronWorkflows,
    Tests,
}

pub open spec fn pane_group(p: Pane) -> PaneGroup {
    match p {
        Pane::RunsList | Pane::RunDetail => PaneGroup::Runs,
        Pane::ConnectionsList | Pane::ConnectionDetail => PaneGroup::Connections,
        Pane::WebhooksList | Pane::WebhookDetail => PaneGroup::Webhooks,
        Pane::EventRulesList | Pane::EventRuleDetail => PaneGroup::EventRules,
        Pane::CronWorkflowsList | Pane::CronWorkflowDetail => PaneGroup::CronWorkflows,
        Pane::TestResults => PaneGroup::Tests,
    }
}

/// What an action key asks for with pane `p` focused: `f` and `/` open the run filter; `A`
/// and `R` on the run details
/// approve (through a dialog) or reject the selected step; `c` creates an entry of the
/// focused kind (for runs: schedules one from Git), `e` edits the selected entry, `d`
/// deletes it (for runs: after a confirmation), and `r` opens the file browser.
pub open spec fn action_command(key: KeyPress, p: Pane) -> ActionCommand {
    match key.key {
        Key::Char(c) => if c == 'f' || c == '/' {
            ActionCommand::OpenFilterDialog
        } else if c == 'A' && p == Pane::RunDetail {
            ActionCommand::OpenApprovalDialog
        } else if c == 'R' && p == Pane::RunDetail {
            ActionCommand::RejectSelectedStep
        } else if c == 'c' {
            match pane_group(p) {
                PaneGroup::Connections => ActionCommand::OpenConnectionDialog { edit: false },
                PaneGroup::Webhooks => ActionCommand::OpenWebhookDialog { edit: false },
                PaneGroup::EventRules => ActionCommand::OpenEventRuleDialog { edit: false },
                PaneGroup::CronWorkflows => ActionCommand::OpenCronDialog { edit: false },
                PaneGroup::Runs => ActionCommand::OpenScheduleGitDialog,
                PaneGroup::Tests => ActionCommand::Nothing,
            }
        } else if c == 'e' {
            match pane_group(p) {
                PaneGroup::Connections => ActionCommand::OpenConnectionDialog { edit: true },
                PaneGroup::Webhooks => ActionCommand::OpenWebhookDialog { edit: true },
                PaneGroup::EventRules => ActionCommand::OpenEventRuleDialog { edit: true },
                PaneGroup::CronWorkflows => ActionCommand::OpenCronDialog { edit: true },
                _ => ActionCommand::Nothing,
            }
        } else if c == 'd' {
            match pane_group(p) {
                PaneGroup::Connections => ActionCommand::DeleteSelectedConnection,
                PaneGroup::Webhooks => ActionCommand::DeleteSelectedWebhook,
                PaneGroup::EventRules => ActionCommand::DeleteSelectedEventRule,
                PaneGroup::CronWorkflows => ActionCommand::DeleteSelectedCronWorkflow,
                PaneGroup::Runs => ActionCommand::OpenDeleteRunDialog,
                PaneGroup::Tests => ActionCommand::Nothing,
            }
        } else if c == 'r' {
            ActionCommand::OpenFileBrowser
        } else {
            ActionCommand::Nothing
        },
        _ => ActionCommand::Nothing,
    }
}

fn pane_group_exec(p: Pane) -> (g: PaneGroup)
    ensures
        g == pane_group(p),
{
    match p {
        Pane::RunsList | Pane::RunDetail => PaneGroup::Runs,
        Pane::ConnectionsList | Pane::ConnectionDetail => PaneGroup::Connections,
        Pane::WebhooksList | Pane::WebhookDetail => PaneGroup::Webhooks,
        Pane::EventRulesList | Pane::EventRuleDetail => PaneGroup::EventRules,
        Pane::CronWorkflowsList | Pane::CronWorkflowDetail => PaneGroup::CronWorkflows,
        Pane::TestResults => PaneGroup::Tests,
    }
}

/// Reads an action key, with pane `p` focused.
pub fn action_of(key: KeyPress, p: Pane) -> (a: ActionCommand)
    ensures
        a == action_command(key, p),
{
    match key.key {
        Key::Char(c) => {
            if c == 'f' || c == '/' {
                ActionCommand::OpenFilterDialog
            } else if c == 'A' && p == Pane::RunDetail {
                ActionCommand::OpenApprovalDialog
            } else if c == 'R' && p == Pane::RunDetail {
                ActionCommand::RejectSelectedStep
            } else if c == 'c' {
                match pane_group_exec(p) {
                    PaneGroup::Connections => ActionCommand::OpenConnectionDialog { edit: false },
                    PaneGroup::Webhooks => ActionCommand::OpenWebhookDialog { edit: false },
                    PaneGroup::EventRules => ActionCommand::OpenEventRuleDialog { edit: false },
                    PaneGroup::CronWorkflows => ActionCommand::OpenCronDialog { edit: false },
                    PaneGroup::Runs => ActionCommand::OpenScheduleGitDialog,
                    PaneGroup::Tests => ActionCommand::Nothing,
                }
            } else if c == 'e' {
                match pane_group_exec(p) {
                    PaneGroup::Connections => ActionCommand::OpenConnectionDialog { edit: true },
                    PaneGroup::Webhooks => ActionCommand::OpenWebhookDialog { edit: true },
                    PaneGroup::EventRules => ActionCommand::OpenEventRuleDialog { edit: true },
                    PaneGroup::CronWorkflows => ActionCommand::OpenCronDialog { edit: true },
                    _ => ActionCommand::Nothing,
                }
            } else if c == 'd' {
                match pane_group_exec(p) {
                    PaneGroup::Connections => ActionCommand::DeleteSelectedConnection,
                    PaneGroup::Webhooks => ActionCommand::DeleteSelectedWebhook,
                    PaneGroup::EventRules => ActionCommand::DeleteSelectedEventRule,
                    PaneGroup::CronWorkflows => ActionCommand::DeleteSelectedCronWorkflow,
                    PaneGroup::Runs => ActionCommand::OpenDeleteRunDialog,
                    PaneGroup::Tests => ActionCommand::Nothing,
                }
            } else if c == 'r' {
                ActionCommand::OpenFileBrowser
            } else {
                ActionCommand::Nothing
            }
        },
        _ => ActionCommand::Nothing,
    }
}

/// `n` empty text fields.
fn empty_fields(n: usize) -> (v: Vec<String>)
    ensures
        v@.len() == n,
        forall|i: int| 0 <= i < n ==> (#[trigger] v@[i])@.len() == 0,
{
    let mut v: Vec<String> = Vec::new();
    let mut i: usize = 0;
    while i < n
        invariant
            i <= n,
            v@.len() == i,
            forall|j: int| 0 <= j < i ==> (#[trigger] v@[j])@.len() == 0,
        decreases n - i,
    {
        v.push(String::new());
        i = i + 1;
    }
    v
}

impl App {
    /// Opens the file browser.
    pub fn open_file_browser(&mut self)
        ensures
            *final(self) == (App { file_browser_active: true, ..*old(self) }),
    {
        self.file_browser_active = true;
    }

    /// Opens the Git scheduling dialog with three empty fields, the first focused.
    pub fn open_schedule_git_dialog(&mut self)
        ensures
            final(self).schedule_git_dialog.active,
            final(self).schedule_git_dialog.focus == 0,
            final(self).schedule_git_dialog.inputs@.len() == 3,
            forall|i: int| 0 <= i < 3 ==> (#[trigger] final(self).schedule_git_dialog.inputs@[i])@.len() == 0,
            final(self).schedule_git_dialog.is_active == old(self).schedule_git_dialog.is_active,
            final(self).schedule_git_dialog.edit_id == old(self).schedule_git_dialog.edit_id,
            *final(self) == (App { schedule_git_dialog: final(self).schedule_git_dialog, ..*old(self) }),
    {
        self.schedule_git_dialog.active = true;
        self.schedule_git_dialog.focus = 0;
        self.schedule_git_dialog.inputs = empty_fields(3);
    }

    /// Opens the approval dialog with `{}` as its inputs.
    pub fn open_approval_dialog(&mut self)
        ensures
            final(self).approval_inputs@ == "{}"@,
            *final(self) == (App { approval_dialog_active: true, approval_inputs: final(self).approval_inputs, ..*old(self) }),
    {
        self.approval_dialog_active = true;
        self.approval_inputs = owned("{}");
    }

    /// Opens the confirmation for deleting the selected run; without a selected run nothing
    /// happens.
    pub fn open_delete_run_dialog(&mut self)
        ensures
            old(self).runs_selected is Some ==> *final(self) == (App { delete_run_dialog_active: true, ..*old(self) }),
            old(self).runs_selected is None ==> *final(self) == *old(self),
    {
        if self.runs_selected.is_some() {
            self.delete_run_dialog_active = true;
        }
    }

    /// A key in the Git scheduling dialog, as `git_form_key` says.
    pub fn handle_schedule_git_dialog_key(&mut self, key: KeyPress) -> (r: DialogKeyOutcome)
        ensures
            (final(self).schedule_git_dialog, r) == git_form_key(old(self).schedule_git_dialog, key),
            *final(self) == (App { schedule_git_dialog: final(self).schedule_git_dialog, ..*old(self) }),
    {
        self.schedule_git_dialog.handle_git_form_key(key)
    }

    /// A key in the event rule dialog, as `switch_form_key` says.
    pub fn handle_event_rule_dialog_key(&mut self, key: KeyPress) -> (r: DialogKeyOutcome)
        requires
            old(self).event_rule_dialog.inputs@.len() < usize::MAX,
        ensures
            (final(self).event_rule_dialog, r) == switch_form_key(old(self).event_rule_dialog, key),
            *final(self) == (App { event_rule_dialog: final(self).event_rule_dialog, ..*old(self) }),
    {
        self.event_rule_dialog.handle_switch_form_key(key)
    }

    /// A key in the cron workflow dialog, as `switch_form_key` says.
    pub fn handle_cron_dialog_key(&mut self, key: KeyPress) -> (r: DialogKeyOutcome)
        requires
            old(self).cron_dialog.inputs@.len() < usize::MAX,
        ensures
            (final(self).cron_dialog, r) == switch_form_key(old(self).cron_dialog, key),
            *final(self) == (App { cron_dialog: final(self).cron_dialog, ..*old(self) }),
    {
        self.cron_dialog.handle_switch_form_key(key)
    }

    /// A key in the approval dialog: Esc closes it, Ctrl+A approves the selected step with
    /// the typed inputs, and other keys go to the inputs.
    pub fn handle_approval_dialog_key(&mut self, key: KeyPress) -> (r: DialogKeyOutcome)
        ensures
            key.key == Key::Esc ==> r == DialogKeyOutcome::Closed
                && *final(self) == (App { approval_dialog_active: false, ..*old(self) }),
            key.key != Key::Esc && (key.key == Key::Char('a') || key.key == Key::Char('A')) && key.ctrl
                ==> r == DialogKeyOutcome::Submit && *final(self) == *old(self),
            key.key != Key::Esc && !((key.key == Key::Char('a') || key.key == Key::Char('A')) && key.ctrl)
                ==> r == DialogKeyOutcome::Edit(0) && *final(self) == *old(self),
    {
        if key.key == Key::Esc {
            self.approval_dialog_active = false;
            DialogKeyOutcome::Closed
        } else if (key.key == Key::Char('a') || key.key == Key::Char('A')) && key.ctrl {
            DialogKeyOutcome::Submit
        } else {
            DialogKeyOutcome::Edit(0)
        }
    }

    /// A key in the run deletion confirmation: Esc, `n` or `N` close it; Enter, `y` or `Y`
    /// confirm the deletion and close it; other keys do nothing.
    pub fn handle_delete_run_dialog_key(&mut self, key: KeyPress) -> (r: DialogKeyOutcome)
        ensures
            (key.key == Key::Esc || key.key == Key::Char('n') || key.key == Key::Char('N')) ==> r
                == DialogKeyOutcome::Closed && *final(self) == (App { delete_run_dialog_active: false, ..*old(self) }),
            (key.key == Key::Enter || key.key == Key::Char('y') || key.key == Key::Char('Y')) ==> r
                == DialogKeyOutcome::Submit && *final(self) == (App { delete_run_dialog_active: false, ..*old(self) }),
            !(key.key == Key::Esc || key.key == Key::Char('n') || key.key == Key::Char('N') || key.key == Key::Enter
                || key.key == Key::Char('y') || key.key == Key::Char('Y')) ==> r == DialogKeyOutcome::Done
                && *final(self) == *old(self),
    {
        let k = key.key;
        if k == Key::Esc || k == Key::Char('n') || k == Key::Char('N') {
            self.delete_run_dialog_active = false;
            DialogKeyOutcome::Closed
        } else if k == Key::Enter || k == Key::Char('y') || k == Key::Char('Y') {
            self.delete_run_dialog_active = false;
            DialogKeyOutcome::Submit
        } else {
            DialogKeyOutcome::Done
        }
    }

    /// A key in the file browser: Esc closes it, Enter opens the highlighted directory or
    /// submits the highlighted file (the caller looks which it is), and other keys move
    /// through the browser.
    pub fn handle_file_browser_key(&mut self, key: KeyPress) -> (r: DialogKeyOutcome)
        ensures
            key.key == Key::Esc ==> r == DialogKeyOutcome::Closed
                && *final(self) == (App { file_browser_active: false, ..*old(self) }),
            key.key == Key::Enter ==> r == DialogKeyOutcome::Submit && *final(self) == *old(self),
            key.key != Key::Esc && key.key != Key::Enter ==> r == DialogKeyOutcome::Edit(0) && *final(self)
                == *old(self),
    {
        if key.key == Key::Esc {
            self.file_browser_active = false;
            DialogKeyOutcome::Closed
        } else if key.key == Key::Enter {
            DialogKeyOutcome::Submit
        } else {
            DialogKeyOutcome::Edit(0)
        }
    }

    /// An action key: the dialogs that need nothing more are opened here (Git scheduling,
    /// approval, run deletion, file browser); the command is handed back for the rest.
    pub fn handle_action_keys(&mut self, key: KeyPress) -> (a: ActionCommand)
        ensures
            a == action_command(key, old(self).active_pane),
            a == ActionCommand::OpenScheduleGitDialog ==> final(self).schedule_git_dialog.active
                && final(self).schedule_git_dialog.focus == 0 && final(self).schedule_git_dialog.inputs@.len() == 3
                && *final(self) == (App { schedule_git_dialog: final(self).schedule_git_dialog, ..*old(self) }),
            a == ActionCommand::OpenApprovalDialog ==> final(self).approval_inputs@ == "{}"@ && *final(self) == (App {
                approval_dialog_active: true,
                approval_inputs: final(self).approval_inputs,
                ..*old(self)
            }),
            a == ActionCommand::OpenDeleteRunDialog ==> *final(self) == (App {
                delete_run_dialog_active: old(self).delete_run_dialog_active || old(self).runs_selected is Some,
                ..*old(self)
            }),
            a == ActionCommand::OpenFileBrowser ==> *final(self) == (App { file_browser_active: true, ..*old(self) }),
            !(a == ActionCommand::OpenScheduleGitDialog || a == ActionCommand::OpenApprovalDialog || a
                == ActionCommand::OpenDeleteRunDialog || a == ActionCommand::OpenFileBrowser) ==> *final(self)
                == *old(self),
    {
        let a = action_of(key, self.active_pane);
        match a {
            ActionCommand::OpenScheduleGitDialog => self.open_schedule_git_dialog(),
            ActionCommand::OpenApprovalDialog => self.open_approval_dialog(),
            ActionCommand::OpenDeleteRunDialog => self.open_delete_run_dialog(),
            ActionCommand::OpenFileBrowser => self.open_file_browser(),
            _ => {},
        }
        a
    }
}

/// `s` with every CR LF pair turned into a LF.
pub open spec fn lf_line_ends(s: Seq<char>) -> Seq<char>
    decreases s.len(),
{
    if s.len() == 0 {
        s
    } else if s.len() >= 2 && s[0] == '\r' && s[1] == '\n' {
        seq!['\n'] + lf_line_ends(s.subrange(2, s.len() as int))
    } else {
        seq![s[0]] + lf_line_ends(s.subrange(1, s.len() as int))
    }
}

/// The text of a field filled with the lines of `s` (as `str::lines` splits it) and read
/// back with its lines joined by LF: CR LF line ends become LF, and a final line end goes.
pub open spec fn lines_text(s: Seq<char>) -> Seq<char> {
    let t = lf_line_ends(s);
    if t.len() > 0 && t.last() == '\n' {
        t.drop_last()
    } else {
        t
    }
}

/// The field text for `s`, as `lines_text` says.
pub fn lines_text_exec(s: &str) -> (r: String)
    ensures
        r@ == lines_text(s@),
{
    let v = chars_of(s);
    let n = v.len();
    let mut out: Vec<char> = Vec::new();
    let mut i: usize = 0;
    assert(v@.subrange(0, n as int) =~= v@);
    assert(out@ + lf_line_ends(v@.subrange(0, n as int)) =~= lf_line_ends(v@));
    while i < n
        invariant
            i <= n,
            n == v@.len(),
            v@ == s@,
            out@ + lf_line_ends(v@.subrange(i as int, n as int)) == lf_line_ends(v@),
        decreases n - i,
    {
        let ghost rest = v@.subrange(i as int, n as int);
        if i + 1 < n && v[i] == '\r' && v[i + 1] == '\n' {
            assert(rest.subrange(2, rest.len() as int) =~= v@.subrange(i + 2, n as int));
            assert(lf_line_ends(rest) == seq!['\n'] + lf_line_ends(rest.subrange(2, rest.len() as int)));
            out.push('\n');
            assert(out@ + lf_line_ends(v@.subrange(i + 2, n as int)) =~= lf_line_ends(v@)) by {
                assert(out@ =~= out@.drop_last().push('\n'));
            }
            i = i + 2;
        } else {
            assert(rest.subrange(1, rest.len() as int) =~= v@.subrange(i + 1, n as int));
            assert(lf_line_ends(rest) == seq![v@[i as int]] + lf_line_ends(rest.subrange(1, rest.len() as int)));
            out.push(v[i]);
            i = i + 1;
        }
    }
    assert(v@.subrange(n as int, n as int).len() == 0);
    assert(out@ =~= lf_line_ends(v@));
    if out.len() > 0 && out[out.len() - 1] == '\n' {
        out.pop();
    }
    string_from_chars(&out)
}

/// An event rule as the dialog reads it; its input mappings as pretty-printed JSON text.
pub struct EventRuleEntry {
    pub id: u128,
    pub name: String,
    pub description: Option<String>,
    pub webhook_id: Option<u128>,
    pub event_type_pattern: String,
    pub condition_expr: Option<String>,
    pub workflow_name: String,
    pub repo_url: String,
    pub workflow_path: String,
    pub git_ref: String,
    pub input_mappings_pretty: String,
    pub is_active: bool,
}

/// A cron workflow as the dialog reads it; its inputs as pretty-printed JSON text.
pub struct CronEntry {
    pub id: u128,
    pub name: String,
    pub description: Option<String>,
    pub cronspec: String,
    pub workflow_name: String,
    pub repo_url: String,
    pub workflow_path: String,
    pub git_ref: String,
    pub inputs_pretty: String,
    pub is_active: bool,
}

/// The text of an optional value: the value, or nothing.
pub open spec fn or_empty(o: Option<Seq<char>>) -> Seq<char> {
    match o {
        Some(t) => t,
        None => Seq::empty(),
    }
}

/// The fields of the event rule dialog for `r`.
pub open spec fn event_rule_fields(r: EventRuleEntry) -> Seq<Seq<char>> {
    seq![
        r.name@,
        lines_text(or_empty(opt_str_view(r.description))),
        lines_text(match r.webhook_id { Some(w) => uuid_text(w), None => Seq::empty() }),
        r.event_type_pattern@,
        lines_text(or_empty(opt_str_view(r.condition_expr))),
        r.workflow_name@,
        r.repo_url@,
        r.workflow_path@,
        r.git_ref@,
        lines_text(r.input_mappings_pretty@),
    ]
}

/// The fields of a new event rule: nine empty ones and `{}` for the input mappings.
pub open spec fn new_event_rule_fields() -> Seq<Seq<char>> {
    seq![Seq::empty(), Seq::empty(), Seq::empty(), Seq::empty(), Seq::empty(), Seq::empty(), Seq::empty(),
        Seq::empty(), Seq::empty(), "{}"@]
}

/// The fields of the cron workflow dialog for `c`.
pub open spec fn cron_fields(c: CronEntry) -> Seq<Seq<char>> {
    seq![
        c.name@,
        lines_text(or_empty(opt_str_view(c.description))),
        c.cronspec@,
        c.workflow_name@,
        c.repo_url@,
        c.workflow_path@,
        c.git_ref@,
        lines_text(c.inputs_pretty@),
    ]
}

/// The fields of a new cron workflow: seven empty ones and `{}` for the inputs.
pub open spec fn new_cron_fields() -> Seq<Seq<char>> {
    seq![Seq::empty(), Seq::empty(), Seq::empty(), Seq::empty(), Seq::empty(), Seq::empty(), Seq::empty(), "{}"@]
}

/// The texts of some fields.
pub open spec fn field_texts(v: Seq<String>) -> Seq<Seq<char>> {
    v.map_values(|s: String| s@)
}

fn opt_lines_text(o: &Option<String>) -> (r: String)
    ensures
        r@ == lines_text(or_empty(opt_str_view(*o))),
{
    match o {
        Some(t) => lines_text_exec(t.as_str()),
        None => {
            let r = String::new();
            proof {
                assert(lf_line_ends(Seq::<char>::empty()) =~= Seq::<char>::empty());
            }
            r
        },
    }
}

impl App {
    /// Opens the event rule dialog, focused on its first field: to edit `selected` when
    /// `edit` is set and a rule is selected (its fields, id and switch), else to create a
    /// rule (empty fields, `{}` mappings, active).
    pub fn open_event_rule_dialog(&mut self, edit: bool, selected: Option<EventRuleEntry>)
        ensures
            final(self).event_rule_dialog.active,
            final(self).event_rule_dialog.focus == 0,
            match selected {
                Some(r) if edit => {
                    &&& final(self).event_rule_dialog.edit_id == Some(r.id)
                    &&& field_texts(final(self).event_rule_dialog.inputs@) == event_rule_fields(r)
                    &&& final(self).event_rule_dialog.is_active == r.is_active
                },
                _ => {
                    &&& final(self).event_rule_dialog.edit_id is None
                    &&& field_texts(final(self).event_rule_dialog.inputs@) == new_event_rule_fields()
                    &&& final(self).event_rule_dialog.is_active
                },
            },
            *final(self) == (App { event_rule_dialog: final(self).event_rule_dialog, ..*old(self) }),
    {
        self.event_rule_dialog.active = true;
        self.event_rule_dialog.focus = 0;
        match selected {
            Some(r) if edit => {
                let webhook = match r.webhook_id {
                    Some(w) => lines_text_exec(uuid_string(w).as_str()),
                    None => opt_lines_text(&None),
                };
                let inputs = vec![
                    r.name,
                    opt_lines_text(&r.description),
                    webhook,
                    r.event_type_pattern,
                    opt_lines_text(&r.condition_expr),
                    r.workflow_name,
                    r.repo_url,
                    r.workflow_path,
                    r.git_ref,
                    lines_text_exec(r.input_mappings_pretty.as_str()),
                ];
                self.event_rule_dialog.edit_id = Some(r.id);
                self.event_rule_dialog.inputs = inputs;
                self.event_rule_dialog.is_active = r.is_active;
                proof {
                    assert(field_texts(self.event_rule_dialog.inputs@) =~= event_rule_fields(r));
                }
            },
            _ => {
                let mut inputs = empty_fields(9);
                inputs.push(owned("{}"));
                self.event_rule_dialog.edit_id = None;
                self.event_rule_dialog.inputs = inputs;
                self.event_rule_dialog.is_active = true;
                proof {
                    assert forall|i: int| 0 <= i < 9 implies #[trigger] field_texts(self.event_rule_dialog.inputs@)[i]
                        =~= Seq::<char>::empty() by {
                        assert(self.event_rule_dialog.inputs@[i]@.len() == 0);
                    }
                    assert(field_texts(self.event_rule_dialog.inputs@) =~= new_event_rule_fields());
                }
            },
        }
    }

    /// Opens the cron workflow dialog, focused on its first field: to edit `selected` when
    /// `edit` is set and a cron workflow is selected, else to create one (empty fields, `{}`
    /// inputs, active).
    pub fn open_cron_dialog(&mut self, edit: bool, selected: Option<CronEntry>)
        ensures
            final(self).cron_dialog.active,
            final(self).cron_dialog.focus == 0,
            match selected {
                Some(c) if edit => {
                    &&& final(self).cron_dialog.edit_id == Some(c.id)
                    &&& field_texts(final(self).cron_dialog.inputs@) == cron_fields(c)
                    &&& final(self).cron_dialog.is_active == c.is_active
                },
                _ => {
                    &&& final(self).cron_dialog.edit_id is None
                    &&& field_texts(final(self).cron_dialog.inputs@) == new_cron_fields()
                    &&& final(self).cron_dialog.is_active
                },
            },
            *final(self) == (App { cron_dialog: final(self).cron_dialog, ..*old(self) }),
    {
        self.cron_dialog.active = true;
        self.cron_dialog.focus = 0;
        match selected {
            Some(c) if edit => {
                let inputs = vec![
                    c.name,
                    opt_lines_text(&c.description),
                    c.cronspec,
                    c.workflow_name,
                    c.repo_url,
                    c.workflow_path,
                    c.git_ref,
                    lines_text_exec(c.inputs_pretty.as_str()),
                ];
                self.cron_dialog.edit_id = Some(c.id);
                self.cron_dialog.inputs = inputs;
                self.cron_dialog.is_active = c.is_active;
                proof {
                    assert(field_texts(self.cron_dialog.inputs@) =~= cron_fields(c));
                }
            },
            _ => {
                let mut inputs = empty_fields(7);
                inputs.push(owned("{}"));
                self.cron_dialog.edit_id = None;
                self.cron_dialog.inputs = inputs;
                self.cron_dialog.is_active = true;
                proof {
                    assert forall|i: int| 0 <= i < 7 implies #[trigger] field_texts(self.cron_dialog.inputs@)[i]
                        =~= Seq::<char>::empty() by {
                        assert(self.cron_dialog.inputs@[i]@.len() == 0);
                    }
                    assert(field_texts(self.cron_dialog.inputs@) =~= new_cron_fields());
                }
            },
        }
    }
}

/// An HTTP method of the server's API.
#[derive(PartialEq, Eq, Structural, Clone, Copy, Debug)]
pub enum HttpMethod {
    Get,
    Post,
    Patch,
    Delete,
}

/// A member of a JSON object sent to the server.
pub enum BodyValue {
    Text(String),
    Null,
    Flag(bool),
    /// JSON text that serde_json reads.
    Json(String),
}

pub enum BodyValueView {
    Text(Seq<char>),
    Null,
    Flag(bool),
    Json(Seq<char>),
}

impl View for BodyValue {
    type V = BodyValueView;

    open spec fn view(&self) -> BodyValueView {
        match self {
            BodyValue::Text(t) => BodyValueView::Text(t@),
            BodyValue::Null => BodyValueView::Null,
            BodyValue::Flag(b) => BodyValueView::Flag(*b),
            BodyValue::Json(t) => BodyValueView::Json(t@),
        }
    }
}

/// The body of a request: none, a JSON object with these members in this order, or a JSON
/// text.
pub enum ApiBody {
    Empty,
    Fields(Vec<(String, BodyValue)>),
    Json(String),
}

pub enum ApiBodyView {
    Empty,
    Fields(Seq<(Seq<char>, BodyValueView)>),
    Json(Seq<char>),
}

pub open spec fn fields_view(v: Seq<(String, BodyValue)>) -> Seq<(Seq<char>, BodyValueView)> {
    v.map_values(|p: (String, BodyValue)| (p.0@, p.1@))
}

impl View for ApiBody {
    type V = ApiBodyView;

    open spec fn view(&self) -> ApiBodyView {
        match self {
            ApiBody::Empty => ApiBodyView::Empty,
            ApiBody::Fields(v) => ApiBodyView::Fields(fields_view(v@)),
            ApiBody::Json(t) => ApiBodyView::Json(t@),
        }
    }
}

/// A request to the server's API: method, path below the server's URL, body.
pub struct ApiCall {
    pub method: HttpMethod,
    pub path: String,
    pub body: ApiBody,
}

pub struct ApiCallView {
    pub method: HttpMethod,
    pub path: Seq<char>,
    pub body: ApiBodyView,
}

impl View for ApiCall {
    type V = ApiCallView;

    open spec fn view(&self) -> ApiCallView {
        ApiCallView { method: self.method, path: self.path@, body: self.body@ }
    }
}

/// Whether a field holds nothing but white space.
pub open spec fn blank(t: Seq<char>) -> bool {
    trim(t).len() == 0
}

/// An optional text member: `null` for a blank field, else the field.
pub open spec fn text_or_null(t: Seq<char>) -> BodyValueView {
    if blank(t) {
        BodyValueView::Null
    } else {
        BodyValueView::Text(t)
    }
}

/// A JSON member: `{}` for a blank field, else the field's JSON.
pub open spec fn json_or_empty(t: Seq<char>) -> BodyValueView {
    if blank(t) {
        BodyValueView::Json("{}"@)
    } else {
        BodyValueView::Json(t)
    }
}

/// Creation (POST on `base`) or an edit of entry `id` (PATCH on `base/id`).
pub open spec fn save_target(base: Seq<char>, edit_id: Option<u128>) -> (HttpMethod, Seq<char>) {
    match edit_id {
        Some(id) => (HttpMethod::Patch, base + "/"@ + uuid_text(id)),
        None => (HttpMethod::Post, base),
    }
}

/// What submitting the event rule dialog asks of the server, or the message that refuses it:
/// name, event type pattern, workflow name, repository, workflow path and Git ref are
/// required; the input mappings must be JSON (blank means `{}`); a webhook id, when given,
/// must be a UUID.
pub open spec fn event_rule_call(d: FormDialog) -> Result<ApiCallView, Seq<char>> {
    let f = field_texts(d.inputs@);
    if blank(f[0]) || blank(f[3]) || blank(f[5]) || blank(f[6]) || blank(f[7]) || blank(f[8]) {
        Err("Required fields are missing."@)
    } else if !blank(f[9]) && !is_json_text(f[9]) {
        Err("Input mappings must be valid JSON."@)
    } else if !blank(f[2]) && uuid_parsed(f[2]) is None {
        Err("Invalid Webhook ID format"@)
    } else {
        let webhook = if blank(f[2]) {
            BodyValueView::Null
        } else {
            BodyValueView::Text(uuid_text(uuid_parsed(f[2])->0))
        };
        let t = save_target("/api/v1/rules"@, d.edit_id);
        Ok(ApiCallView {
            method: t.0,
            path: t.1,
            body: ApiBodyView::Fields(seq![
                ("name"@, BodyValueView::Text(f[0])),
                ("description"@, text_or_null(f[1])),
                ("webhook_id"@, webhook),
                ("event_type_pattern"@, BodyValueView::Text(f[3])),
                ("condition_expr"@, text_or_null(f[4])),
                ("workflow_name"@, BodyValueView::Text(f[5])),
                ("repo_url"@, BodyValueView::Text(f[6])),
                ("workflow_path"@, BodyValueView::Text(f[7])),
                ("git_ref"@, BodyValueView::Text(f[8])),
                ("input_mappings"@, json_or_empty(f[9])),
                ("is_active"@, BodyValueView::Flag(d.is_active)),
            ]),
        })
    }
}

/// What submitting the cron workflow dialog asks of the server, or the message that refuses
/// it: name, schedule, workflow name, repository, workflow path and Git ref are required,
/// and the inputs must be JSON (blank means `{}`).
pub open spec fn cron_call(d: FormDialog) -> Result<ApiCallView, Seq<char>> {
    let f = field_texts(d.inputs@);
    if blank(f[0]) || blank(f[2]) || blank(f[3]) || blank(f[4]) || blank(f[5]) || blank(f[6]) {
        Err("Required fields are missing."@)
    } else if !blank(f[7]) && !is_json_text(f[7]) {
        Err("Inputs must be valid JSON."@)
    } else {
        let t = save_target("/api/v1/cron-workflows"@, d.edit_id);
        Ok(ApiCallView {
            method: t.0,
            path: t.1,
            body: ApiBodyView::Fields(seq![
                ("name"@, BodyValueView::Text(f[0])),
                ("description"@, text_or_null(f[1])),
                ("cronspec"@, BodyValueView::Text(f[2])),
                ("workflow_name"@, BodyValueView::Text(f[3])),
                ("repo_url"@, BodyValueView::Text(f[4])),
                ("workflow_path"@, BodyValueView::Text(f[5])),
                ("git_ref"@, BodyValueView::Text(f[6])),
                ("inputs"@, json_or_empty(f[7])),
                ("is_active"@, BodyValueView::Flag(d.is_active)),
            ]),
        })
    }
}

fn is_blank(t: &String) -> (r: bool)
    ensures
        r == blank(t@),
{
    trim_exec(t.as_str()).unicode_len() == 0
}

fn text_or_null_exec(t: &String) -> (r: BodyValue)
    ensures
        r@ == text_or_null(t@),
{
    if is_blank(t) {
        BodyValue::Null
    } else {
        BodyValue::Text(t.clone())
    }
}

fn json_or_empty_exec(t: &String) -> (r: BodyValue)
    ensures
        r@ == json_or_empty(t@),
{
    if is_blank(t) {
        BodyValue::Json(owned("{}"))
    } else {
        BodyValue::Json(t.clone())
    }
}

fn save_target_exec(base: &str, edit_id: Option<u128>) -> (r: (HttpMethod, String))
    ensures
        (r.0, r.1@) == save_target(base@, edit_id),
{
    match edit_id {
        Some(id) => {
            let with_slash = concat_str(base, "/");
            let u = uuid_string(id);
            let p = concat_str(with_slash.as_str(), u.as_str());
            (HttpMethod::Patch, p)
        },
        None => (HttpMethod::Post, owned(base)),
    }
}

fn field(name: &str, v: BodyValue) -> (r: (String, BodyValue))
    ensures
        r.0@ == name@,
        r.1@ == v@,
{
    (owned(name), v)
}

impl App {
    /// Submits the event rule dialog: without a token nothing happens; a refused form sets
    /// the error to its message; otherwise the request is handed back (the caller sends it,
    /// closes the dialog and reloads the rules when the server accepts it).
    pub fn submit_event_rule_form(&mut self) -> (r: Option<ApiCall>)
        requires
            old(self).token is Some ==> old(self).event_rule_dialog.inputs@.len() >= 10,
        ensures
            old(self).token is None ==> r is None && *final(self) == *old(self),
            old(self).token is Some ==> match event_rule_call(old(self).event_rule_dialog) {
                Ok(c) => r is Some && r->0@ == c && *final(self) == *old(self),
                Err(m) => r is None && opt_str_view(final(self).error) == Some(m) && *final(self) == (App {
                    error: final(self).error,
                    ..*old(self)
                }),
            },
    {
        if self.token.is_none() {
            return None;
        }
        let ghost d = self.event_rule_dialog;
        let ghost f = field_texts(d.inputs@);
        let inputs = &self.event_rule_dialog.inputs;
        if is_blank(&inputs[0]) || is_blank(&inputs[3]) || is_blank(&inputs[5]) || is_blank(&inputs[6])
            || is_blank(&inputs[7]) || is_blank(&inputs[8]) {
            self.error = Some(owned("Required fields are missing."));
            return None;
        }
        if !is_blank(&inputs[9]) && !json_parses(inputs[9].as_str()) {
            self.error = Some(owned("Input mappings must be valid JSON."));
            return None;
        }
        let webhook = if is_blank(&inputs[2]) {
            BodyValue::Null
        } else {
            match parse_uuid(inputs[2].as_str()) {
                Some(w) => BodyValue::Text(uuid_string(w)),
                None => {
                    self.error = Some(owned("Invalid Webhook ID format"));
                    return None;
                },
            }
        };
        let t = save_target_exec("/api/v1/rules", self.event_rule_dialog.edit_id);
        let body = vec![
            field("name", BodyValue::Text(inputs[0].clone())),
            field("description", text_or_null_exec(&inputs[1])),
            field("webhook_id", webhook),
            field("event_type_pattern", BodyValue::Text(inputs[3].clone())),
            field("condition_expr", text_or_null_exec(&inputs[4])),
            field("workflow_name", BodyValue::Text(inputs[5].clone())),
            field("repo_url", BodyValue::Text(inputs[6].clone())),
            field("workflow_path", BodyValue::Text(inputs[7].clone())),
            field("git_ref", BodyValue::Text(inputs[8].clone())),
            field("input_mappings", json_or_empty_exec(&inputs[9])),
            field("is_active", BodyValue::Flag(self.event_rule_dialog.is_active)),
        ];
        let call = ApiCall { method: t.0, path: t.1, body: ApiBody::Fields(body) };
        proof {
            match event_rule_call(d) {
                Ok(c) => {
                    assert(fields_view(body@) =~= c.body->Fields_0);
                },
                Err(_) => {},
            }
        }
        Some(call)
    }

    /// Submits the cron workflow dialog, as `submit_event_rule_form` does for event rules.
    pub fn submit_cron_workflow_form(&mut self) -> (r: Option<ApiCall>)
        requires
            old(self).token is Some ==> old(self).cron_dialog.inputs@.len() >= 8,
        ensures
            old(self).token is None ==> r is None && *final(self) == *old(self),
            old(self).token is Some ==> match cron_call(old(self).cron_dialog) {
                Ok(c) => r is Some && r->0@ == c && *final(self) == *old(self),
                Err(m) => r is None && opt_str_view(final(self).error) == Some(m) && *final(self) == (App {
                    error: final(self).error,
                    ..*old(self)
                }),
            },
    {
        if self.token.is_none() {
            return None;
        }
        let ghost d = self.cron_dialog;
        let inputs = &self.cron_dialog.inputs;
        if is_blank(&inputs[0]) || is_blank(&inputs[2]) || is_blank(&inputs[3]) || is_blank(&inputs[4])
            || is_blank(&inputs[5]) || is_blank(&inputs[6]) {
            self.error = Some(owned("Required fields are missing."));
            return None;
        }
        if !is_blank(&inputs[7]) && !json_parses(inputs[7].as_str()) {
            self.error = Some(owned("Inputs must be valid JSON."));
            return None;
        }
        let t = save_target_exec("/api/v1/cron-workflows", self.cron_dialog.edit_id);
        let body = vec![
            field("name", BodyValue::Text(inputs[0].clone())),
            field("description", text_or_null_exec(&inputs[1])),
            field("cronspec", BodyValue::Text(inputs[2].clone())),
            field("workflow_name", BodyValue::Text(inputs[3].clone())),
            field("repo_url", BodyValue::Text(inputs[4].clone())),
            field("workflow_path", BodyValue::Text(inputs[5].clone())),
            field("git_ref", BodyValue::Text(inputs[6].clone())),
            field("inputs", json_or_empty_exec(&inputs[7])),
            field("is_active", BodyValue::Flag(self.cron_dialog.is_active)),
        ];
        let call = ApiCall { method: t.0, path: t.1, body: ApiBody::Fields(body) };
        proof {
            match cron_call(d) {
                Ok(c) => {
                    assert(fields_view(body@) =~= c.body->Fields_0);
                },
                Err(_) => {},
            }
        }
        Some(call)
    }
}

/// The first line of a field (all of it when it has one line).
pub open spec fn first_line(t: Seq<char>) -> Seq<char> {
    t.take(first_index_of(t, '\n') as int)
}

/// What follows the last `c` of `s` (all of `s` when it has none).
pub open spec fn after_last(s: Seq<char>, c: char) -> Seq<char>
    decreases s.len(),
{
    if s.len() == 0 {
        s
    } else if s.last() == c {
        Seq::empty()
    } else {
        after_last(s.drop_last(), c).push(s.last())
    }
}

/// What submitting the Git scheduling dialog asks of the server: `None` unless it has its
/// three fields; the message when the first line of a field is blank; otherwise a new run of
/// the workflow at that path (named by its file name) from that connection and Git ref, with
/// no inputs.
pub open spec fn schedule_git_call(d: FormDialog) -> Option<Result<ApiCallView, Seq<char>>> {
    if d.inputs@.len() != 3 {
        None
    } else {
        let f = field_texts(d.inputs@);
        let connection = trim(first_line(f[0]));
        let path = trim(first_line(f[1]));
        let git_ref = trim(first_line(f[2]));
        if connection.len() == 0 || path.len() == 0 || git_ref.len() == 0 {
            Some(Err("All fields must be provided"@))
        } else {
            Some(Ok(ApiCallView {
                method: HttpMethod::Post,
                path: "/api/v1/runs"@,
                body: ApiBodyView::Fields(seq![
                    ("connection"@, BodyValueView::Text(connection)),
                    ("workflow_name"@, BodyValueView::Text(after_last(path, '/'))),
                    ("workflow_path"@, BodyValueView::Text(path)),
                    ("git_ref"@, BodyValueView::Text(git_ref)),
                    ("inputs"@, BodyValueView::Json("{}"@)),
                ]),
            }))
        }
    }
}

fn first_line_exec(t: &String) -> (r: String)
    ensures
        r@ == first_line(t@),
{
    let v = chars_of(t.as_str());
    let mut i: usize = 0;
    while i < v.len() && v[i] != '\n'
        invariant
            i <= v@.len(),
            v@ == t@,
            forall|j: int| 0 <= j < i ==> v@[j] != '\n',
        decreases v@.len() - i,
    {
        i = i + 1;
    }
    proof {
        lemma_first_index_of(v@, '\n', i as int);
    }
    substring(&v, 0, i)
}

fn after_last_exec(s: &String, c: char) -> (r: String)
    ensures
        r@ == after_last(s@, c),
{
    let v = chars_of(s.as_str());
    let mut start: usize = 0;
    let mut i: usize = 0;
    assert(v@.take(0) =~= Seq::<char>::empty());
    while i < v.len()
        invariant
            start <= i <= v@.len(),
            v@ == s@,
            after_last(v@.take(i as int), c) == v@.subrange(start as int, i as int),
        decreases v@.len() - i,
    {
        assert(v@.take(i + 1).drop_last() =~= v@.take(i as int));
        if v[i] == c {
            start = i + 1;
            assert(v@.subrange(start as int, i + 1) =~= Seq::<char>::empty());
        } else {
            assert(v@.subrange(start as int, i + 1) =~= v@.subrange(start as int, i as int).push(v@[i as int]));
        }
        i = i + 1;
    }
    assert(v@.take(v@.len() as int) =~= v@);
    substring(&v, start, v.len())
}

/// The run and step ids of the selected step of the shown run, when it has a UUID.
pub open spec fn selected_step_ids(a: App) -> Option<(u128, u128)> {
    match a.selected_run {
        Some(r) => if a.selected_step_index < r.steps@.len() {
            match r.steps@[a.selected_step_index as int].id {
                Some(s) => Some((r.detail.id, s)),
                None => None,
            }
        } else {
            None
        },
        None => None,
    }
}

/// The path that approves (`approve`) or rejects a step of a run.
pub open spec fn step_decision_path(run: u128, step: u128, approve: bool) -> Seq<char> {
    "/api/v1/runs/"@ + uuid_text(run) + "/steps/"@ + uuid_text(step) + if approve {
        "/approve"@
    } else {
        "/reject"@
    }
}

fn step_decision_path_exec(run: u128, step: u128, approve: bool) -> (r: String)
    ensures
        r@ == step_decision_path(run, step, approve),
{
    let a = concat_str("/api/v1/runs/", uuid_string(run).as_str());
    let b = concat_str(a.as_str(), "/steps/");
    let c = concat_str(b.as_str(), uuid_string(step).as_str());
    if approve {
        concat_str(c.as_str(), "/approve")
    } else {
        concat_str(c.as_str(), "/reject")
    }
}

impl App {
    /// Submits the Git scheduling dialog: nothing happens unless it has its three fields; a
    /// blank field sets the error; otherwise the request is handed back (the caller sends it,
    /// closes the dialog and reloads the runs when the server accepts it).
    pub fn submit_schedule_git(&mut self) -> (r: Option<ApiCall>)
        ensures
            match schedule_git_call(old(self).schedule_git_dialog) {
                None => r is None && *final(self) == *old(self),
                Some(Ok(c)) => r is Some && r->0@ == c && *final(self) == *old(self),
                Some(Err(m)) => r is None && opt_str_view(final(self).error) == Some(m) && *final(self) == (App {
                    error: final(self).error,
                    ..*old(self)
                }),
            },
    {
        if self.schedule_git_dialog.inputs.len() != 3 {
            return None;
        }
        let connection = trim_exec(first_line_exec(&self.schedule_git_dialog.inputs[0]).as_str());
        let path = trim_exec(first_line_exec(&self.schedule_git_dialog.inputs[1]).as_str());
        let git_ref = trim_exec(first_line_exec(&self.schedule_git_dialog.inputs[2]).as_str());
        if connection.unicode_len() == 0 || path.unicode_len() == 0 || git_ref.unicode_len() == 0 {
            self.error = Some(owned("All fields must be provided"));
            return None;
        }
        let name = after_last_exec(&path, '/');
        let body = vec![
            field("connection", BodyValue::Text(connection)),
            field("workflow_name", BodyValue::Text(name)),
            field("workflow_path", BodyValue::Text(path)),
            field("git_ref", BodyValue::Text(git_ref)),
            field("inputs", BodyValue::Json(owned("{}"))),
        ];
        let call = ApiCall { method: HttpMethod::Post, path: owned("/api/v1/runs"), body: ApiBody::Fields(body) };
        proof {
            let c = schedule_git_call(old(self).schedule_git_dialog)->0->Ok_0;
            assert(fields_view(body@) =~= c.body->Fields_0);
        }
        Some(call)
    }

    /// The ids of the selected step of the shown run, as `selected_step_ids` says.
    pub fn selected_step_target(&self) -> (r: Option<(u128, u128)>)
        ensures
            r == selected_step_ids(*self),
    {
        match &self.selected_run {
            Some(run) => {
                if self.selected_step_index < run.steps.len() {
                    match run.steps[self.selected_step_index].id {
                        Some(s) => Some((run.detail.id, s)),
                        None => None,
                    }
                } else {
                    None
                }
            },
            None => None,
        }
    }

    /// The request that approves the selected step with the approval dialog's inputs (`{}`
    /// when they are not JSON); `None` when no step with a UUID is selected.
    pub fn approve_selected_step(&self) -> (r: Option<ApiCall>)
        ensures
            match selected_step_ids(*self) {
                Some((run, step)) => r is Some && r->0@ == (ApiCallView {
                    method: HttpMethod::Post,
                    path: step_decision_path(run, step, true),
                    body: ApiBodyView::Json(if is_json_text(self.approval_inputs@) {
                        self.approval_inputs@
                    } else {
                        "{}"@
                    }),
                }),
                None => r is None,
            },
    {
        match self.selected_step_target() {
            Some((run, step)) => {
                let inputs = if json_parses(self.approval_inputs.as_str()) {
                    self.approval_inputs.clone()
                } else {
                    owned("{}")
                };
                Some(ApiCall { method: HttpMethod::Post, path: step_decision_path_exec(run, step, true), body: ApiBody::Json(inputs) })
            },
            None => None,
        }
    }

    /// The request that rejects the selected step; `None` when no step with a UUID is
    /// selected.
    pub fn reject_selected_step(&self) -> (r: Option<ApiCall>)
        ensures
            match selected_step_ids(*self) {
                Some((run, step)) => r is Some && r->0@ == (ApiCallView {
                    method: HttpMethod::Post,
                    path: step_decision_path(run, step, false),
                    body: ApiBodyView::Empty,
                }),
                None => r is None,
            },
    {
        match self.selected_step_target() {
            Some((run, step)) => Some(ApiCall { method: HttpMethod::Post, path: step_decision_path_exec(run, step, false), body: ApiBody::Empty }),
            None => None,
        }
    }

    /// The request that deletes the selected run; `None` when no run is selected.
    pub fn delete_selected_run(&self) -> (r: Option<ApiCall>)
        requires
            self.wf(),
        ensures
            match self.runs_selected {
                Some(i) => r is Some && r->0@ == (ApiCallView {
                    method: HttpMethod::Delete,
                    path: "/api/v1/runs/"@ + uuid_text(self.runs@[i as int].id),
                    body: ApiBodyView::Empty,
                }),
                None => r is None,
            },
    {
        match self.runs_selected {
            Some(i) => Some(ApiCall {
                method: HttpMethod::Delete,
                path: concat_str("/api/v1/runs/", uuid_string(self.runs[i].id).as_str()),
                body: ApiBody::Empty,
            }),
            None => None,
        }
    }

    /// After the server deleted the selected run: the error is cleared, the selection moves
    /// up one run (staying on the first), and the shown run, its step and its logs are
    /// forgotten; the caller then reloads the runs.
    pub fn run_deleted(&mut self)
        requires
            old(self).wf(),
        ensures
            final(self).wf(),
            *final(self) == (App {
                error: None,
                runs_selected: match old(self).runs_selected {
                    Some(i) => Some(if i > 0 { (i - 1) as usize } else { 0 }),
                    None => None,
                },
                selected_run: None,
                selected_step_index: 0,
                run_logs: final(self).run_logs,
                ..*old(self)
            }),
            final(self).run_logs@.len() == 0,
    {
        self.error = None;
        if let Some(i) = self.runs_selected {
            if self.runs.len() > 0 {
                self.runs_selected = Some(if i > 0 { i - 1 } else { 0 });
            }
        }
        self.selected_run = None;
        self.selected_step_index = 0;
        self.run_logs = Vec::new();
    }
}

/// In a form dialog with an "active" switch, Tab followed by Shift+Tab gives the focus back
/// to where it was.
pub proof fn lemma_switch_form_tab_back(d: FormDialog, tab: KeyPress, back: KeyPress)
    requires
        tab.key == Key::Tab,
        back.key == Key::BackTab,
        d.focus <= d.inputs@.len(),
        d.inputs@.len() < usize::MAX,
    ensures
        switch_form_key(switch_form_key(d, tab).0, back).0 == d,
{
    let n = d.inputs@.len() + 1int;
    let m = switch_form_key(d, tab).0;
    vstd::arithmetic::div_mod::lemma_mod_bound(d.focus + 1, n);
    assert(m.focus == (d.focus + 1) % n);
    if d.focus + 1 < n {
        vstd::arithmetic::div_mod::lemma_small_mod((d.focus + 1) as nat, n as nat);
        vstd::arithmetic::div_mod::lemma_small_mod(d.focus as nat, n as nat);
        vstd::arithmetic::div_mod::lemma_mod_add_multiples_vanish(d.focus as int, n);
        assert(m.focus + n - 1 == n + d.focus);
    } else {
        vstd::arithmetic::div_mod::lemma_mod_self_0(n);
        vstd::arithmetic::div_mod::lemma_small_mod((n - 1) as nat, n as nat);
    }
}

/// Opening the cron workflow dialog on a workflow and saving it unchanged sends that
/// workflow back: its fields (the description and inputs with their line ends as the dialog
/// shows them, a blank description as `null`), its switch, as an edit of its id.
pub proof fn lemma_cron_edit_resubmit(c: CronEntry, d: FormDialog)
    requires
        field_texts(d.inputs@) == cron_fields(c),
        d.edit_id == Some(c.id),
        d.is_active == c.is_active,
        !blank(c.name@),
        !blank(c.cronspec@),
        !blank(c.workflow_name@),
        !blank(c.repo_url@),
        !blank(c.workflow_path@),
        !blank(c.git_ref@),
        is_json_text(lines_text(c.inputs_pretty@)),
    ensures
        cron_call(d) == Ok::<ApiCallView, Seq<char>>(ApiCallView {
            method: HttpMethod::Patch,
            path: "/api/v1/cron-workflows/"@ + uuid_text(c.id),
            body: ApiBodyView::Fields(seq![
                ("name"@, BodyValueView::Text(c.name@)),
                ("description"@, text_or_null(lines_text(or_empty(opt_str_view(c.description))))),
                ("cronspec"@, BodyValueView::Text(c.cronspec@)),
                ("workflow_name"@, BodyValueView::Text(c.workflow_name@)),
                ("repo_url"@, BodyValueView::Text(c.repo_url@)),
                ("workflow_path"@, BodyValueView::Text(c.workflow_path@)),
                ("git_ref"@, BodyValueView::Text(c.git_ref@)),
                ("inputs"@, json_or_empty(lines_text(c.inputs_pretty@))),
                ("is_active"@, BodyValueView::Flag(c.is_active)),
            ]),
        }),
{
    let f = field_texts(d.inputs@);
    assert(f[0] == c.name@);
    assert(f[2] == c.cronspec@);
    assert(f[7] == lines_text(c.inputs_pretty@));
    assert("/api/v1/cron-workflows"@ + "/"@ + uuid_text(c.id) =~= "/api/v1/cron-workflows/"@ + uuid_text(c.id)) by {
        reveal_strlit("/api/v1/cron-workflows");
        reveal_strlit("/");
        reveal_strlit("/api/v1/cron-workflows/");
    }
}

/// Where a key goes.
#[derive(PartialEq, Eq, Structural, Clone, Copy, Debug)]
pub enum KeyTarget {
    /// Logged out: Enter starts the login.
    StartLogin,
    /// Logged out or logging in: `q` quits.
    Quit,
    /// Logged out or logging in: other keys do nothing.
    Ignore,
    FilterDialog,
    ScheduleGitDialog,
    EventRuleDialog,
    CronDialog,
    ApprovalDialog,
    DeleteRunDialog,
    FileBrowser,
    /// No dialog is open: the main screen's keys.
    Main,
}

/// Where a key goes: before the login only Enter (when logged out) and `q` count; after
/// it, to the open dialog (the first of filter, Git scheduling, event rule, cron workflow,
/// approval, run deletion and file browser that is open), else to the main screen.
pub open spec fn key_target(a: App, key: KeyPress) -> KeyTarget {
    if a.state == AppState::LoggedOut || a.state == AppState::LoggingIn {
        if key.key == Key::Enter && a.state == AppState::LoggedOut {
            KeyTarget::StartLogin
        } else if key.key == Key::Char('q') {
            KeyTarget::Quit
        } else {
            KeyTarget::Ignore
        }
    } else if a.filter_dialog_active {
        KeyTarget::FilterDialog
    } else if a.schedule_git_dialog.active {
        KeyTarget::ScheduleGitDialog
    } else if a.event_rule_dialog.active {
        KeyTarget::EventRuleDialog
    } else if a.cron_dialog.active {
        KeyTarget::CronDialog
    } else if a.approval_dialog_active {
        KeyTarget::ApprovalDialog
    } else if a.delete_run_dialog_active {
        KeyTarget::DeleteRunDialog
    } else if a.file_browser_active {
        KeyTarget::FileBrowser
    } else {
        KeyTarget::Main
    }
}

impl App {
    /// Where `key` goes, as `key_target` says.
    pub fn route_key(&self, key: KeyPress) -> (t: KeyTarget)
        ensures
            t == key_target(*self, key),
    {
        if self.state == AppState::LoggedOut || self.state == AppState::LoggingIn {
            if key.key == Key::Enter && self.state == AppState::LoggedOut {
                KeyTarget::StartLogin
            } else if key.key == Key::Char('q') {
                KeyTarget::Quit
            } else {
                KeyTarget::Ignore
            }
        } else if self.filter_dialog_active {
            KeyTarget::FilterDialog
        } else if self.schedule_git_dialog.active {
            KeyTarget::ScheduleGitDialog
        } else if self.event_rule_dialog.active {
            KeyTarget::EventRuleDialog
        } else if self.cron_dialog.active {
            KeyTarget::CronDialog
        } else if self.approval_dialog_active {
            KeyTarget::ApprovalDialog
        } else if self.delete_run_dialog_active {
            KeyTarget::DeleteRunDialog
        } else if self.file_browser_active {
            KeyTarget::FileBrowser
        } else {
            KeyTarget::Main
        }
    }
}

/// The lists of entries the UI fetches besides the runs.
#[derive(PartialEq, Eq, Structural, Clone, Copy, Debug)]
pub enum ListKind {
    Connections,
    Webhooks,
    EventRules,
    CronWorkflows,
}

/// Where a list is fetched from.
pub open spec fn list_path(k: ListKind) -> Seq<char> {
    match k {
        ListKind::Connections => "/api/v1/connections"@,
        ListKind::Webhooks => "/api/v1/webhooks"@,
        ListKind::EventRules => "/api/v1/rules"@,
        ListKind::CronWorkflows => "/api/v1/cron-workflows"@,
    }
}

/// What a failed fetch of a list says, before the HTTP status.
pub open spec fn list_failure(k: ListKind) -> Seq<char> {
    match k {
        ListKind::Connections => "Failed to fetch storage backends: "@,
        ListKind::Webhooks => "Failed to fetch webhooks: "@,
        ListKind::EventRules => "Failed to fetch event rules: "@,
        ListKind::CronWorkflows => "Failed to fetch cron workflows: "@,
    }
}

/// The list of this kind.
pub open spec fn listing_of(a: App, k: ListKind) -> Listing {
    match k {
        ListKind::Connections => a.connections,
        ListKind::Webhooks => a.webhooks,
        ListKind::EventRules => a.event_rules,
        ListKind::CronWorkflows => a.cron_workflows,
    }
}

/// `a` with the list of kind `k` replaced by `l`.
pub open spec fn with_listing(a: App, k: ListKind, l: Listing) -> App {
    match k {
        ListKind::Connections => App { connections: l, ..a },
        ListKind::Webhooks => App { webhooks: l, ..a },
        ListKind::EventRules => App { event_rules: l, ..a },
        ListKind::CronWorkflows => App { cron_workflows: l, ..a },
    }
}

/// The request that fetches a list; `None` without a token.
pub fn list_request(token: &Option<String>, k: ListKind) -> (r: Option<ApiCall>)
    ensures
        token is None ==> r is None,
        token is Some ==> r is Some && r->0@ == (ApiCallView { method: HttpMethod::Get, path: list_path(k), body: ApiBodyView::Empty }),
{
    if token.is_none() {
        return None;
    }
    let path = match k {
        ListKind::Connections => owned("/api/v1/connections"),
        ListKind::Webhooks => owned("/api/v1/webhooks"),
        ListKind::EventRules => owned("/api/v1/rules"),
        ListKind::CronWorkflows => owned("/api/v1/cron-workflows"),
    };
    Some(ApiCall { method: HttpMethod::Get, path, body: ApiBody::Empty })
}

impl App {
    /// A list came back from the server (each entry as JSON text): it replaces the list as
    /// `Listing::replace_items` says, and the error is cleared.
    pub fn listing_fetched(&mut self, k: ListKind, items: Vec<String>)
        requires
            listing_of(*old(self), k).current is None && items@.len() > 0 ==> (listing_of(*old(self), k).selected matches Some(i) ==> i < items@.len()),
        ensures
            listing_of(*final(self), k).items == items,
            final(self).error is None,
            *final(self) == with_listing(App { error: None, ..*old(self) }, k, listing_of(*final(self), k)),
            items@.len() == 0 ==> listing_of(*final(self), k).selected is None && listing_of(*final(self), k).current is None,
            items@.len() > 0 ==> {
                let old_l = listing_of(*old(self), k);
                let new_l = listing_of(*final(self), k);
                let sel: usize = match old_l.selected {
                    Some(i) => i,
                    None => 0,
                };
                &&& new_l.selected == Some(sel)
                &&& old_l.current is Some ==> new_l.current == old_l.current
                &&& old_l.current is None ==> opt_str_view(new_l.current) == Some(items@[sel as int]@)
            },
    {
        self.error = None;
        match k {
            ListKind::Connections => self.connections.replace_items(items),
            ListKind::Webhooks => self.webhooks.replace_items(items),
            ListKind::EventRules => self.event_rules.replace_items(items),
            ListKind::CronWorkflows => self.cron_workflows.replace_items(items),
        }
    }

    /// The server refused a list with this HTTP status: the error says so.
    pub fn listing_fetch_failed(&mut self, k: ListKind, status: String)
        ensures
            *final(self) == (App { error: final(self).error, ..*old(self) }),
            opt_str_view(final(self).error) == Some(list_failure(k) + status@),
    {
        let prefix = match k {
            ListKind::Connections => "Failed to fetch storage backends: ",
            ListKind::Webhooks => "Failed to fetch webhooks: ",
            ListKind::EventRules => "Failed to fetch event rules: ",
            ListKind::CronWorkflows => "Failed to fetch cron workflows: ",
        };
        self.error = Some(concat_str(prefix, status.as_str()));
    }
}

/// The value of the last member named `key` among a JSON object's members.
pub open spec fn last_member(members: Seq<(Seq<char>, Seq<char>)>, key: Seq<char>) -> Option<Seq<char>>
    decreases members.len(),
{
    if members.len() == 0 {
        None
    } else if members.last().0 == key {
        Some(members.last().1)
    } else {
        last_member(members.drop_last(), key)
    }
}

/// The UUID that a JSON value holds as a string (the text between its quotes).
pub open spec fn quoted_uuid(v: Seq<char>) -> Option<u128> {
    if v.len() >= 2 && v[0] == '"' && v.last() == '"' {
        uuid_parsed(v.subrange(1, v.len() - 1))
    } else {
        None
    }
}

/// The `id` of an entry kept as JSON text, when it is a UUID string.
pub open spec fn entry_id(entry: Seq<char>) -> Option<u128> {
    match json_value_entries(entry) {
        Some(m) => match last_member(m, "id"@) {
            Some(v) => quoted_uuid(v),
            None => None,
        },
        None => None,
    }
}

fn last_member_exec(members: &Vec<(String, String)>, key: &str) -> (r: Option<String>)
    ensures
        opt_str_view(r) == last_member(pairs_view(members@), key@),
{
    let k = owned(key);
    let mut found: Option<String> = None;
    let mut i: usize = 0;
    while i < members.len()
        invariant
            i <= members@.len(),
            k@ == key@,
            opt_str_view(found) == last_member(pairs_view(members@.take(i as int)), key@),
        decreases members@.len() - i,
    {
        let ghost t = pairs_view(members@.take(i + 1));
        assert(t.drop_last() =~= pairs_view(members@.take(i as int)));
        assert(t.last() == (members@[i as int].0@, members@[i as int].1@));
        if members[i].0 == k {
            found = Some(members[i].1.clone());
        }
        i = i + 1;
    }
    assert(members@.take(members@.len() as int) =~= members@);
    found
}

fn entry_id_exec(entry: &String) -> (r: Option<u128>)
    ensures
        r == entry_id(entry@),
{
    let members = match read_value_entries(entry.as_str()) {
        Some(m) => m,
        None => return None,
    };
    let v = match last_member_exec(&members, "id") {
        Some(v) => v,
        None => {
            proof {
                reveal_strlit("id");
            }
            return None;
        },
    };
    proof {
        reveal_strlit("id");
    }
    let c = chars_of(v.as_str());
    let n = c.len();
    if n >= 2 && c[0] == '"' && c[n - 1] == '"' {
        let inner = substring(&c, 1, n - 1);
        parse_uuid(inner.as_str())
    } else {
        None
    }
}

impl App {
    /// The request that deletes the selected entry of a list: `None` without a token, a
    /// selected entry, or an `id` that is a UUID string.
    pub fn delete_selected_entry(&self, k: ListKind) -> (r: Option<ApiCall>)
        ensures
            match (self.token, listing_of(*self, k).current) {
                (Some(_), Some(e)) => match entry_id(e@) {
                    Some(id) => r is Some && r->0@ == (ApiCallView {
                        method: HttpMethod::Delete,
                        path: list_path(k) + "/"@ + uuid_text(id),
                        body: ApiBodyView::Empty,
                    }),
                    None => r is None,
                },
                _ => r is None,
            },
    {
        if self.token.is_none() {
            return None;
        }
        let current = match k {
            ListKind::Connections => &self.connections.current,
            ListKind::Webhooks => &self.webhooks.current,
            ListKind::EventRules => &self.event_rules.current,
            ListKind::CronWorkflows => &self.cron_workflows.current,
        };
        match current {
            Some(e) => match entry_id_exec(e) {
                Some(id) => {
                    let base = match k {
                        ListKind::Connections => "/api/v1/connections",
                        ListKind::Webhooks => "/api/v1/webhooks",
                        ListKind::EventRules => "/api/v1/rules",
                        ListKind::CronWorkflows => "/api/v1/cron-workflows",
                    };
                    let t = save_target_exec(base, Some(id));
                    Some(ApiCall { method: HttpMethod::Delete, path: t.1, body: ApiBody::Empty })
                },
                None => None,
            },
            None => None,
        }
    }
}

/// What a request made for a dialog or an action was for.
#[derive(PartialEq, Eq, Structural, Clone, Copy, Debug)]
pub enum CallPurpose {
    ScheduleGit,
    SaveEventRule,
    SaveCronWorkflow,
    ApproveStep,
    RejectStep,
    DeleteRun,
    DeleteEntry(ListKind),
}

/// What a refused request says, before the HTTP status.
pub open spec fn call_failure(p: CallPurpose) -> Seq<char> {
    match p {
        CallPurpose::ScheduleGit => "Failed to schedule workflow: "@,
        CallPurpose::SaveEventRule => "Failed to save event rule: "@,
        CallPurpose::SaveCronWorkflow => "Failed to save cron workflow: "@,
        CallPurpose::ApproveStep => "Failed to approve step: "@,
        CallPurpose::RejectStep => "Failed to reject step: "@,
        CallPurpose::DeleteRun => "Failed to delete run: "@,
        CallPurpose::DeleteEntry(ListKind::Connections) => "Failed to delete storage backend: "@,
        CallPurpose::DeleteEntry(ListKind::Webhooks) => "Failed to delete webhook: "@,
        CallPurpose::DeleteEntry(ListKind::EventRules) => "Failed to delete event rule: "@,
        CallPurpose::DeleteEntry(ListKind::CronWorkflows) => "Failed to delete cron workflow: "@,
    }
}

/// The list a deletion or a save changed, to be fetched again.
pub open spec fn refresh_of(k: ListKind) -> AppAction {
    match k {
        ListKind::Connections => AppAction::RefreshConnections,
        ListKind::Webhooks => AppAction::RefreshWebhooks,
        ListKind::EventRules => AppAction::RefreshEventRules,
        ListKind::CronWorkflows => AppAction::RefreshCronWorkflows,
    }
}

fn refresh_of_exec(k: ListKind) -> (a: AppAction)
    ensures
        a == refresh_of(k),
{
    match k {
        ListKind::Connections => AppAction::RefreshConnections,
        ListKind::Webhooks => AppAction::RefreshWebhooks,
        ListKind::EventRules => AppAction::RefreshEventRules,
        ListKind::CronWorkflows => AppAction::RefreshCronWorkflows,
    }
}

fn call_failure_exec(p: CallPurpose) -> (r: &'static str)
    ensures
        r@ == call_failure(p),
{
    match p {
        CallPurpose::ScheduleGit => "Failed to schedule workflow: ",
        CallPurpose::SaveEventRule => "Failed to save event rule: ",
        CallPurpose::SaveCronWorkflow => "Failed to save cron workflow: ",
        CallPurpose::ApproveStep => "Failed to approve step: ",
        CallPurpose::RejectStep => "Failed to reject step: ",
        CallPurpose::DeleteRun => "Failed to delete run: ",
        CallPurpose::DeleteEntry(ListKind::Connections) => "Failed to delete storage backend: ",
        CallPurpose::DeleteEntry(ListKind::Webhooks) => "Failed to delete webhook: ",
        CallPurpose::DeleteEntry(ListKind::EventRules) => "Failed to delete event rule: ",
        CallPurpose::DeleteEntry(ListKind::CronWorkflows) => "Failed to delete cron workflow: ",
    }
}

impl App {
    /// The server accepted a request: the Git scheduling, event rule and cron workflow
    /// dialogs close; an approval or rejection clears the error and closes the approval
    /// dialog; a deleted run is handled as `run_deleted` says; and the lists the request
    /// changed are fetched again.
    pub fn call_accepted(&mut self, p: CallPurpose) -> (acts: Vec<AppAction>)
        requires
            p == CallPurpose::DeleteRun ==> old(self).wf(),
        ensures
            p == CallPurpose::ScheduleGit ==> final(self).schedule_git_dialog == (FormDialog {
                active: false,
                ..old(self).schedule_git_dialog
            }) && *final(self) == (App { schedule_git_dialog: final(self).schedule_git_dialog, ..*old(self) })
                && acts@ == seq![AppAction::RefreshRuns],
            p == CallPurpose::SaveEventRule ==> final(self).event_rule_dialog == (FormDialog {
                active: false,
                ..old(self).event_rule_dialog
            }) && *final(self) == (App { event_rule_dialog: final(self).event_rule_dialog, ..*old(self) })
                && acts@ == seq![AppAction::RefreshEventRules],
            p == CallPurpose::SaveCronWorkflow ==> final(self).cron_dialog == (FormDialog {
                active: false,
                ..old(self).cron_dialog
            }) && *final(self) == (App { cron_dialog: final(self).cron_dialog, ..*old(self) })
                && acts@ == seq![AppAction::RefreshCronWorkflows],
            p == CallPurpose::ApproveStep || p == CallPurpose::RejectStep ==> *final(self) == (App {
                error: None,
                approval_dialog_active: false,
                ..*old(self)
            }) && acts@ == seq![AppAction::RefreshRuns],
            p == CallPurpose::DeleteRun ==> final(self).wf() && *final(self) == (App {
                error: None,
                runs_selected: match old(self).runs_selected {
                    Some(i) => Some(if i > 0 { (i - 1) as usize } else { 0 }),
                    None => None,
                },
                selected_run: None,
                selected_step_index: 0,
                run_logs: final(self).run_logs,
                ..*old(self)
            }) && final(self).run_logs@.len() == 0 && acts@ == seq![AppAction::RefreshRuns],
            p matches CallPurpose::DeleteEntry(k) ==> *final(self) == *old(self) && acts@ == seq![refresh_of(k)],
    {
        let mut acts: Vec<AppAction> = Vec::new();
        match p {
            CallPurpose::ScheduleGit => {
                self.schedule_git_dialog.active = false;
                acts.push(AppAction::RefreshRuns);
            },
            CallPurpose::SaveEventRule => {
                self.event_rule_dialog.active = false;
                acts.push(AppAction::RefreshEventRules);
            },
            CallPurpose::SaveCronWorkflow => {
                self.cron_dialog.active = false;
                acts.push(AppAction::RefreshCronWorkflows);
            },
            CallPurpose::ApproveStep | CallPurpose::RejectStep => {
                self.error = None;
                self.approval_dialog_active = false;
                acts.push(AppAction::RefreshRuns);
            },
            CallPurpose::DeleteRun => {
                self.run_deleted();
                acts.push(AppAction::RefreshRuns);
            },
            CallPurpose::DeleteEntry(k) => {
                acts.push(refresh_of_exec(k));
            },
        }
        acts
    }

    /// The server refused a request with this HTTP status: the error says so.
    pub fn call_refused(&mut self, p: CallPurpose, status: String)
        ensures
            *final(self) == (App { error: final(self).error, ..*old(self) }),
            opt_str_view(final(self).error) == Some(call_failure(p) + status@),
    {
        self.error = Some(concat_str(call_failure_exec(p), status.as_str()));
    }
}

} // verus!

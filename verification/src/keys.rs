//! What the keys of the main screen do: moving between panes and list entries, scrolling.
use vstd::prelude::*;
use crate::app::{
    App, AppAction, Pane, next_index, prev_index, run_moved, listing_moved, step_logs_refreshed,
};
use crate::filters::{Key, KeyPress};
use crate::run_events::act_seq;

verus! {

/// What a key on the main screen asks for.
#[derive(PartialEq, Eq, Structural, Clone, Copy, Debug)]
pub enum KeyCommand {
    Quit,
    /// The next entry of the focused list (or the next step of the shown run).
    NextItem,
    /// The previous entry of the focused list (or the previous step of the shown run).
    PreviousItem,
    /// Focus this pane.
    ShowPane(Pane),
    ScrollLeft,
    ScrollRight,
    ScrollUp,
    ScrollDown,
    /// Ten lines up.
    PageUp,
    /// Ten lines down.
    PageDown,
    OverviewUp,
    OverviewDown,
    /// Start or stop following new log lines.
    ToggleFollow,
    /// Not a navigation key: the caller handles it (dialogs, deletion, approvals).
    Other,
}

/// The pane after `p` in the Tab cycle.
pub open spec fn tab_next(p: Pane) -> Pane {
    match p {
        Pane::RunsList => Pane::RunDetail,
        Pane::RunDetail => Pane::TestResults,
        Pane::TestResults => Pane::ConnectionsList,
        Pane::ConnectionsList => Pane::ConnectionDetail,
        Pane::ConnectionDetail => Pane::WebhooksList,
        Pane::WebhooksList => Pane::WebhookDetail,
        Pane::WebhookDetail => Pane::EventRulesList,
        Pane::EventRulesList => Pane::EventRuleDetail,
        Pane::EventRuleDetail => Pane::CronWorkflowsList,
        Pane::CronWorkflowsList => Pane::CronWorkflowDetail,
        Pane::CronWorkflowDetail => Pane::RunsList,
    }
}

/// The list a detail pane belongs to (a list pane stays).
pub open spec fn pane_left(p: Pane) -> Pane {
    match p {
        Pane::RunDetail | Pane::TestResults => Pane::RunsList,
        Pane::ConnectionDetail => Pane::ConnectionsList,
        Pane::WebhookDetail => Pane::WebhooksList,
        Pane::EventRuleDetail => Pane::EventRulesList,
        Pane::CronWorkflowDetail => Pane::CronWorkflowsList,
        other => other,
    }
}

/// The detail pane of a list (other panes stay).
pub open spec fn pane_right(p: Pane) -> Pane {
    match p {
        Pane::RunsList => Pane::RunDetail,
        Pane::ConnectionsList => Pane::ConnectionDetail,
        Pane::WebhooksList => Pane::WebhookDetail,
        Pane::EventRulesList => Pane::EventRuleDetail,
        Pane::CronWorkflowsList => Pane::CronWorkflowDetail,
        other => other,
    }
}

/// `t` switches between the run details and the test results (from the run list, to the
/// test results).
pub open spec fn pane_tests(p: Pane) -> Pane {
    if p == Pane::TestResults {
        Pane::RunDetail
    } else if p == Pane::RunDetail || p == Pane::RunsList {
        Pane::TestResults
    } else {
        p
    }
}

/// What a key asks for with pane `p` focused.
pub open spec fn key_command(key: KeyPress, p: Pane) -> KeyCommand {
    match key.key {
        Key::Char(c) => if c == 'q' {
            KeyCommand::Quit
        } else if c == 'j' {
            KeyCommand::NextItem
        } else if c == 'k' {
            KeyCommand::PreviousItem
        } else if c == '1' {
            KeyCommand::ShowPane(Pane::RunsList)
        } else if c == '2' {
            KeyCommand::ShowPane(Pane::ConnectionsList)
        } else if c == '3' {
            KeyCommand::ShowPane(Pane::WebhooksList)
        } else if c == '4' {
            KeyCommand::ShowPane(Pane::EventRulesList)
        } else if c == '5' {
            KeyCommand::ShowPane(Pane::CronWorkflowsList)
        } else if c == 't' {
            KeyCommand::ShowPane(pane_tests(p))
        } else if c == 'h' {
            if key.shift { KeyCommand::ScrollLeft } else { KeyCommand::ShowPane(pane_left(p)) }
        } else if c == 'l' {
            if key.shift { KeyCommand::ScrollRight } else { KeyCommand::ShowPane(pane_right(p)) }
        } else if c == '<' {
            KeyCommand::ScrollLeft
        } else if c == '>' {
            KeyCommand::ScrollRight
        } else if c == '[' {
            KeyCommand::ScrollUp
        } else if c == ']' {
            KeyCommand::ScrollDown
        } else if c == '{' {
            KeyCommand::OverviewUp
        } else if c == '}' {
            KeyCommand::OverviewDown
        } else if c == 'a' {
            KeyCommand::ToggleFollow
        } else {
            KeyCommand::Other
        },
        Key::Down => KeyCommand::NextItem,
        Key::Up => KeyCommand::PreviousItem,
        Key::Tab => KeyCommand::ShowPane(tab_next(p)),
        Key::Left => if key.shift { KeyCommand::ScrollLeft } else { KeyCommand::ShowPane(pane_left(p)) },
        Key::Right => if key.shift { KeyCommand::ScrollRight } else { KeyCommand::ShowPane(pane_right(p)) },
        Key::PageUp => KeyCommand::PageUp,
        Key::PageDown => KeyCommand::PageDown,
        _ => KeyCommand::Other,
    }
}

pub fn tab_next_exec(p: Pane) -> (r: Pane)
    ensures
        r == tab_next(p),
{
    match p {
        Pane::RunsList => Pane::RunDetail,
        Pane::RunDetail => Pane::TestResults,
        Pane::TestResults => Pane::ConnectionsList,
        Pane::ConnectionsList => Pane::ConnectionDetail,
        Pane::ConnectionDetail => Pane::WebhooksList,
        Pane::WebhooksList => Pane::WebhookDetail,
        Pane::WebhookDetail => Pane::EventRulesList,
        Pane::EventRulesList => Pane::EventRuleDetail,
        Pane::EventRuleDetail => Pane::CronWorkflowsList,
        Pane::CronWorkflowsList => Pane::CronWorkflowDetail,
        Pane::CronWorkflowDetail => Pane::RunsList,
    }
}

fn pane_left_exec(p: Pane) -> (r: Pane)
    ensures
        r == pane_left(p),
{
    match p {
        Pane::RunDetail | Pane::TestResults => Pane::RunsList,
        Pane::ConnectionDetail => Pane::ConnectionsList,
        Pane::WebhookDetail => Pane::WebhooksList,
        Pane::EventRuleDetail => Pane::EventRulesList,
        Pane::CronWorkflowDetail => Pane::CronWorkflowsList,
        other => other,
    }
}

fn pane_right_exec(p: Pane) -> (r: Pane)
    ensures
        r == pane_right(p),
{
    match p {
        Pane::RunsList => Pane::RunDetail,
        Pane::ConnectionsList => Pane::ConnectionDetail,
        Pane::WebhooksList => Pane::WebhookDetail,
        Pane::EventRulesList => Pane::EventRuleDetail,
        Pane::CronWorkflowsList => Pane::CronWorkflowDetail,
        other => other,
    }
}

/// Reads a key as a command, with pane `p` focused.
pub fn command_of(key: KeyPress, p: Pane) -> (c: KeyCommand)
    ensures
        c == key_command(key, p),
{
    match key.key {
        Key::Char(c) => {
            if c == 'q' {
                KeyCommand::Quit
            } else if c == 'j' {
                KeyCommand::NextItem
            } else if c == 'k' {
                KeyCommand::PreviousItem
            } else if c == '1' {
                KeyCommand::ShowPane(Pane::RunsList)
            } else if c == '2' {
                KeyCommand::ShowPane(Pane::ConnectionsList)
            } else if c == '3' {
                KeyCommand::ShowPane(Pane::WebhooksList)
            } else if c == '4' {
                KeyCommand::ShowPane(Pane::EventRulesList)
            } else if c == '5' {
                KeyCommand::ShowPane(Pane::CronWorkflowsList)
            } else if c == 't' {
                let q = if p == Pane::TestResults {
                    Pane::RunDetail
                } else if p == Pane::RunDetail || p == Pane::RunsList {
                    Pane::TestResults
                } else {
                    p
                };
                KeyCommand::ShowPane(q)
            } else if c == 'h' {
                if key.shift { KeyCommand::ScrollLeft } else { KeyCommand::ShowPane(pane_left_exec(p)) }
            } else if c == 'l' {
                if key.shift { KeyCommand::ScrollRight } else { KeyCommand::ShowPane(pane_right_exec(p)) }
            } else if c == '<' {
                KeyCommand::ScrollLeft
            } else if c == '>' {
                KeyCommand::ScrollRight
            } else if c == '[' {
                KeyCommand::ScrollUp
            } else if c == ']' {
                KeyCommand::ScrollDown
            } else if c == '{' {
                KeyCommand::OverviewUp
            } else if c == '}' {
                KeyCommand::OverviewDown
            } else if c == 'a' {
                KeyCommand::ToggleFollow
            } else {
                KeyCommand::Other
            }
        },
        Key::Down => KeyCommand::NextItem,
        Key::Up => KeyCommand::PreviousItem,
        Key::Tab => KeyCommand::ShowPane(tab_next_exec(p)),
        Key::Left => if key.shift { KeyCommand::ScrollLeft } else { KeyCommand::ShowPane(pane_left_exec(p)) },
        Key::Right => if key.shift { KeyCommand::ScrollRight } else { KeyCommand::ShowPane(pane_right_exec(p)) },
        Key::PageUp => KeyCommand::PageUp,
        Key::PageDown => KeyCommand::PageDown,
        _ => KeyCommand::Other,
    }
}

/// What moving to the next (`forward`) or previous step of the shown run does.
pub open spec fn step_moved(old: App, new: App, acts: Seq<AppAction>, forward: bool) -> bool {
    match old.selected_run {
        Some(run) => if run.steps@.len() > 0 {
            let n = run.steps@.len() as int;
            let i = if forward {
                ((old.selected_step_index + 1) % n) as usize
            } else if old.selected_step_index == 0 {
                (n - 1) as usize
            } else {
                (old.selected_step_index - 1) as usize
            };
            exists|a: Option<AppAction>| step_logs_refreshed(App { selected_step_index: i, ..old }, new, true, a)
                && acts == act_seq(a)
        } else {
            new == old && acts.len() == 0
        },
        None => new == old && acts.len() == 0,
    }
}

/// What a command does to the UI: which list entry or step is selected, which pane is
/// focused, how the views are scrolled, and the work handed out.
pub open spec fn command_effect(old: App, new: App, acts: Seq<AppAction>, c: KeyCommand) -> bool {
    match c {
        KeyCommand::NextItem => match old.active_pane {
            Pane::RunsList => run_moved(old, new, acts, next_index(old.runs_selected, old.runs@.len())),
            Pane::ConnectionsList => new == (App { connections: new.connections, ..old }) && acts.len() == 0
                && listing_moved(old.connections, new.connections, next_index(old.connections.selected, old.connections.items@.len())),
            Pane::WebhooksList => new == (App { webhooks: new.webhooks, ..old }) && acts.len() == 0
                && listing_moved(old.webhooks, new.webhooks, next_index(old.webhooks.selected, old.webhooks.items@.len())),
            Pane::EventRulesList => new == (App { event_rules: new.event_rules, ..old }) && acts.len() == 0
                && listing_moved(old.event_rules, new.event_rules, next_index(old.event_rules.selected, old.event_rules.items@.len())),
            Pane::CronWorkflowsList => new == (App { cron_workflows: new.cron_workflows, ..old }) && acts.len() == 0
                && listing_moved(old.cron_workflows, new.cron_workflows, next_index(old.cron_workflows.selected, old.cron_workflows.items@.len())),
            _ => step_moved(old, new, acts, true),
        },
        KeyCommand::PreviousItem => match old.active_pane {
            Pane::RunsList => run_moved(old, new, acts, prev_index(old.runs_selected, old.runs@.len())),
            Pane::ConnectionsList => new == (App { connections: new.connections, ..old }) && acts.len() == 0
                && listing_moved(old.connections, new.connections, prev_index(old.connections.selected, old.connections.items@.len())),
            Pane::WebhooksList => new == (App { webhooks: new.webhooks, ..old }) && acts.len() == 0
                && listing_moved(old.webhooks, new.webhooks, prev_index(old.webhooks.selected, old.webhooks.items@.len())),
            Pane::EventRulesList => new == (App { event_rules: new.event_rules, ..old }) && acts.len() == 0
                && listing_moved(old.event_rules, new.event_rules, prev_index(old.event_rules.selected, old.event_rules.items@.len())),
            Pane::CronWorkflowsList => new == (App { cron_workflows: new.cron_workflows, ..old }) && acts.len() == 0
                && listing_moved(old.cron_workflows, new.cron_workflows, prev_index(old.cron_workflows.selected, old.cron_workflows.items@.len())),
            _ => step_moved(old, new, acts, false),
        },
        KeyCommand::ShowPane(p) => new == (App { active_pane: p, ..old }) && acts.len() == 0,
        KeyCommand::ScrollLeft => acts.len() == 0 && new == (App {
            log_scroll_x: if old.log_scroll_x > 0 { (old.log_scroll_x - 1) as usize } else { 0 },
            ..old
        }),
        KeyCommand::ScrollRight => acts.len() == 0 && new == (App { log_scroll_x: (old.log_scroll_x + 1) as usize, ..old }),
        KeyCommand::ScrollUp => acts.len() == 0 && new == (App {
            log_auto_scroll: false,
            log_scroll: if old.log_scroll > 0 { (old.log_scroll - 1) as usize } else { 0 },
            ..old
        }),
        KeyCommand::ScrollDown => acts.len() == 0 && new == (App { log_scroll: (old.log_scroll + 1) as usize, ..old }),
        KeyCommand::PageUp => acts.len() == 0 && new == (App {
            log_auto_scroll: false,
            log_scroll: if old.log_scroll > 10 { (old.log_scroll - 10) as usize } else { 0 },
            ..old
        }),
        KeyCommand::PageDown => acts.len() == 0 && new == (App { log_scroll: (old.log_scroll + 10) as usize, ..old }),
        KeyCommand::OverviewUp => acts.len() == 0 && new == (App {
            overview_scroll: if old.overview_scroll > 0 { (old.overview_scroll - 1) as usize } else { 0 },
            ..old
        }),
        KeyCommand::OverviewDown => acts.len() == 0 && new == (App { overview_scroll: (old.overview_scroll + 1) as usize, ..old }),
        KeyCommand::ToggleFollow => acts.len() == 0 && new == (App { log_auto_scroll: !old.log_auto_scroll, ..old }),
        KeyCommand::Quit | KeyCommand::Other => new == old && acts.len() == 0,
    }
}

/// Room left for scrolling down or right by a command.
pub open spec fn scroll_room(a: App, c: KeyCommand) -> bool {
    &&& c == KeyCommand::ScrollRight ==> a.log_scroll_x < usize::MAX
    &&& c == KeyCommand::ScrollDown ==> a.log_scroll < usize::MAX
    &&& c == KeyCommand::PageDown ==> a.log_scroll + 10 <= usize::MAX
    &&& c == KeyCommand::OverviewDown ==> a.overview_scroll < usize::MAX
}

/// Whether `handle_default_key` may be called with `key`: every selection lies inside its
/// list, and the scroll position that the key moves has room to move.
pub fn key_command_allowed(app: &App, key: KeyPress) -> (r: bool)
    ensures
        r == (app.wf() && scroll_room(*app, key_command(key, app.active_pane))),
{
    let fits = app.selections_fit();
    let room = match command_of(key, app.active_pane) {
        KeyCommand::ScrollRight => app.log_scroll_x < usize::MAX,
        KeyCommand::ScrollDown => app.log_scroll < usize::MAX,
        KeyCommand::PageDown => app.log_scroll <= usize::MAX - 10,
        KeyCommand::OverviewDown => app.overview_scroll < usize::MAX,
        _ => true,
    };
    fits && room
}

impl App {
    /// A key on the main screen: it is read as a command for the focused pane and carried
    /// out. `Quit` and `Other` change nothing; the caller quits or handles the key.
    pub fn handle_default_key(&mut self, key: KeyPress) -> (r: (KeyCommand, Vec<AppAction>))
        requires
            old(self).wf(),
            scroll_room(*old(self), key_command(key, old(self).active_pane)),
        ensures
            final(self).wf(),
            r.0 == key_command(key, old(self).active_pane),
            command_effect(*old(self), *final(self), r.1@, r.0),
    {
        let c = command_of(key, self.active_pane);
        let acts = self.apply_command(c);
        (c, acts)
    }

    /// Carries out a command, as `command_effect` says.
    pub fn apply_command(&mut self, c: KeyCommand) -> (acts: Vec<AppAction>)
        requires
            old(self).wf(),
            scroll_room(*old(self), c),
        ensures
            final(self).wf(),
            command_effect(*old(self), *final(self), acts@, c),
    {
        let mut acts: Vec<AppAction> = Vec::new();
        match c {
            KeyCommand::NextItem => {
                match self.active_pane {
                    Pane::RunsList => {
                        acts = self.next_run();
                    },
                    Pane::ConnectionsList => self.next_connection(),
                    Pane::WebhooksList => self.next_webhook(),
                    Pane::EventRulesList => self.next_event_rule(),
                    Pane::CronWorkflowsList => self.next_cron_workflow(),
                    _ => {
                        let a = self.next_step();
                        match a {
                            Some(x) => acts.push(x),
                            None => {},
                        }
                        assert(acts@ =~= act_seq(a));
                    },
                }
            },
            KeyCommand::PreviousItem => {
                match self.active_pane {
                    Pane::RunsList => {
                        acts = self.previous_run();
                    },
                    Pane::ConnectionsList => self.previous_connection(),
                    Pane::WebhooksList => self.previous_webhook(),
                    Pane::EventRulesList => self.previous_event_rule(),
                    Pane::CronWorkflowsList => self.previous_cron_workflow(),
                    _ => {
                        let a = self.previous_step();
                        match a {
                            Some(x) => acts.push(x),
                            None => {},
                        }
                        assert(acts@ =~= act_seq(a));
                    },
                }
            },
            KeyCommand::ShowPane(p) => {
                self.active_pane = p;
            },
            KeyCommand::ScrollLeft => self.scroll_logs_left(),
            KeyCommand::ScrollRight => self.scroll_logs_right(),
            KeyCommand::ScrollUp => self.scroll_logs_up(),
            KeyCommand::ScrollDown => self.scroll_logs_down(),
            KeyCommand::PageUp => {
                let mut k: usize = 0;
                let ghost start = *self;
                while k < 10
                    invariant
                        k <= 10,
                        k > 0 ==> *self == (App {
                            log_auto_scroll: false,
                            log_scroll: if start.log_scroll > k { (start.log_scroll - k) as usize } else { 0 },
                            ..start
                        }),
                        k == 0 ==> *self == start,
                    decreases 10 - k,
                {
                    self.scroll_logs_up();
                    k = k + 1;
                }
            },
            KeyCommand::PageDown => {
                let mut k: usize = 0;
                let ghost start = *self;
                while k < 10
                    invariant
                        k <= 10,
                        start.log_scroll + 10 <= usize::MAX,
                        *self == (App { log_scroll: (start.log_scroll + k) as usize, ..start }),
                    decreases 10 - k,
                {
                    self.scroll_logs_down();
                    k = k + 1;
                }
            },
            KeyCommand::OverviewUp => self.scroll_overview_up(),
            KeyCommand::OverviewDown => self.scroll_overview_down(),
            KeyCommand::ToggleFollow => {
                self.log_auto_scroll = !self.log_auto_scroll;
            },
            KeyCommand::Quit | KeyCommand::Other => {},
        }
        acts
    }
}

/// Tab goes round all eleven panes and back to the first.
pub proof fn lemma_tab_cycle(p: Pane)
    ensures
        tab_next(tab_next(tab_next(tab_next(tab_next(tab_next(tab_next(tab_next(tab_next(tab_next(tab_next(p))))))))))) == p,
        tab_next(p) != p,
{
}

/// From a list pane, moving right to its details and left again comes back to the list.
pub proof fn lemma_left_after_right(p: Pane)
    requires
        p == Pane::RunsList || p == Pane::ConnectionsList || p == Pane::WebhooksList
            || p == Pane::EventRulesList || p == Pane::CronWorkflowsList,
    ensures
        pane_right(p) != p,
        pane_left(pane_right(p)) == p,
{
}

/// `t` twice from the run details or the test results comes back.
pub proof fn lemma_tests_toggle(p: Pane)
    requires
        p == Pane::RunDetail || p == Pane::TestResults,
    ensures
        pane_tests(pane_tests(p)) == p,
{
}

} // verus!

//! How the terminal UI takes in what the server reports about runs, steps and logs.
use vstd::prelude::*;
use crate::app::{
    App, AppAction, RunStatus, WorkflowRunDetail, WorkflowRunFullDetail, StepDetail,
    run_status_spec,
};
use crate::json::{json_status, json_status_text};
use crate::app::{StepView, FullRunView, RunView, steps_view, step_logs_refreshed};
use crate::text::{owned, trim_char, trim_char_exec, trim_end, trim_end_exec, chars_of, string_from_chars, is_ws};
use crate::containers::{remove_char, remove_char_exec};
use crate::k8s_model::{strs_view, opt_str_view, clone_strings, clone_opt_string};

verus! {

/// The first position of a run with `id` in `runs` at or after `i`.
pub open spec fn find_run_from(runs: Seq<WorkflowRunDetail>, id: u128, i: int) -> Option<int>
    decreases runs.len() - i,
{
    if i < 0 || i >= runs.len() {
        None
    } else if runs[i].id == id {
        Some(i)
    } else {
        find_run_from(runs, id, i + 1)
    }
}

/// What a found position is: the first run with the id.
pub proof fn lemma_find_run_from(runs: Seq<WorkflowRunDetail>, id: u128, i: int)
    requires
        0 <= i,
    ensures
        match find_run_from(runs, id, i) {
            Some(p) => i <= p < runs.len() && runs[p].id == id
                && forall|j: int| i <= j < p ==> runs[j].id != id,
            None => forall|j: int| i <= j < runs.len() ==> runs[j].id != id,
        },
    decreases runs.len() - i,
{
    if i < runs.len() && runs[i].id != id {
        lemma_find_run_from(runs, id, i + 1);
    }
}

/// The first position of a run with `id` in `runs`.
pub open spec fn find_run(runs: Seq<WorkflowRunDetail>, id: u128) -> Option<int> {
    find_run_from(runs, id, 0)
}

/// Finds the first run with `id`.
pub fn position_of_run(runs: &Vec<WorkflowRunDetail>, id: u128) -> (r: Option<usize>)
    ensures
        match r {
            Some(p) => find_run(runs@, id) == Some(p as int) && p < runs@.len(),
            None => find_run(runs@, id) is None,
        },
{
    let mut i: usize = 0;
    while i < runs.len()
        invariant
            i <= runs@.len(),
            find_run(runs@, id) == find_run_from(runs@, id, i as int),
        decreases runs@.len() - i,
    {
        if runs[i].id == id {
            return Some(i);
        }
        i = i + 1;
    }
    None
}

/// Whether a finished run with `id` is cached.
pub open spec fn cached(cache: Seq<WorkflowRunFullDetail>, id: u128) -> bool {
    exists|j: int| 0 <= j < cache.len() && #[trigger] cache[j].detail.id == id
}

pub fn is_cached(cache: &Vec<WorkflowRunFullDetail>, id: u128) -> (r: bool)
    ensures
        r == cached(cache@, id),
{
    let mut i: usize = 0;
    while i < cache.len()
        invariant
            i <= cache@.len(),
            forall|j: int| 0 <= j < i ==> #[trigger] cache@[j].detail.id != id,
        decreases cache@.len() - i,
    {
        if cache[i].detail.id == id {
            assert(cache@[i as int].detail.id == id);
            return true;
        }
        i = i + 1;
    }
    false
}

/// The status text inside a status event: what serde_json finds in it (or the event itself),
/// without surrounding quotes.
pub open spec fn event_status_text(event: Seq<char>) -> Seq<char> {
    trim_char(
        match json_status_text(event) {
            Some(t) => t,
            None => event,
        },
        '"',
    )
}

/// A status that is not terminal is replaced; a terminal one stays.
pub open spec fn updated_status(current: RunStatus, reported: RunStatus) -> RunStatus {
    if current.is_terminal_spec() { current } else { reported }
}

/// The run list after a status report: the first run with `id` takes the reported status
/// unless it is finished.
pub open spec fn runs_after_status(runs: Seq<WorkflowRunDetail>, id: u128, s: RunStatus) -> Seq<WorkflowRunDetail> {
    match find_run(runs, id) {
        Some(p) => runs.update(p, WorkflowRunDetail { status: updated_status(runs[p].status, s), ..runs[p] }),
        None => runs,
    }
}

/// The shown run after a status report for `id`.
pub open spec fn selected_after_status(sel: Option<WorkflowRunFullDetail>, id: u128, s: RunStatus) -> Option<WorkflowRunFullDetail> {
    match sel {
        Some(r) => if r.detail.id == id {
            Some(WorkflowRunFullDetail {
                detail: WorkflowRunDetail { status: updated_status(r.detail.status, s), ..r.detail },
                ..r
            })
        } else {
            sel
        },
        None => None,
    }
}

/// Whether a status event asks for the run to be read again.
pub open spec fn is_refresh_request(status: Seq<char>) -> bool {
    status == "refresh"@ || status == "force_refresh"@
}

impl App {
    /// Applies a reported status text to the run `run_id` in the list and to the shown run;
    /// a finished run keeps its status.
    pub fn apply_status_text(&mut self, run_id: u128, text: &String)
        requires
            old(self).wf(),
        ensures
            final(self).wf(),
            *final(self) == (App {
                runs: final(self).runs,
                selected_run: final(self).selected_run,
                ..*old(self)
            }),
            final(self).runs@ == runs_after_status(old(self).runs@, run_id, run_status_spec(text@)),
            final(self).selected_run == selected_after_status(old(self).selected_run, run_id, run_status_spec(text@)),
    {
        let s = RunStatus::from_text(text);
        let pos = position_of_run(&self.runs, run_id);
        proof {
            lemma_find_run_from(self.runs@, run_id, 0);
        }
        match pos {
            Some(p) => {
                let ghost old_runs = self.runs@;
                if !self.runs[p].status.is_terminal() {
                    self.runs[p].status = s;
                    assert(self.runs@[p as int] == (WorkflowRunDetail { status: s, ..old_runs[p as int] }));
                    assert(self.runs@ =~= runs_after_status(old_runs, run_id, s));
                } else {
                    assert(old_runs[p as int] == (WorkflowRunDetail {
                        status: updated_status(old_runs[p as int].status, s),
                        ..old_runs[p as int]
                    }));
                    assert(self.runs@ =~= runs_after_status(old_runs, run_id, s));
                }
            },
            None => {},
        }
        match &mut self.selected_run {
            Some(r) => {
                if r.detail.id == run_id && !r.detail.status.is_terminal() {
                    r.detail.status = s;
                }
            },
            None => {},
        }
    }

    /// Takes in a status event for a run. `refresh` and `force_refresh` ask for the run to
    /// be read again: a cached finished run is delivered from the cache, and a `refresh`
    /// less than two seconds after the last read is dropped. Any other event carries a
    /// status, which is applied as `apply_status_text` says. `now_ms` is the current time.
    pub fn handle_status_update(&mut self, run_id: u128, status: String, now_ms: i64) -> (acts: Vec<AppAction>)
        requires
            old(self).wf(),
        ensures
            final(self).wf(),
            is_refresh_request(status@) ==> {
                if cached(old(self).cached_runs@, run_id) {
                    *final(self) == *old(self) && acts@ == seq![AppAction::DeliverCached { id: run_id }]
                } else if status@ == "refresh"@ && old(self).last_refresh_ms is Some
                    && now_ms - old(self).last_refresh_ms->0 < 2000 {
                    *final(self) == *old(self) && acts@.len() == 0
                } else {
                    *final(self) == (App { last_refresh_ms: Some(now_ms), ..*old(self) })
                        && acts@ == seq![AppAction::FetchRun { id: run_id }]
                }
            },
            !is_refresh_request(status@) ==> {
                let s = run_status_spec(event_status_text(status@));
                &&& acts@.len() == 0
                &&& *final(self) == (App {
                    runs: final(self).runs,
                    selected_run: final(self).selected_run,
                    ..*old(self)
                })
                &&& final(self).runs@ == runs_after_status(old(self).runs@, run_id, s)
                &&& final(self).selected_run == selected_after_status(old(self).selected_run, run_id, s)
            },
    {
        let mut acts: Vec<AppAction> = Vec::new();
        let is_refresh = status == owned("refresh");
        let is_force = status == owned("force_refresh");
        if is_refresh || is_force {
            if is_cached(&self.cached_runs, run_id) {
                acts.push(AppAction::DeliverCached { id: run_id });
                return acts;
            }
            if is_refresh {
                match self.last_refresh_ms {
                    Some(last) => {
                        if (now_ms as i128) - (last as i128) < 2000 {
                            return acts;
                        }
                    },
                    None => {},
                }
            }
            self.last_refresh_ms = Some(now_ms);
            acts.push(AppAction::FetchRun { id: run_id });
            return acts;
        }
        let found = json_status(status.as_str());
        let raw = match found {
            Some(t) => t,
            None => status,
        };
        let text = trim_char_exec(raw.as_str(), '"');
        self.apply_status_text(run_id, &text);
        acts
    }
}

/// The first step at or after `i` named `name`.
pub open spec fn find_step_from(steps: Seq<StepView>, name: Seq<char>, i: int) -> Option<int>
    decreases steps.len() - i,
{
    if i < 0 || i >= steps.len() {
        None
    } else if steps[i].name == Some(name) {
        Some(i)
    } else {
        find_step_from(steps, name, i + 1)
    }
}

pub proof fn lemma_find_step_from(steps: Seq<StepView>, name: Seq<char>, i: int)
    requires
        0 <= i,
    ensures
        match find_step_from(steps, name, i) {
            Some(p) => i <= p < steps.len() && steps[p].name == Some(name),
            None => true,
        },
    decreases steps.len() - i,
{
    if i < steps.len() && steps[i].name != Some(name) {
        lemma_find_step_from(steps, name, i + 1);
    }
}

/// A step status that should not fall back to an earlier one.
pub open spec fn is_progressed(s: Seq<char>) -> bool {
    s == "running"@ || s == "succeeded"@ || s == "failed"@
}

/// A step status from before the step ran.
pub open spec fn is_early(s: Seq<char>) -> bool {
    s == "unpacking_sfs"@ || s == "pending"@
}

/// A freshly read step, with what the shown copy of the same step (by name) knew: its logs
/// when the fresh step has none, and its status when the fresh one would move it back.
pub open spec fn merge_step(new: StepView, old_steps: Seq<StepView>) -> StepView {
    match new.name {
        None => new,
        Some(n) => match find_step_from(old_steps, n, 0) {
            None => new,
            Some(k) => {
                let o = old_steps[k];
                StepView {
                    logs: if new.logs.len() == 0 && o.logs.len() > 0 { o.logs } else { new.logs },
                    status: match (o.status, new.status) {
                        (Some(os), Some(ns)) => if is_progressed(os) && is_early(ns) { Some(os) } else { new.status },
                        _ => new.status,
                    },
                    ..new
                }
            },
        },
    }
}

/// A log line without carriage returns and trailing whitespace.
pub open spec fn clean_log(l: Seq<char>) -> Seq<char> {
    trim_end(remove_char(l, '\r'))
}

/// A step with its log lines cleaned.
pub open spec fn clean_step(st: StepView) -> StepView {
    StepView { logs: st.logs.map_values(|l: Seq<char>| clean_log(l)), ..st }
}

/// A freshly read run as the UI keeps it when it replaces the shown copy `old` of the same
/// run: a finished status stays, steps are merged, logs are cleaned.
pub open spec fn merged_run(new: FullRunView, old: Option<FullRunView>) -> FullRunView {
    let merged = match old {
        Some(o) => if o.detail.id == new.detail.id {
            FullRunView {
                detail: RunView {
                    status: if o.detail.status.is_terminal_spec() { o.detail.status } else { new.detail.status },
                    ..new.detail
                },
                steps: new.steps.map_values(|st: StepView| merge_step(st, o.steps)),
                ..new
            }
        } else {
            new
        },
        None => new,
    };
    FullRunView { steps: merged.steps.map_values(|st: StepView| clean_step(st)), ..merged }
}

pub open spec fn runs_view(v: Seq<WorkflowRunFullDetail>) -> Seq<FullRunView> {
    v.map_values(|r: WorkflowRunFullDetail| r@)
}

/// The first cached run at or after `i` with `id`.
pub open spec fn find_cached_from(cache: Seq<FullRunView>, id: u128, i: int) -> Option<int>
    decreases cache.len() - i,
{
    if i < 0 || i >= cache.len() {
        None
    } else if cache[i].detail.id == id {
        Some(i)
    } else {
        find_cached_from(cache, id, i + 1)
    }
}

/// The cache with `r` stored under its id: it replaces the run with that id, or is added.
pub open spec fn cache_insert(cache: Seq<FullRunView>, r: FullRunView) -> Seq<FullRunView> {
    match find_cached_from(cache, r.detail.id, 0) {
        Some(k) => cache.update(k, r),
        None => cache.push(r),
    }
}

/// The step index kept inside a list of `n` steps.
pub open spec fn clamped_step_index(i: usize, n: nat) -> usize {
    if i >= n {
        if n == 0 { 0 } else { (n - 1) as usize }
    } else {
        i
    }
}

/// Copies the steps' logs, cleaned.
fn clean_logs(logs: &Vec<String>) -> (r: Vec<String>)
    ensures
        strs_view(r@) == strs_view(logs@).map_values(|l: Seq<char>| clean_log(l)),
{
    let mut r: Vec<String> = Vec::new();
    let mut i: usize = 0;
    while i < logs.len()
        invariant
            i <= logs@.len(),
            r@.len() == i,
            forall|j: int| 0 <= j < i ==> #[trigger] r@[j]@ == clean_log(logs@[j]@),
        decreases logs@.len() - i,
    {
        let cs = chars_of(logs[i].as_str());
        let no_cr = remove_char_exec(&cs, 0, '\r');
        assert(cs@.skip(0) =~= cs@);
        let t = string_from_chars(&no_cr);
        let cleaned = trim_end_exec(t.as_str());
        r.push(cleaned);
        i = i + 1;
    }
    assert(strs_view(r@) =~= strs_view(logs@).map_values(|l: Seq<char>| clean_log(l)));
    r
}

/// Finds the first step named `name`.
fn position_of_step(steps: &Vec<StepDetail>, name: &String) -> (r: Option<usize>)
    ensures
        match r {
            Some(p) => find_step_from(steps_view(steps@), name@, 0) == Some(p as int) && p < steps@.len(),
            None => find_step_from(steps_view(steps@), name@, 0) is None,
        },
{
    let ghost sv = steps_view(steps@);
    let mut i: usize = 0;
    while i < steps.len()
        invariant
            i <= steps@.len(),
            sv == steps_view(steps@),
            find_step_from(sv, name@, 0) == find_step_from(sv, name@, i as int),
        decreases steps@.len() - i,
    {
        let same = match &steps[i].name {
            Some(n) => *n == *name,
            None => false,
        };
        assert(sv[i as int] == steps@[i as int]@);
        if same {
            return Some(i);
        }
        i = i + 1;
    }
    None
}

/// Merges a freshly read step with the shown steps, as `merge_step` says.
fn merge_step_exec(step: &mut StepDetail, old_steps: &Vec<StepDetail>)
    ensures
        final(step)@ == merge_step(old(step)@, steps_view(old_steps@)),
{
    let pos = match &step.name {
        Some(n) => position_of_step(old_steps, n),
        None => None,
    };
    match pos {
        None => {},
        Some(k) => {
            let o = &old_steps[k];
            proof {
                lemma_find_step_from(steps_view(old_steps@), step.name->0@, 0);
            }
            if step.logs.len() == 0 && o.logs.len() > 0 {
                step.logs = clone_strings(&o.logs);
            }
            let regress = match (&o.status, &step.status) {
                (Some(os), Some(ns)) => {
                    (*os == owned("running") || *os == owned("succeeded") || *os == owned("failed"))
                        && (*ns == owned("unpacking_sfs") || *ns == owned("pending"))
                },
                _ => false,
            };
            if regress {
                step.status = clone_opt_string(&o.status);
            }
        },
    }
}

/// Stores a finished run in the cache under its id.
fn cache_store(cache: &mut Vec<WorkflowRunFullDetail>, r: WorkflowRunFullDetail)
    ensures
        runs_view(final(cache)@) == cache_insert(runs_view(old(cache)@), r@),
{
    let ghost cv = runs_view(cache@);
    let mut i: usize = 0;
    while i < cache.len()
        invariant
            i <= cache@.len(),
            cv == runs_view(cache@),
            cache@ == old(cache)@,
            find_cached_from(cv, r.detail.id, 0) == find_cached_from(cv, r.detail.id, i as int),
        decreases cache@.len() - i,
    {
        assert(cv[i as int] == cache@[i as int]@);
        if cache[i].detail.id == r.detail.id {
            assert(find_cached_from(cv, r.detail.id, i as int) == Some(i as int));
            let ghost rv = r@;
            cache.set(i, r);
            assert(runs_view(cache@) =~= cv.update(i as int, rv));
            return;
        }
        i = i + 1;
    }
    let ghost rv = r@;
    cache.push(r);
    assert(runs_view(cache@) =~= cv.push(rv));
}

/// Merges every freshly read step with the shown steps.
fn merge_steps(steps: &mut Vec<StepDetail>, old_steps: &Vec<StepDetail>)
    ensures
        steps_view(final(steps)@) == steps_view(old(steps)@).map_values(|st: StepView| merge_step(st, steps_view(old_steps@))),
{
    let ghost orig = steps_view(steps@);
    let mut i: usize = 0;
    while i < steps.len()
        invariant
            i <= steps@.len(),
            orig.len() == steps@.len(),
            forall|j: int| 0 <= j < i ==> #[trigger] steps@[j]@ == merge_step(orig[j], steps_view(old_steps@)),
            forall|j: int| i <= j < steps@.len() ==> #[trigger] steps@[j]@ == orig[j],
        decreases steps@.len() - i,
    {
        merge_step_exec(&mut steps[i], old_steps);
        i = i + 1;
    }
    assert(steps_view(steps@) =~= orig.map_values(|st: StepView| merge_step(st, steps_view(old_steps@))));
}

/// Cleans the logs of every step.
fn clean_steps(steps: &mut Vec<StepDetail>)
    ensures
        steps_view(final(steps)@) == steps_view(old(steps)@).map_values(|st: StepView| clean_step(st)),
{
    let ghost orig = steps_view(steps@);
    let mut i: usize = 0;
    while i < steps.len()
        invariant
            i <= steps@.len(),
            orig.len() == steps@.len(),
            forall|j: int| 0 <= j < i ==> #[trigger] steps@[j]@ == clean_step(orig[j]),
            forall|j: int| i <= j < steps@.len() ==> #[trigger] steps@[j]@ == orig[j],
        decreases steps@.len() - i,
    {
        let cleaned = clean_logs(&steps[i].logs);
        let ghost before = steps@[i as int]@;
        steps[i].logs = cleaned;
        assert(steps@[i as int]@.logs =~= before.logs.map_values(|l: Seq<char>| clean_log(l)));
        assert(steps@[i as int]@ == clean_step(orig[i as int]));
        i = i + 1;
    }
    assert(steps_view(steps@) =~= orig.map_values(|st: StepView| clean_step(st)));
}

/// The id of the selected run of the list.
pub open spec fn selected_run_id(app: App) -> Option<u128> {
    match app.runs_selected {
        Some(i) => Some(app.runs@[i as int].id),
        None => None,
    }
}

/// What taking in a freshly read run `full` does to the app `a`, giving `b` and `act`.
pub open spec fn full_run_updated(a: App, b: App, full: WorkflowRunFullDetail, act: Option<AppAction>) -> bool {
    &&& selected_run_id(a) != Some(full.detail.id) ==> b == a && act is None
    &&& selected_run_id(a) == Some(full.detail.id) ==> {
        let kept = merged_run(full@, match a.selected_run { Some(o) => Some(o@), None => None });
        &&& b.selected_run is Some
        &&& b.selected_run->0@ == kept
        &&& runs_view(b.cached_runs@) == if kept.detail.status.is_terminal_spec() {
            cache_insert(runs_view(a.cached_runs@), kept)
        } else {
            runs_view(a.cached_runs@)
        }
        &&& step_logs_refreshed(
            App {
                selected_run: b.selected_run,
                cached_runs: b.cached_runs,
                selected_step_index: clamped_step_index(a.selected_step_index, kept.steps.len()),
                ..a
            },
            b,
            false,
            act,
        )
    }
}

impl App {
    /// Takes in a freshly read run. Only the run selected in the list is taken: it becomes
    /// the shown run as `merged_run` says, is cached once finished, the selected step is
    /// kept inside its steps, and that step's logs are shown.
    pub fn handle_full_run_update(&mut self, full: WorkflowRunFullDetail) -> (act: Option<AppAction>)
        requires
            old(self).wf(),
        ensures
            final(self).wf(),
            full_run_updated(*old(self), *final(self), full, act),
    {
        let current = match self.runs_selected {
            Some(i) => Some(self.runs[i].id),
            None => None,
        };
        let same = match current {
            Some(c) => c == full.detail.id,
            None => false,
        };
        if !same {
            return None;
        }
        let mut full = full;
        let ghost fresh = full@;
        match &self.selected_run {
            Some(o) => {
                if o.detail.id == full.detail.id {
                    if o.detail.status.is_terminal() {
                        full.detail.status = o.detail.status;
                    }
                    merge_steps(&mut full.steps, &o.steps);
                }
            },
            None => {},
        }
        clean_steps(&mut full.steps);
        let ghost oldv = match old(self).selected_run { Some(o) => Some(o@), None => None };
        assert(full@ =~= merged_run(fresh, oldv));
        if full.detail.status.is_terminal() {
            let copy = full.duplicate();
            cache_store(&mut self.cached_runs, copy);
        }
        let n = full.steps.len();
        self.selected_run = Some(full);
        if self.selected_step_index >= n {
            self.selected_step_index = if n == 0 { 0 } else { n - 1 };
        }
        self.refresh_step_logs(false)
    }
}

/// A step that a status report for `name` updates: one with that name whose instance is
/// a JSON object.
pub open spec fn is_step_target(st: StepView, name: Seq<char>) -> bool {
    st.name == Some(name) && st.is_object
}

/// The last step that a status report for `name` updates.
pub open spec fn last_step_target(steps: Seq<StepView>, name: Seq<char>) -> Option<int>
    decreases steps.len(),
{
    if steps.len() == 0 {
        None
    } else if is_step_target(steps.last(), name) {
        Some(steps.len() - 1)
    } else {
        last_step_target(steps.drop_last(), name)
    }
}

/// The steps after a status report: every step named `name` that is an object takes it.
pub open spec fn steps_with_status(steps: Seq<StepView>, name: Seq<char>, status: Seq<char>) -> Seq<StepView> {
    steps.map_values(|st: StepView| if is_step_target(st, name) { StepView { status: Some(status), ..st } } else { st })
}

/// A step status after which the step does not change any more.
pub open spec fn is_step_final(s: Seq<char>) -> bool {
    s == "succeeded"@ || s == "failed"@ || s == "aborted"@ || s == "skipped"@
}

/// The action as a sequence of none or one.
pub open spec fn act_seq(a: Option<AppAction>) -> Seq<AppAction> {
    match a {
        Some(x) => seq![x],
        None => Seq::empty(),
    }
}

/// Whether the texts of `v` include `s`.
pub fn contains_text(v: &Vec<String>, s: &String) -> (r: bool)
    ensures
        r == strs_view(v@).contains(s@),
{
    let mut i: usize = 0;
    while i < v.len()
        invariant
            i <= v@.len(),
            forall|j: int| 0 <= j < i ==> v@[j]@ != s@,
        decreases v@.len() - i,
    {
        if v[i] == *s {
            assert(strs_view(v@)[i as int] == s@);
            return true;
        }
        i = i + 1;
    }
    assert forall|j: int| 0 <= j < strs_view(v@).len() implies strs_view(v@)[j] != s@ by {
        assert(strs_view(v@)[j] == v@[j]@);
    }
    false
}

/// Fetched logs followed by the shown lines they lack, in order, each added once.
pub open spec fn merge_logs(fetched: Seq<Seq<char>>, live: Seq<Seq<char>>) -> Seq<Seq<char>>
    decreases live.len(),
{
    if live.len() == 0 {
        fetched
    } else {
        let m = merge_logs(fetched, live.drop_last());
        if m.contains(live.last()) { m } else { m.push(live.last()) }
    }
}

/// The prefix that marks a log line of step `name`: `[name]`.
pub open spec fn step_prefix(name: Seq<char>) -> Seq<char> {
    seq!['['] + name + seq![']']
}

/// A log line without its step prefix and one following space.
pub open spec fn line_text(line: Seq<char>, name: Seq<char>) -> Seq<char> {
    let rest = line.skip(step_prefix(name).len() as int);
    if rest.len() > 0 && rest[0] == ' ' { rest.drop_first() } else { rest }
}

/// The first step (at or after `i`) whose prefix starts `line`.
pub open spec fn step_of_line_from(steps: Seq<StepView>, line: Seq<char>, i: int) -> Option<int>
    decreases steps.len() - i,
{
    if i < 0 || i >= steps.len() {
        None
    } else if steps[i].name is Some && step_prefix(steps[i].name->0).is_prefix_of(line) {
        Some(i)
    } else {
        step_of_line_from(steps, line, i + 1)
    }
}

pub proof fn lemma_step_of_line_from(steps: Seq<StepView>, line: Seq<char>, i: int)
    requires
        0 <= i,
    ensures
        match step_of_line_from(steps, line, i) {
            Some(p) => i <= p < steps.len() && steps[p].name is Some
                && step_prefix(steps[p].name->0).is_prefix_of(line),
            None => true,
        },
    decreases steps.len() - i,
{
    if i < steps.len() && !(steps[i].name is Some && step_prefix(steps[i].name->0).is_prefix_of(line)) {
        lemma_step_of_line_from(steps, line, i + 1);
    }
}

/// The shown run, when it is the run `id`.
pub open spec fn shown_run(app: App, id: u128) -> Option<WorkflowRunFullDetail> {
    match app.selected_run {
        Some(r) => if r.detail.id == id { Some(r) } else { None },
        None => None,
    }
}

pub open spec fn run_views(v: Seq<WorkflowRunDetail>) -> Seq<RunView> {
    v.map_values(|r: WorkflowRunDetail| r@)
}

impl App {
    /// Takes in a step status: every step of the shown run `run_id` with that name (and an
    /// object instance) takes it. When one did, the logs are shown again if the last such
    /// step is the selected one, and the run is read again (at once when the status is
    /// final).
    pub fn handle_step_update(&mut self, run_id: u128, step_name: String, status: String) -> (acts: Vec<AppAction>)
        requires
            old(self).wf(),
        ensures
            final(self).wf(),
            shown_run(*old(self), run_id) is None ==> *final(self) == *old(self) && acts@.len() == 0,
            shown_run(*old(self), run_id) is Some ==> {
                let r = shown_run(*old(self), run_id)->0@;
                &&& final(self).selected_run is Some
                &&& final(self).selected_run->0@ == (FullRunView {
                    steps: steps_with_status(r.steps, step_name@, status@),
                    ..r
                })
                &&& last_step_target(r.steps, step_name@) is None ==> {
                    &&& *final(self) == (App { selected_run: final(self).selected_run, ..*old(self) })
                    &&& acts@.len() == 0
                }
                &&& last_step_target(r.steps, step_name@) is Some
                    && last_step_target(r.steps, step_name@) != Some(old(self).selected_step_index as int) ==> {
                    &&& *final(self) == (App { selected_run: final(self).selected_run, ..*old(self) })
                    &&& acts@ == seq![AppAction::RefreshRun { id: run_id, force: is_step_final(status@) }]
                }
                &&& last_step_target(r.steps, step_name@) == Some(old(self).selected_step_index as int) ==> {
                    exists|a: Option<AppAction>| {
                        &&& step_logs_refreshed(
                            App { selected_run: final(self).selected_run, ..*old(self) },
                            *final(self),
                            false,
                            a,
                        )
                        &&& acts@ == act_seq(a).push(AppAction::RefreshRun { id: run_id, force: is_step_final(status@) })
                    }
                }
            },
    {
        let mut acts: Vec<AppAction> = Vec::new();
        let mut updated: Option<usize> = None;
        let ghost steps_before: Seq<StepView> = Seq::empty();
        let matches = match &self.selected_run {
            Some(run) => run.detail.id == run_id,
            None => false,
        };
        if !matches {
            return acts;
        }
        match &mut self.selected_run {
            Some(run) => {
                proof {
                    steps_before = steps_view(run.steps@);
                }
                let ghost detail_before = run.detail;
                let ghost att_before = run.attachments_json;
                let mut i: usize = 0;
                while i < run.steps.len()
                    invariant
                        run.detail == detail_before,
                        run.attachments_json == att_before,
                        i <= run.steps@.len(),
                        steps_before.len() == run.steps@.len(),
                        forall|j: int| 0 <= j < i ==> #[trigger] run.steps@[j]@ == (if is_step_target(steps_before[j], step_name@) {
                            StepView { status: Some(status@), ..steps_before[j] }
                        } else {
                            steps_before[j]
                        }),
                        forall|j: int| i <= j < run.steps@.len() ==> #[trigger] run.steps@[j]@ == steps_before[j],
                        updated == match last_step_target(steps_before.take(i as int), step_name@) {
                            Some(k) => Some(k as usize),
                            None => None::<usize>,
                        },
                        match last_step_target(steps_before.take(i as int), step_name@) {
                            Some(k) => 0 <= k < i,
                            None => true,
                        },
                    decreases run.steps@.len() - i,
                {
                    let hit = match &run.steps[i].name {
                        Some(n) => *n == step_name && run.steps[i].is_object,
                        None => false,
                    };
                    assert(steps_before.take(i + 1).drop_last() =~= steps_before.take(i as int));
                    assert(steps_before.take(i + 1).last() == steps_before[i as int]);
                    assert(run.steps@[i as int]@ == steps_before[i as int]);
                    if hit {
                        assert(is_step_target(steps_before[i as int], step_name@));
                        let st = Some(status.clone());
                        run.steps[i].status = st;
                        assert(run.steps@[i as int]@ =~= (StepView { status: Some(status@), ..steps_before[i as int] }));
                        assert(last_step_target(steps_before.take(i + 1), step_name@) == Some(i as int));
                        updated = Some(i);
                    } else {
                        assert(!is_step_target(steps_before[i as int], step_name@));
                    }
                    i = i + 1;
                }
                assert(steps_before.take(i as int) =~= steps_before);
                assert(steps_view(run.steps@) =~= steps_with_status(steps_before, step_name@, status@));
            },
            None => {},
        }
        let ghost mid = *self;
        assert(mid == (App { selected_run: mid.selected_run, ..*old(self) }));
        match updated {
            None => acts,
            Some(k) => {
                let is_final = status == owned("succeeded") || status == owned("failed")
                    || status == owned("aborted") || status == owned("skipped");
                let refresh = AppAction::RefreshRun { id: run_id, force: is_final };
                if k == self.selected_step_index {
                    let a = self.refresh_step_logs(false);
                    match a {
                        Some(x) => acts.push(x),
                        None => {},
                    }
                    acts.push(refresh);
                    assert(acts@ =~= act_seq(a).push(refresh));
                    assert(step_logs_refreshed(mid, *self, false, a));
                } else {
                    acts.push(refresh);
                }
                acts
            },
        }
    }
}

/// Appends to `fetched` the lines of `live` it lacks, as `merge_logs` says.
fn merge_log_lines(fetched: Vec<String>, live: &Vec<String>) -> (r: Vec<String>)
    ensures
        strs_view(r@) == merge_logs(strs_view(fetched@), strs_view(live@)),
{
    let mut out = fetched;
    let ghost f = strs_view(out@);
    let mut i: usize = 0;
    assert(strs_view(live@).take(0) =~= Seq::<Seq<char>>::empty());
    while i < live.len()
        invariant
            i <= live@.len(),
            strs_view(out@) == merge_logs(f, strs_view(live@).take(i as int)),
        decreases live@.len() - i,
    {
        let ghost lv = strs_view(live@);
        assert(lv.take(i + 1).drop_last() =~= lv.take(i as int));
        assert(lv.take(i + 1).last() == live@[i as int]@);
        if !contains_text(&out, &live[i]) {
            let ghost before = strs_view(out@);
            out.push(live[i].clone());
            assert(strs_view(out@) =~= before.push(live@[i as int]@));
        }
        i = i + 1;
    }
    assert(strs_view(live@).take(i as int) =~= strs_view(live@));
    out
}

/// Whether `line` starts with `pre`.
fn starts_with_chars(line: &Vec<char>, pre: &Vec<char>) -> (r: bool)
    ensures
        r == pre@.is_prefix_of(line@),
{
    if pre.len() > line.len() {
        return false;
    }
    let mut i: usize = 0;
    while i < pre.len()
        invariant
            i <= pre@.len(),
            pre@.len() <= line@.len(),
            forall|j: int| 0 <= j < i ==> pre@[j] == line@[j],
        decreases pre@.len() - i,
    {
        if pre[i] != line[i] {
            return false;
        }
        i = i + 1;
    }
    assert(line@.take(pre@.len() as int) =~= pre@);
    true
}

/// The characters of `[name]`.
fn prefix_chars(name: &String) -> (r: Vec<char>)
    ensures
        r@ == step_prefix(name@),
{
    let mut v: Vec<char> = Vec::new();
    v.push('[');
    let n = chars_of(name.as_str());
    let mut i: usize = 0;
    while i < n.len()
        invariant
            i <= n@.len(),
            v@ == seq!['['] + n@.take(i as int),
        decreases n@.len() - i,
    {
        v.push(n[i]);
        i = i + 1;
        assert(v@ =~= seq!['['] + n@.take(i as int));
    }
    v.push(']');
    assert(n@.take(i as int) =~= n@);
    assert(v@ =~= step_prefix(name@));
    v
}

/// Finds the first step whose prefix starts `line`.
fn step_of_line(steps: &Vec<StepDetail>, line: &Vec<char>) -> (r: Option<usize>)
    ensures
        match r {
            Some(p) => step_of_line_from(steps_view(steps@), line@, 0) == Some(p as int) && p < steps@.len(),
            None => step_of_line_from(steps_view(steps@), line@, 0) is None,
        },
{
    let ghost sv = steps_view(steps@);
    let mut i: usize = 0;
    while i < steps.len()
        invariant
            i <= steps@.len(),
            sv == steps_view(steps@),
            step_of_line_from(sv, line@, 0) == step_of_line_from(sv, line@, i as int),
        decreases steps@.len() - i,
    {
        assert(sv[i as int] == steps@[i as int]@);
        let hit = match &steps[i].name {
            Some(n) => {
                let pre = prefix_chars(n);
                starts_with_chars(line, &pre)
            },
            None => false,
        };
        if hit {
            return Some(i);
        }
        i = i + 1;
    }
    None
}

impl App {
    /// Takes in the full logs fetched for step `step_index` of run `run_id`: they replace the
    /// step's logs, followed by the shown lines they lack (lines that arrived live during the
    /// fetch). When that step is selected, the log view shows them, and follows the last
    /// line when following is on.
    pub fn handle_step_logs_fetched(&mut self, run_id: u128, step_index: usize, logs: Vec<String>)
        requires
            old(self).wf(),
        ensures
            final(self).wf(),
            (shown_run(*old(self), run_id) is None
                || step_index >= shown_run(*old(self), run_id)->0.steps@.len()) ==> *final(self) == *old(self),
            (shown_run(*old(self), run_id) is Some
                && step_index < shown_run(*old(self), run_id)->0.steps@.len()) ==> {
                let r = shown_run(*old(self), run_id)->0@;
                let merged = merge_logs(strs_view(logs@), r.steps[step_index as int].logs);
                &&& final(self).selected_run is Some
                &&& final(self).selected_run->0@ == (FullRunView {
                    steps: r.steps.update(step_index as int, StepView { logs: merged, ..r.steps[step_index as int] }),
                    ..r
                })
                &&& if old(self).selected_step_index == step_index {
                    &&& strs_view(final(self).run_logs@) == merged
                    &&& final(self).log_scroll == if old(self).log_auto_scroll {
                        if merged.len() > 0 { (merged.len() - 1) as usize } else { 0usize }
                    } else {
                        old(self).log_scroll
                    }
                    &&& *final(self) == (App {
                        selected_run: final(self).selected_run,
                        run_logs: final(self).run_logs,
                        log_scroll: final(self).log_scroll,
                        ..*old(self)
                    })
                } else {
                    *final(self) == (App { selected_run: final(self).selected_run, ..*old(self) })
                }
            },
    {
        let applies = match &self.selected_run {
            Some(run) => run.detail.id == run_id && step_index < run.steps.len(),
            None => false,
        };
        if !applies {
            return;
        }
        match &mut self.selected_run {
            Some(run) => {
                let ghost before = run@;
                let merged = merge_log_lines(logs, &run.steps[step_index].logs);
                let ghost mv = strs_view(merged@);
                run.steps[step_index].logs = merged;
                assert(steps_view(run.steps@) =~= before.steps.update(
                    step_index as int,
                    StepView { logs: mv, ..before.steps[step_index as int] },
                ));
            },
            None => {},
        }
        if self.selected_step_index == step_index {
            match &self.selected_run {
                Some(run) => {
                    let shown = clone_strings(&run.steps[step_index].logs);
                    self.run_logs = shown;
                },
                None => {},
            }
            if self.log_auto_scroll {
                self.log_scroll = if self.run_logs.len() > 0 { self.run_logs.len() - 1 } else { 0 };
            }
        }
    }

    /// Takes in a live log line of run `run_id`: the first step whose `[name]` starts the line
    /// gets the rest of the line (without one leading space), and the log view shows it when
    /// the selected step has that name.
    pub fn handle_log_line(&mut self, run_id: u128, line: String)
        requires
            old(self).wf(),
        ensures
            final(self).wf(),
            (shown_run(*old(self), run_id) is None
                || step_of_line_from(shown_run(*old(self), run_id)->0@.steps, line@, 0) is None)
                ==> *final(self) == *old(self),
            (shown_run(*old(self), run_id) is Some
                && step_of_line_from(shown_run(*old(self), run_id)->0@.steps, line@, 0) is Some) ==> {
                let r = shown_run(*old(self), run_id)->0@;
                let k = step_of_line_from(r.steps, line@, 0)->0;
                let name = r.steps[k].name->0;
                let t = line_text(line@, name);
                let shows = old(self).selected_step_index < r.steps.len()
                    && r.steps[old(self).selected_step_index as int].name == Some(name);
                &&& final(self).selected_run is Some
                &&& final(self).selected_run->0@ == (FullRunView {
                    steps: r.steps.update(k, StepView { logs: r.steps[k].logs.push(t), ..r.steps[k] }),
                    ..r
                })
                &&& if shows {
                    strs_view(final(self).run_logs@) == strs_view(old(self).run_logs@).push(t)
                } else {
                    final(self).run_logs == old(self).run_logs
                }
                &&& *final(self) == (App {
                    selected_run: final(self).selected_run,
                    run_logs: final(self).run_logs,
                    ..*old(self)
                })
            },
    {
        let lc = chars_of(line.as_str());
        let found = match &self.selected_run {
            Some(run) => if run.detail.id == run_id { step_of_line(&run.steps, &lc) } else { None },
            None => None,
        };
        let k = match found {
            Some(k) => k,
            None => {
                return;
            },
        };
        let ghost r = self.selected_run->0@;
        proof {
            lemma_step_of_line_from(r.steps, line@, 0);
        }
        let mut text = String::new();
        let mut shows = false;
        match &mut self.selected_run {
            Some(run) => {
                let ghost before = run@;
                assert(before.steps[k as int] == run.steps@[k as int]@);
                let name = match &run.steps[k].name {
                    Some(n) => n.clone(),
                    None => String::new(),
                };
                assert(name@ == r.steps[k as int].name->0);
                assert(step_prefix(name@).is_prefix_of(line@));
                assert(step_prefix(name@).len() == name@.len() + 2);
                let lc_len = lc.len();
                assert(name@.len() + 2 <= lc_len);
                let nlen = name.unicode_len();
                let plen = nlen + 2;
                let start: usize = if plen < lc.len() && lc[plen] == ' ' { plen + 1 } else { plen };
                proof {
                    let rest = lc@.skip(step_prefix(name@).len() as int);
                    assert(step_prefix(name@).len() == plen);
                    if plen < lc@.len() && lc@[plen as int] == ' ' {
                        assert(rest.drop_first() =~= lc@.subrange(start as int, lc@.len() as int));
                    } else {
                        assert(rest =~= lc@.subrange(start as int, lc@.len() as int));
                    }
                }
                text = crate::text::substring(&lc, start, lc.len());
                let ghost tv = text@;
                run.steps[k].logs.push(text.clone());
                assert(strs_view(run.steps@[k as int].logs@) =~= before.steps[k as int].logs.push(tv));
                assert(steps_view(run.steps@) =~= before.steps.update(
                    k as int,
                    StepView { logs: before.steps[k as int].logs.push(tv), ..before.steps[k as int] },
                ));
                let idx = self.selected_step_index;
                if idx < run.steps.len() {
                    shows = match &run.steps[idx].name {
                        Some(n) => *n == name,
                        None => false,
                    };
                }
            },
            None => {},
        }
        if shows {
            let ghost before_logs = strs_view(self.run_logs@);
            self.run_logs.push(text);
            assert(strs_view(self.run_logs@) =~= before_logs.push(line_text(line@, r.steps[k as int].name->0)));
        }
    }
}

/// The selected run after a summary of run `d` came in: a run waiting to be selected is
/// selected where the summary landed; a summary put first moves the selection down one.
pub open spec fn selection_after_summary(app: App, d: WorkflowRunDetail) -> Option<usize> {
    let forced = app.force_select_run_id == Some(d.id);
    match find_run(app.runs@, d.id) {
        Some(p) => if forced { Some(p as usize) } else { app.runs_selected },
        None => if forced {
            Some(0usize)
        } else {
            match app.runs_selected {
                Some(s) => Some((s + 1) as usize),
                None => None,
            }
        },
    }
}

/// The run list after a summary: it replaces the run with its id, or is put first.
pub open spec fn runs_after_summary(runs: Seq<WorkflowRunDetail>, d: WorkflowRunDetail) -> Seq<RunView> {
    match find_run(runs, d.id) {
        Some(p) => run_views(runs).update(p, d@),
        None => seq![d@] + run_views(runs),
    }
}

impl App {
    /// Takes in the summary of a run from the run stream. It replaces the listed run with its
    /// id or is put first; a run waiting to be selected is selected, read and watched. When
    /// the summary is of the selected run, the shown copy takes it, and the run is read and
    /// watched again when there was no shown copy or its status changed.
    pub fn handle_workflow_update(&mut self, d: WorkflowRunDetail) -> (acts: Vec<AppAction>)
        requires
            old(self).wf(),
        ensures
            final(self).wf(),
            run_views(final(self).runs@) == runs_after_summary(old(self).runs@, d),
            final(self).runs_selected == selection_after_summary(*old(self), d),
            final(self).force_select_run_id == if old(self).force_select_run_id == Some(d.id) {
                None
            } else {
                old(self).force_select_run_id
            },
            *final(self) == (App {
                runs: final(self).runs,
                runs_selected: final(self).runs_selected,
                force_select_run_id: final(self).force_select_run_id,
                selected_run: final(self).selected_run,
                ..*old(self)
            }),
            ({
                let watch = seq![AppAction::RefreshRun { id: d.id, force: true }, AppAction::StartWatching { id: d.id }];
                let first = if old(self).force_select_run_id == Some(d.id) { watch } else { Seq::empty() };
                let sel = final(self).runs_selected;
                let is_selected = sel matches Some(i) && final(self).runs@[i as int].id == d.id;
                if is_selected {
                    match shown_run(*old(self), d.id) {
                        Some(r) => {
                            &&& final(self).selected_run is Some
                            &&& final(self).selected_run->0@ == (FullRunView { detail: d@, ..r@ })
                            &&& acts@ == first + if r.detail.status != d.status { watch } else { Seq::empty() }
                        },
                        None => final(self).selected_run == old(self).selected_run && acts@ == first + watch,
                    }
                } else {
                    final(self).selected_run == old(self).selected_run && acts@ == first
                }
            }),
    {
        let id = d.id;
        let forced = match self.force_select_run_id {
            Some(f) => f == id,
            None => false,
        };
        let mut acts: Vec<AppAction> = Vec::new();
        let copy = d.duplicate();
        let ghost old_runs = self.runs@;
        match position_of_run(&self.runs, id) {
            Some(p) => {
                self.runs.set(p, copy);
                assert(run_views(self.runs@) =~= run_views(old_runs).update(p as int, d@));
                if forced {
                    self.runs_selected = Some(p);
                    self.force_select_run_id = None;
                    acts.push(AppAction::RefreshRun { id, force: true });
                    acts.push(AppAction::StartWatching { id });
                }
            },
            None => {
                self.runs.insert(0, copy);
                assert(run_views(self.runs@) =~= seq![d@] + run_views(old_runs));
                if forced {
                    self.runs_selected = Some(0);
                    self.force_select_run_id = None;
                    acts.push(AppAction::RefreshRun { id, force: true });
                    acts.push(AppAction::StartWatching { id });
                } else {
                    match self.runs_selected {
                        Some(sel) => {
                            let n = self.runs.len();
                            assert(sel < old_runs.len() && n == old_runs.len() + 1);
                            self.runs_selected = Some(sel + 1);
                        },
                        None => {},
                    }
                }
            },
        }
        let ghost first = acts@;
        let is_selected = match self.runs_selected {
            Some(i) => self.runs[i].id == id,
            None => false,
        };
        if is_selected {
            let shown = match &self.selected_run {
                Some(r) => r.detail.id == id,
                None => false,
            };
            let mut needs = true;
            if shown {
                match &mut self.selected_run {
                    Some(r) => {
                        needs = r.detail.status != d.status;
                        r.detail = d;
                    },
                    None => {},
                }
            }
            if needs {
                acts.push(AppAction::RefreshRun { id, force: true });
                acts.push(AppAction::StartWatching { id });
            }
            assert(acts@ =~= first + if needs {
                seq![AppAction::RefreshRun { id, force: true }, AppAction::StartWatching { id }]
            } else {
                Seq::empty()
            });
        } else {
            assert(acts@ =~= first);
        }
        acts
    }
}

/// The list position to select in a freshly fetched run list of `n` runs: the old selection
/// kept inside the list (the first entry when there was none), or the run waiting to be
/// selected when the list has it.
pub open spec fn fetched_selection(sel: Option<usize>, forced: Option<u128>, runs: Seq<WorkflowRunDetail>) -> usize {
    let kept: usize = match sel {
        Some(s) => if s < runs.len() { s } else { (runs.len() - 1) as usize },
        None => 0,
    };
    match forced {
        Some(f) => match find_run(runs, f) {
            Some(p) => p as usize,
            None => kept,
        },
        None => kept,
    }
}

impl App {
    /// Takes in a freshly fetched run list. An empty list clears the selection and the shown
    /// run; otherwise a position is selected as `fetched_selection` says, and the run there
    /// is returned when it is not the shown one, to be read and watched.
    pub fn apply_run_list(&mut self, runs: Vec<WorkflowRunDetail>) -> (fetch: Option<u128>)
        requires
            old(self).lists_wf(),
        ensures
            final(self).wf(),
            final(self).runs == runs,
            final(self).error is None,
            runs@.len() == 0 ==> {
                &&& *final(self) == (App { runs, runs_selected: None, selected_run: None, error: None, ..*old(self) })
                &&& fetch is None
            },
            runs@.len() > 0 ==> {
                let i = fetched_selection(old(self).runs_selected, old(self).force_select_run_id, runs@);
                let found = match old(self).force_select_run_id {
                    Some(f) => find_run(runs@, f) is Some,
                    None => false,
                };
                let id = runs@[i as int].id;
                &&& *final(self) == (App {
                    runs,
                    runs_selected: Some(i),
                    force_select_run_id: if found { None } else { old(self).force_select_run_id },
                    error: None,
                    ..*old(self)
                })
                &&& fetch == match old(self).selected_run {
                    Some(r) => if r.detail.id != id { Some(id) } else { None },
                    None => Some(id),
                }
            },
    {
        self.runs = runs;
        self.error = None;
        let n = self.runs.len();
        if n == 0 {
            self.runs_selected = None;
            self.selected_run = None;
            return None;
        }
        let mut idx: usize = match self.runs_selected {
            Some(s) => if s < n { s } else { n - 1 },
            None => 0,
        };
        match self.force_select_run_id {
            Some(f) => {
                match position_of_run(&self.runs, f) {
                    Some(p) => {
                        idx = p;
                        self.force_select_run_id = None;
                    },
                    None => {},
                }
            },
            None => {},
        }
        self.runs_selected = Some(idx);
        let id = self.runs[idx].id;
        match &self.selected_run {
            Some(r) => if r.detail.id != id { Some(id) } else { None },
            None => Some(id),
        }
    }

    /// A copy of the cached finished run `id`.
    pub fn cached_run(&self, id: u128) -> (r: Option<WorkflowRunFullDetail>)
        ensures
            cached(self.cached_runs@, id) ==> r is Some && r->0.detail.id == id
                && runs_view(self.cached_runs@).contains(r->0@),
            !cached(self.cached_runs@, id) ==> r is None,
    {
        let mut i: usize = 0;
        while i < self.cached_runs.len()
            invariant
                i <= self.cached_runs@.len(),
                forall|j: int| 0 <= j < i ==> #[trigger] self.cached_runs@[j].detail.id != id,
            decreases self.cached_runs@.len() - i,
        {
            if self.cached_runs[i].detail.id == id {
                let c = self.cached_runs[i].duplicate();
                assert(runs_view(self.cached_runs@)[i as int] == c@);
                return Some(c);
            }
            i = i + 1;
        }
        None
    }

    /// Whether run `id` needs live watching: a cached run is finished and needs none.
    pub fn needs_watching(&self, id: u128) -> (r: bool)
        ensures
            r == !cached(self.cached_runs@, id),
    {
        !is_cached(&self.cached_runs, id)
    }
}

/// A finished run keeps its status whatever status is reported for it afterwards.
pub proof fn lemma_status_report_keeps_finished(runs: Seq<WorkflowRunDetail>, id: u128, s: RunStatus, p: int)
    requires
        0 <= p < runs.len(),
        runs[p].status.is_terminal_spec(),
    ensures
        runs_after_status(runs, id, s).len() == runs.len(),
        runs_after_status(runs, id, s)[p].status == runs[p].status,
{
    lemma_find_run_from(runs, id, 0);
}

/// The shown run, once finished, keeps its status whatever status is reported for it.
pub proof fn lemma_status_report_keeps_shown_finished(r: WorkflowRunFullDetail, id: u128, s: RunStatus)
    requires
        r.detail.status.is_terminal_spec(),
    ensures
        selected_after_status(Some(r), id, s)->0.detail.status == r.detail.status,
{
}

/// A run read again keeps the finished status the shown copy had.
pub proof fn lemma_reread_keeps_finished(new: FullRunView, old: FullRunView)
    requires
        old.detail.id == new.detail.id,
        old.detail.status.is_terminal_spec(),
    ensures
        merged_run(new, Some(old)).detail.status == old.detail.status,
{
}

/// A step read again does not fall back from running or finished to pending or unpacking.
pub proof fn lemma_step_status_not_regressed(new: StepView, old_steps: Seq<StepView>, k: int)
    requires
        new.name is Some,
        find_step_from(old_steps, new.name->0, 0) == Some(k),
        old_steps[k].status is Some,
        is_progressed(old_steps[k].status->0),
        new.status is Some,
        is_early(new.status->0),
    ensures
        merge_step(new, old_steps).status == old_steps[k].status,
{
}

/// A step read again without logs keeps the logs the shown copy had.
pub proof fn lemma_step_logs_kept(new: StepView, old_steps: Seq<StepView>, k: int)
    requires
        new.name is Some,
        find_step_from(old_steps, new.name->0, 0) == Some(k),
        new.logs.len() == 0,
        old_steps[k].logs.len() > 0,
    ensures
        merge_step(new, old_steps).logs == old_steps[k].logs,
{
}

/// Fetched logs come first, and no live line is lost.
pub proof fn lemma_merge_logs(fetched: Seq<Seq<char>>, live: Seq<Seq<char>>)
    ensures
        fetched.is_prefix_of(merge_logs(fetched, live)),
        forall|i: int| 0 <= i < live.len() ==> merge_logs(fetched, live).contains(#[trigger] live[i]),
    decreases live.len(),
{
    if live.len() > 0 {
        let prev = live.drop_last();
        lemma_merge_logs(fetched, prev);
        let m = merge_logs(fetched, prev);
        let r = merge_logs(fetched, live);
        assert(m.is_prefix_of(r));
        assert(fetched.is_prefix_of(r)) by {
            assert(r.take(fetched.len() as int) =~= m.take(fetched.len() as int));
        }
        assert forall|i: int| 0 <= i < live.len() implies r.contains(#[trigger] live[i]) by {
            if i < prev.len() {
                assert(prev[i] == live[i]);
                assert(m.contains(prev[i]));
                let j = choose|j: int| 0 <= j < m.len() && m[j] == prev[i];
                assert(r[j] == m[j]);
            } else if !m.contains(live.last()) {
                assert(r[r.len() - 1] == live.last());
            }
        }
    }
}

/// A step's full logs are asked for at most once: showing the same step's logs again
/// right after they were asked for asks for nothing.
pub proof fn lemma_step_logs_asked_once(a: App, b: App, c: App, r1: bool, r2: bool, x: AppAction, act2: Option<AppAction>)
    requires
        step_logs_refreshed(a, b, r1, Some(x)),
        step_logs_refreshed(b, c, r2, act2),
    ensures
        act2 is None,
{
    let run = a.selected_run->0;
    let step = run.steps@[a.selected_step_index as int]@;
    let sid = step.id->0;
    assert(b.selected_run == a.selected_run);
    assert(b.selected_step_index == a.selected_step_index);
    assert(b.fetched_steps@ == a.fetched_steps@.push(sid));
    assert(b.fetched_steps@[b.fetched_steps@.len() - 1] == sid);
    assert(b.fetched_steps@.contains(sid));
}

/// A finished run stored in the cache is found there afterwards.
pub proof fn lemma_cached_after_store(c1: Seq<WorkflowRunFullDetail>, c2: Seq<WorkflowRunFullDetail>, r: FullRunView)
    requires
        runs_view(c2) == cache_insert(runs_view(c1), r),
    ensures
        cached(c2, r.detail.id),
{
    let cv = runs_view(c1);
    assert(runs_view(c2).len() == c2.len());
    assert(cv.len() == c1.len());
    lemma_find_cached_from(cv, r.detail.id, 0);
    match find_cached_from(cv, r.detail.id, 0) {
        Some(k) => {
            assert(runs_view(c2)[k] == r);
            assert(c2[k]@ == runs_view(c2)[k]);
        },
        None => {
            let k = c1.len() as int;
            assert(runs_view(c2)[k] == r);
            assert(c2[k]@ == runs_view(c2)[k]);
        },
    }
}

pub proof fn lemma_find_cached_from(cache: Seq<FullRunView>, id: u128, i: int)
    requires
        0 <= i,
    ensures
        match find_cached_from(cache, id, i) {
            Some(p) => i <= p < cache.len() && cache[p].detail.id == id,
            None => true,
        },
    decreases cache.len() - i,
{
    if i < cache.len() && cache[i].detail.id != id {
        lemma_find_cached_from(cache, id, i + 1);
    }
}

// ---------------------------------------------------------------- laws

/// A status report changes no run but the first one with its id, and of that run only the
/// status: a finished status stays, any other becomes the reported one. The shown run is
/// changed likewise when it has that id.
pub proof fn lemma_status_report_changes_one_run(runs: Seq<WorkflowRunDetail>, sel: Option<WorkflowRunFullDetail>, id: u128, s: RunStatus)
    ensures
        runs_after_status(runs, id, s).len() == runs.len(),
        forall|i: int|
            0 <= i < runs.len() ==> {
                let r = #[trigger] runs_after_status(runs, id, s)[i];
                &&& r == WorkflowRunDetail { status: r.status, ..runs[i] }
                &&& runs[i].id != id ==> r == runs[i]
                &&& runs[i].status.is_terminal_spec() ==> r.status == runs[i].status
                &&& find_run(runs, id) == Some(i) && !runs[i].status.is_terminal_spec() ==> r.status == s
            },
        forall|i: int| 0 <= i < runs.len() && runs[i].id == id ==> #[trigger] find_run(runs, id) is Some,
        match sel {
            Some(r) => {
                let a = selected_after_status(sel, id, s)->0;
                &&& selected_after_status(sel, id, s) is Some
                &&& a == WorkflowRunFullDetail {
                    detail: WorkflowRunDetail { status: a.detail.status, ..r.detail },
                    ..r
                }
                &&& r.detail.id != id ==> a == r
                &&& r.detail.status.is_terminal_spec() ==> a.detail.status == r.detail.status
                &&& r.detail.id == id && !r.detail.status.is_terminal_spec() ==> a.detail.status == s
            },
            None => selected_after_status(sel, id, s) is None,
        },
{
    lemma_find_run_from(runs, id, 0);
}

proof fn lemma_remove_char_gone(l: Seq<char>, c: char)
    ensures
        !remove_char(l, c).contains(c),
    decreases l.len(),
{
    if l.len() > 0 {
        lemma_remove_char_gone(l.drop_last(), c);
        let r = remove_char(l.drop_last(), c);
        if l.last() != c {
            assert forall|k: int| 0 <= k < r.push(l.last()).len() implies r.push(l.last())[k] != c by {
                if k < r.len() {
                    assert(r.push(l.last())[k] == r[k]);
                }
            }
        }
    }
}

proof fn lemma_trim_end_prefix(l: Seq<char>)
    ensures
        trim_end(l) == l.take(trim_end(l).len() as int),
        trim_end(l).len() <= l.len(),
        trim_end(l).len() > 0 ==> !is_ws(trim_end(l).last()),
    decreases l.len(),
{
    if l.len() > 0 && is_ws(l.last()) {
        lemma_trim_end_prefix(l.drop_last());
        assert(l.drop_last().take(trim_end(l).len() as int) =~= l.take(trim_end(l).len() as int));
    } else {
        assert(l.take(l.len() as int) =~= l);
    }
}

/// A cleaned log line holds no carriage return and does not end in whitespace.
pub proof fn lemma_clean_log(l: Seq<char>)
    ensures
        !clean_log(l).contains('\r'),
        clean_log(l).len() > 0 ==> !is_ws(clean_log(l).last()),
{
    let r = remove_char(l, '\r');
    lemma_remove_char_gone(l, '\r');
    lemma_trim_end_prefix(r);
    if clean_log(l).contains('\r') {
        let k = choose|k: int| 0 <= k < clean_log(l).len() && clean_log(l)[k] == '\r';
        assert(r[k] == '\r');
    }
}

/// A freshly read run that replaces the shown one keeps its own id and its steps, in
/// order; no log line of it holds a carriage return or ends in whitespace; a finished status
/// of the shown copy of the same run stays; and the selected step stays within its steps.
pub proof fn lemma_full_run_update(new: FullRunView, old: Option<FullRunView>, selected: usize)
    ensures
        merged_run(new, old).detail.id == new.detail.id,
        merged_run(new, old).steps.len() == new.steps.len(),
        forall|i: int, j: int|
            0 <= i < new.steps.len() && 0 <= j < merged_run(new, old).steps[i].logs.len() ==> {
                let line = #[trigger] merged_run(new, old).steps[i].logs[j];
                &&& !line.contains('\r')
                &&& line.len() > 0 ==> !is_ws(line.last())
            },
        old is Some && old->0.detail.id == new.detail.id && old->0.detail.status.is_terminal_spec()
            ==> merged_run(new, old).detail.status == old->0.detail.status,
        new.steps.len() > 0 ==> clamped_step_index(selected, new.steps.len()) < new.steps.len(),
        new.steps.len() == 0 ==> clamped_step_index(selected, new.steps.len()) == 0,
{
    let k = merged_run(new, old);
    assert forall|i: int, j: int|
        0 <= i < new.steps.len() && 0 <= j < merged_run(new, old).steps[i].logs.len() implies {
            let line = #[trigger] merged_run(new, old).steps[i].logs[j];
            &&& !line.contains('\r')
            &&& line.len() > 0 ==> !is_ws(line.last())
        } by {
        let merged = match old {
            Some(o) => if o.detail.id == new.detail.id {
                FullRunView {
                    detail: RunView {
                        status: if o.detail.status.is_terminal_spec() { o.detail.status } else { new.detail.status },
                        ..new.detail
                    },
                    steps: new.steps.map_values(|st: StepView| merge_step(st, o.steps)),
                    ..new
                }
            } else {
                new
            },
            None => new,
        };
        assert(k.steps[i] == clean_step(merged.steps[i]));
        lemma_clean_log(merged.steps[i].logs[j]);
    }
}

/// Taking in a freshly read run: a run other than the one selected in the list changes
/// nothing; the selected one becomes the shown run, with its own id, no log line holding a
/// carriage return or ending in whitespace, a selected step inside its steps, and a finished
/// status of the shown copy kept; once finished it is found in the cache as shown.
pub proof fn lemma_full_run_update_law(a: App, b: App, full: WorkflowRunFullDetail, act: Option<AppAction>)
    requires
        a.wf(),
        full_run_updated(a, b, full, act),
    ensures
        selected_run_id(a) != Some(full.detail.id) ==> b == a && act is None,
        selected_run_id(a) == Some(full.detail.id) ==> {
            let shown = b.selected_run->0@;
            &&& b.selected_run is Some
            &&& shown.detail.id == full.detail.id
            &&& forall|i: int, j: int|
                0 <= i < shown.steps.len() && 0 <= j < shown.steps[i].logs.len() ==> {
                    let line = #[trigger] shown.steps[i].logs[j];
                    &&& !line.contains('\r')
                    &&& line.len() > 0 ==> !is_ws(line.last())
                }
            &&& shown.steps.len() > 0 ==> b.selected_step_index < shown.steps.len()
            &&& shown.steps.len() == 0 ==> b.selected_step_index == 0
            &&& a.selected_run is Some && a.selected_run->0.detail.id == full.detail.id
                && a.selected_run->0.detail.status.is_terminal_spec() ==> shown.detail.status
                == a.selected_run->0.detail.status
            &&& shown.detail.status.is_terminal_spec() ==> exists|k: int|
                0 <= k < b.cached_runs@.len() && #[trigger] b.cached_runs@[k]@ == shown
        },
{
    if selected_run_id(a) == Some(full.detail.id) {
        let old_view = match a.selected_run {
            Some(o) => Some(o@),
            None => None,
        };
        let kept = merged_run(full@, old_view);
        lemma_full_run_update(full@, old_view, a.selected_step_index);
        let mid = App {
            selected_run: b.selected_run,
            cached_runs: b.cached_runs,
            selected_step_index: clamped_step_index(a.selected_step_index, kept.steps.len()),
            ..a
        };
        assert(b.selected_step_index == mid.selected_step_index);
        if kept.detail.status.is_terminal_spec() {
            let cv = runs_view(a.cached_runs@);
            assert(runs_view(b.cached_runs@).len() == b.cached_runs@.len());
            assert(cv.len() == a.cached_runs@.len());
            lemma_find_cached_from(cv, kept.detail.id, 0);
            match find_cached_from(cv, kept.detail.id, 0) {
                Some(k) => {
                    assert(runs_view(b.cached_runs@)[k] == kept);
                    assert(b.cached_runs@[k]@ == runs_view(b.cached_runs@)[k]);
                },
                None => {
                    let k = a.cached_runs@.len() as int;
                    assert(runs_view(b.cached_runs@)[k] == kept);
                    assert(b.cached_runs@[k]@ == runs_view(b.cached_runs@)[k]);
                },
            }
        }
    }
}

} // verus!

//! The run filter dialog of the terminal UI.
use vstd::prelude::*;
use crate::app::{App, filter_status_options};
use crate::k8s_model::opt_str_view;
use crate::naming::{lowercase_text, to_lowercase};
use crate::text::{chars_of, owned, trim, trim_exec};

verus! {

/// How many status options the filter dialog offers.
pub const FILTER_STATUS_COUNT: usize = 7;

/// The focus position of the status selector; positions below it are the text fields.
pub const STATUS_FOCUS: usize = 6;

/// The status option at `i`.
pub fn filter_status_option(i: usize) -> (s: String)
    requires
        i < FILTER_STATUS_COUNT,
    ensures
        s@ == filter_status_options()[i as int],
{
    if i == 0 {
        owned("Any")
    } else if i == 1 {
        owned("Queued")
    } else if i == 2 {
        owned("Resolving")
    } else if i == 3 {
        owned("Running")
    } else if i == 4 {
        owned("Succeeded")
    } else if i == 5 {
        owned("Failed")
    } else {
        owned("Aborted")
    }
}

/// The code of `c` with ASCII letters lowered.
pub open spec fn ascii_lower(c: char) -> u32 {
    if 'A' <= c && c <= 'Z' { ((c as u32) + 32) as u32 } else { c as u32 }
}

/// `str::eq_ignore_ascii_case`.
pub open spec fn eq_ignore_ascii_case(a: Seq<char>, b: Seq<char>) -> bool {
    a.len() == b.len() && forall|i: int| 0 <= i < a.len() ==> ascii_lower(#[trigger] a[i]) == ascii_lower(b[i])
}

fn ascii_lower_exec(c: char) -> (r: u32)
    ensures
        r == ascii_lower(c),
{
    if 'A' <= c && c <= 'Z' {
        c as u32 + 32
    } else {
        c as u32
    }
}

pub fn eq_ignore_ascii_case_exec(a: &str, b: &str) -> (r: bool)
    ensures
        r == eq_ignore_ascii_case(a@, b@),
{
    let x = chars_of(a);
    let y = chars_of(b);
    if x.len() != y.len() {
        return false;
    }
    let mut i: usize = 0;
    while i < x.len()
        invariant
            i <= x@.len(),
            x@.len() == y@.len(),
            x@ == a@,
            y@ == b@,
            forall|j: int| 0 <= j < i ==> ascii_lower(#[trigger] x@[j]) == ascii_lower(y@[j]),
        decreases x@.len() - i,
    {
        if ascii_lower_exec(x[i]) != ascii_lower_exec(y[i]) {
            return false;
        }
        i = i + 1;
    }
    true
}

/// The first status option that names `status` (ignoring ASCII case), at or after `i`.
pub open spec fn status_option_from(status: Seq<char>, i: int) -> Option<int>
    decreases 7 - i,
{
    if i < 0 || i >= 7 {
        None
    } else if eq_ignore_ascii_case(filter_status_options()[i], status) {
        Some(i)
    } else {
        status_option_from(status, i + 1)
    }
}

pub proof fn lemma_status_option_from(status: Seq<char>, i: int)
    requires
        0 <= i,
    ensures
        match status_option_from(status, i) {
            Some(p) => i <= p < 7,
            None => true,
        },
    decreases 7 - i,
{
    if i < 7 && !eq_ignore_ascii_case(filter_status_options()[i], status) {
        lemma_status_option_from(status, i + 1);
    }
}

/// The text a filter field starts with: the filter, or nothing.
pub open spec fn field_text(f: Option<String>) -> Seq<char> {
    match opt_str_view(f) {
        Some(t) => t,
        None => Seq::empty(),
    }
}

/// A filter from a field: the trimmed text, none when it is empty.
pub open spec fn filter_of(text: Seq<char>) -> Option<Seq<char>> {
    if trim(text).len() == 0 { None } else { Some(trim(text)) }
}

fn text_or_empty(f: &Option<String>) -> (r: String)
    ensures
        r@ == field_text(*f),
{
    match f {
        Some(t) => t.clone(),
        None => String::new(),
    }
}

fn filter_from(text: &String) -> (r: Option<String>)
    ensures
        opt_str_view(r) == filter_of(text@),
{
    let t = trim_exec(text.as_str());
    if t.unicode_len() == 0 { None } else { Some(t) }
}

/// A key as the dialogs and panes read it.
#[derive(PartialEq, Eq, Structural, Clone, Copy, Debug)]
pub enum Key {
    Char(char),
    Enter,
    Esc,
    Tab,
    BackTab,
    Left,
    Right,
    Up,
    Down,
    PageUp,
    PageDown,
    Other,
}

/// A key press with the modifiers the UI looks at.
#[derive(PartialEq, Eq, Structural, Clone, Copy, Debug)]
pub struct KeyPress {
    pub key: Key,
    pub shift: bool,
    pub ctrl: bool,
}

/// What a key in the filter dialog leads to.
#[derive(PartialEq, Eq, Structural, Clone, Copy, Debug)]
pub enum FilterKeyOutcome {
    /// The dialog was closed.
    Closed,
    /// The filters are to be applied and the runs fetched again.
    Apply,
    /// The key goes to the text field at this position.
    Edit(usize),
    /// The focus or the status option moved, or nothing happened.
    Done,
}

impl App {
    /// Opens the filter dialog with the current filters in its fields and the current status
    /// selected (the first option that names it, ignoring ASCII case; `Any` when there is
    /// none or no option names it).
    pub fn open_filter_dialog(&mut self)
        ensures
            final(self).filter_dialog_active,
            final(self).filter_focus == 0,
            final(self).filter_inputs@.len() == 6,
            final(self).filter_inputs@[0]@ == field_text(old(self).filter_owner),
            final(self).filter_inputs@[1]@ == field_text(old(self).filter_name),
            final(self).filter_inputs@[2]@ == field_text(old(self).filter_repo_url),
            final(self).filter_inputs@[3]@ == field_text(old(self).filter_workflow_path),
            final(self).filter_inputs@[4]@ == field_text(old(self).filter_created_after),
            final(self).filter_inputs@[5]@ == field_text(old(self).filter_created_before),
            final(self).filter_status_index == match status_option_from(
                match opt_str_view(old(self).filter_status) { Some(s) => s, None => "Any"@ },
                0,
            ) {
                Some(i) => i as usize,
                None => 0usize,
            },
            *final(self) == (App {
                filter_dialog_active: true,
                filter_focus: 0,
                filter_inputs: final(self).filter_inputs,
                filter_status_index: final(self).filter_status_index,
                ..*old(self)
            }),
    {
        let mut inputs: Vec<String> = Vec::new();
        inputs.push(text_or_empty(&self.filter_owner));
        inputs.push(text_or_empty(&self.filter_name));
        inputs.push(text_or_empty(&self.filter_repo_url));
        inputs.push(text_or_empty(&self.filter_workflow_path));
        inputs.push(text_or_empty(&self.filter_created_after));
        inputs.push(text_or_empty(&self.filter_created_before));
        let current = match &self.filter_status {
            Some(s) => s.clone(),
            None => owned("Any"),
        };
        let ghost cur = current@;
        let mut idx: usize = 0;
        let mut found = false;
        let mut i: usize = 0;
        while i < FILTER_STATUS_COUNT && !found
            invariant
                i <= 7,
                current@ == cur,
                found ==> idx < 7 && status_option_from(cur, 0) == Some(idx as int),
                !found ==> status_option_from(cur, 0) == status_option_from(cur, i as int),
                !found ==> idx == 0,
            decreases 7 - i + if found { 0int } else { 1int },
        {
            let opt = filter_status_option(i);
            if eq_ignore_ascii_case_exec(opt.as_str(), current.as_str()) {
                idx = i;
                found = true;
            } else {
                i = i + 1;
            }
        }
        proof {
            lemma_status_option_from(cur, 0);
            assert(cur == match opt_str_view(old(self).filter_status) { Some(s) => s, None => "Any"@ });
            if !found {
                assert(status_option_from(cur, 0) is None);
            }
        }
        self.filter_dialog_active = true;
        self.filter_focus = 0;
        self.filter_inputs = inputs;
        self.filter_status_index = idx;
    }

    /// Applies the dialog's fields as filters (trimmed, none when empty) and its status option
    /// (none for `Any`, else lowercased), and closes the dialog. Fields are read only when
    /// there are six of them.
    pub fn apply_filter_inputs(&mut self)
        requires
            old(self).filter_status_index < FILTER_STATUS_COUNT,
        ensures
            !final(self).filter_dialog_active,
            old(self).filter_inputs@.len() != 6 ==> *final(self) == (App { filter_dialog_active: false, ..*old(self) }),
            old(self).filter_inputs@.len() == 6 ==> {
                let f = old(self).filter_inputs@;
                let opt = filter_status_options()[old(self).filter_status_index as int];
                &&& opt_str_view(final(self).filter_owner) == filter_of(f[0]@)
                &&& opt_str_view(final(self).filter_name) == filter_of(f[1]@)
                &&& opt_str_view(final(self).filter_repo_url) == filter_of(f[2]@)
                &&& opt_str_view(final(self).filter_workflow_path) == filter_of(f[3]@)
                &&& opt_str_view(final(self).filter_created_after) == filter_of(f[4]@)
                &&& opt_str_view(final(self).filter_created_before) == filter_of(f[5]@)
                &&& opt_str_view(final(self).filter_status) == if opt == "Any"@ { None } else { Some(lowercase_text(opt)) }
                &&& *final(self) == (App {
                    filter_owner: final(self).filter_owner,
                    filter_name: final(self).filter_name,
                    filter_repo_url: final(self).filter_repo_url,
                    filter_workflow_path: final(self).filter_workflow_path,
                    filter_created_after: final(self).filter_created_after,
                    filter_created_before: final(self).filter_created_before,
                    filter_status: final(self).filter_status,
                    filter_dialog_active: false,
                    ..*old(self)
                })
            },
    {
        if self.filter_inputs.len() == 6 {
            self.filter_owner = filter_from(&self.filter_inputs[0]);
            self.filter_name = filter_from(&self.filter_inputs[1]);
            self.filter_repo_url = filter_from(&self.filter_inputs[2]);
            self.filter_workflow_path = filter_from(&self.filter_inputs[3]);
            self.filter_created_after = filter_from(&self.filter_inputs[4]);
            self.filter_created_before = filter_from(&self.filter_inputs[5]);
            let opt = filter_status_option(self.filter_status_index);
            proof {
                reveal_strlit("Any");
            }
            self.filter_status = if opt == owned("Any") { None } else { Some(to_lowercase(opt.as_str())) };
        }
        self.filter_dialog_active = false;
    }

    /// A key in the filter dialog: Esc closes it, Ctrl+Enter applies it, Tab and Shift+Tab
    /// move the focus round the six fields and the status selector, Left and Right on the
    /// selector move round the status options, and other keys go to the focused field.
    pub fn handle_filter_dialog_key(&mut self, key: KeyPress) -> (r: FilterKeyOutcome)
        ensures
            key.key == Key::Esc ==> r == FilterKeyOutcome::Closed
                && *final(self) == (App { filter_dialog_active: false, ..*old(self) }),
            key.key == Key::Enter && key.ctrl ==> r == FilterKeyOutcome::Apply && *final(self) == *old(self),
            key.key == Key::BackTab ==> r == FilterKeyOutcome::Done && *final(self) == (App {
                filter_focus: ((old(self).filter_focus + 6) % 7) as usize,
                ..*old(self)
            }),
            key.key == Key::Tab ==> r == FilterKeyOutcome::Done && *final(self) == (App {
                filter_focus: ((old(self).filter_focus + 1) % 7) as usize,
                ..*old(self)
            }),
            key.key == Key::Left && old(self).filter_focus == STATUS_FOCUS ==> r == FilterKeyOutcome::Done
                && *final(self) == (App {
                    filter_status_index: ((old(self).filter_status_index + 6) % 7) as usize,
                    ..*old(self)
                }),
            key.key == Key::Right && old(self).filter_focus == STATUS_FOCUS ==> r == FilterKeyOutcome::Done
                && *final(self) == (App {
                    filter_status_index: ((old(self).filter_status_index + 1) % 7) as usize,
                    ..*old(self)
                }),
            ({
                let other = !(key.key == Key::Esc || (key.key == Key::Enter && key.ctrl) || key.key == Key::BackTab
                    || key.key == Key::Tab || ((key.key == Key::Left || key.key == Key::Right)
                    && old(self).filter_focus == STATUS_FOCUS));
                other ==> *final(self) == *old(self) && r == if old(self).filter_focus < STATUS_FOCUS {
                    FilterKeyOutcome::Edit(old(self).filter_focus)
                } else {
                    FilterKeyOutcome::Done
                }
            }),
    {
        let k = key.key;
        if k == Key::Esc {
            self.filter_dialog_active = false;
            FilterKeyOutcome::Closed
        } else if k == Key::Enter && key.ctrl {
            FilterKeyOutcome::Apply
        } else if k == Key::BackTab {
            let f = self.filter_focus;
            proof {
                assert((f + 6) % 7 == ((f % 7) + 6) % 7) by (nonlinear_arith);
            }
            self.filter_focus = (f % 7 + 6) % 7;
            FilterKeyOutcome::Done
        } else if k == Key::Tab {
            let f = self.filter_focus;
            proof {
                assert((f + 1) % 7 == ((f % 7) + 1) % 7) by (nonlinear_arith);
            }
            self.filter_focus = (f % 7 + 1) % 7;
            FilterKeyOutcome::Done
        } else if k == Key::Left && self.filter_focus == STATUS_FOCUS {
            let s = self.filter_status_index;
            proof {
                assert((s + 6) % 7 == ((s % 7) + 6) % 7) by (nonlinear_arith);
            }
            self.filter_status_index = (s % 7 + 6) % 7;
            FilterKeyOutcome::Done
        } else if k == Key::Right && self.filter_focus == STATUS_FOCUS {
            let s = self.filter_status_index;
            proof {
                assert((s + 1) % 7 == ((s % 7) + 1) % 7) by (nonlinear_arith);
            }
            self.filter_status_index = (s % 7 + 1) % 7;
            FilterKeyOutcome::Done
        } else if self.filter_focus < STATUS_FOCUS {
            FilterKeyOutcome::Edit(self.filter_focus)
        } else {
            FilterKeyOutcome::Done
        }
    }
}

/// Opening the dialog and applying it unedited gives back every filter that is already
/// trimmed (and not empty).
pub proof fn lemma_filter_field_round_trip(f: Option<String>)
    requires
        f matches Some(t) ==> trim(t@) == t@ && t@.len() > 0,
    ensures
        filter_of(field_text(f)) == opt_str_view(f),
{
    if f is None {
        let e = Seq::<char>::empty();
        assert(crate::text::trim_end(e) == e);
        assert(crate::text::trim_start(e) == e);
    }
}

/// A filter as a query parameter, when it is set.
pub open spec fn query_param(name: Seq<char>, f: Option<String>) -> Seq<(Seq<char>, Seq<char>)> {
    match f {
        Some(v) => seq![(name, v@)],
        None => Seq::empty(),
    }
}

/// The query parameters of the run list: each filter that is set, in this order: owner,
/// workflow name, repository, workflow path, created after, created before, status.
pub open spec fn runs_query_params(a: App) -> Seq<(Seq<char>, Seq<char>)> {
    query_param("initiating_user"@, a.filter_owner) + query_param("workflow_name"@, a.filter_name)
        + query_param("repo_url"@, a.filter_repo_url) + query_param("workflow_path"@, a.filter_workflow_path)
        + query_param("created_after"@, a.filter_created_after) + query_param(
        "created_before"@,
        a.filter_created_before,
    ) + query_param("status"@, a.filter_status)
}

fn push_param(out: &mut Vec<(String, String)>, name: &str, f: &Option<String>)
    ensures
        crate::k8s_model::pairs_view(final(out)@) == crate::k8s_model::pairs_view(old(out)@) + query_param(name@, *f),
{
    let ghost before = out@;
    match f {
        Some(v) => {
            out.push((owned(name), v.clone()));
            assert(crate::k8s_model::pairs_view(out@) =~= crate::k8s_model::pairs_view(before) + query_param(name@, *f));
        },
        None => {
            assert(crate::k8s_model::pairs_view(out@) =~= crate::k8s_model::pairs_view(before) + query_param(name@, *f));
        },
    }
}

impl App {
    /// The query parameters that fetch the run list under the current filters, as
    /// `runs_query_params` says.
    pub fn runs_query(&self) -> (r: Vec<(String, String)>)
        ensures
            crate::k8s_model::pairs_view(r@) == runs_query_params(*self),
    {
        let mut out: Vec<(String, String)> = Vec::new();
        assert(crate::k8s_model::pairs_view(out@) =~= Seq::<(Seq<char>, Seq<char>)>::empty());
        push_param(&mut out, "initiating_user", &self.filter_owner);
        push_param(&mut out, "workflow_name", &self.filter_name);
        push_param(&mut out, "repo_url", &self.filter_repo_url);
        push_param(&mut out, "workflow_path", &self.filter_workflow_path);
        push_param(&mut out, "created_after", &self.filter_created_after);
        push_param(&mut out, "created_before", &self.filter_created_before);
        push_param(&mut out, "status", &self.filter_status);
        assert(crate::k8s_model::pairs_view(out@) =~= runs_query_params(*self));
        out
    }
}

} // verus!

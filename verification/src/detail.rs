//! The text of the run detail pane: the run's summary, its steps with their timing and, for
//! the selected step, its history, and the artifacts the run published.
use vstd::prelude::*;
use crate::app::{FullRunView, RunStatus, RunView, StepDetail, StepView, WorkflowRunFullDetail, WorkflowRunDetail};
use crate::decode::{member_json, member_json_exec, members_or_empty, items_in, read_items, MemberSeq};
use crate::display::{display_format, format_status, format_time_str, local_time_shape, rfc3339_nanos, status_label};
use crate::json::{members_view, string_member, string_member_exec};
use crate::k8s_model::{opt_str_view, strs_view};
use crate::markers::read_object_members;
use crate::naming::{lowercase_text, parse_uuid, to_lowercase, uuid_parsed, uuid_string, uuid_text};
use crate::text::{chars_of, concat_str, owned, string_from_chars};

verus! {

// ---------------------------------------------------------------- outside formatting

/// chrono's text of the UTC instant `ms` milliseconds after the epoch in `format`, or `None`
/// when chrono cannot represent that instant.
pub uninterp spec fn utc_time_text(ms: i64, format: Seq<char>) -> Option<Seq<char>>;

/// chrono's `DateTime::from_timestamp_millis` followed by `format`; named `utc_time_text`.
#[verifier::external_body]
pub(crate) fn read_utc_time(ms: i64, format: &str) -> (r: Option<String>)
    requires
        format@ == display_format(),
    ensures
        opt_str_view(r) == utc_time_text(ms, format@),
{
    chrono::DateTime::from_timestamp_millis(ms).map(|d| d.format(format).to_string())
}

/// The time from `start` to `end`, both read as RFC 3339 times, as whole seconds and
/// nanoseconds; zero when `end` comes first; `None` when either is no such time.
pub uninterp spec fn rfc3339_span(start: Seq<char>, end: Seq<char>) -> Option<(u64, u32)>;

/// chrono's `DateTime::parse_from_rfc3339` of both texts, their difference and its
/// `to_std` (zero when negative), as seconds and nanoseconds; named `rfc3339_span`. It is
/// there exactly when chrono reads both texts; the nanoseconds stay under a second.
#[verifier::external_body]
pub(crate) fn read_rfc3339_span(start: &str, end: &str) -> (r: Option<(u64, u32)>)
    ensures
        r == rfc3339_span(start@, end@),
        r is Some <==> (rfc3339_nanos(start@) is Some && rfc3339_nanos(end@) is Some),
        r matches Some((_, n)) ==> n < 1_000_000_000,
{
    let s = chrono::DateTime::parse_from_rfc3339(start).ok()?;
    let f = chrono::DateTime::parse_from_rfc3339(end).ok()?;
    let d = (f - s).to_std().unwrap_or(std::time::Duration::ZERO);
    Some((d.as_secs(), d.subsec_nanos()))
}

/// What humantime's `format_duration` writes for a duration of `secs` seconds and `nanos`
/// nanoseconds (such as `2h 37m` or `32ms`).
pub uninterp spec fn duration_text(secs: u64, nanos: u32) -> Seq<char>;

/// humantime's `format_duration` of `Duration::new(secs, nanos)`, written out; named
/// `duration_text`. A zero duration is written `0s`.
#[verifier::external_body]
pub(crate) fn format_duration(secs: u64, nanos: u32) -> (r: String)
    requires
        nanos < 1_000_000_000,
    ensures
        r@ == duration_text(secs, nanos),
        secs == 0 && nanos == 0 ==> r@ == "0s"@,
{
    humantime::format_duration(std::time::Duration::new(secs, nanos)).to_string()
}

// ---------------------------------------------------------------- text pieces

pub open spec fn text_or(o: Option<Seq<char>>, d: Seq<char>) -> Seq<char> {
    match o {
        Some(t) => t,
        None => d,
    }
}

/// `s` padded with spaces on the right to `w` characters, as `{:<w}` writes it.
pub open spec fn pad(s: Seq<char>, w: nat) -> Seq<char> {
    if s.len() >= w {
        s
    } else {
        s + Seq::new((w - s.len()) as nat, |_i: int| ' ')
    }
}

/// The lowercase text of a run status.
pub open spec fn run_status_text(s: RunStatus) -> Seq<char> {
    match s {
        RunStatus::Queued => "queued"@,
        RunStatus::Resolving => "resolving"@,
        RunStatus::StartPending => "start_pending"@,
        RunStatus::Running => "running"@,
        RunStatus::Succeeded => "succeeded"@,
        RunStatus::Failed => "failed"@,
        RunStatus::Aborted => "aborted"@,
        RunStatus::Unknown => "unknown"@,
    }
}

/// The duration of a run that ran from `created` to `finished` (milliseconds), as seconds
/// and nanoseconds; zero when it finished before it was created.
pub open spec fn run_span(created: i64, finished: i64) -> (u64, u32) {
    let d = finished - created;
    if d <= 0 {
        (0, 0)
    } else {
        ((d / 1000) as u64, ((d % 1000) * 1_000_000) as u32)
    }
}

/// How a time text is shown: as local time when it reads as RFC 3339, as it is otherwise.
pub open spec fn time_shown(raw: Seq<char>, shown: Seq<char>) -> bool {
    &&& rfc3339_nanos(raw) is None ==> shown == raw
    &&& rfc3339_nanos(raw) is Some ==> local_time_shape(shown)
}

// ---------------------------------------------------------------- the run

pub open spec fn header_lines(d: RunView) -> Seq<Seq<char>> {
    seq![
        "Workflow: "@ + d.workflow_name,
        "Run ID: "@ + uuid_text(d.id),
        "Status: "@ + status_label(lowercase_text(run_status_text(d.status))),
        "Created: "@ + text_or(utc_time_text(d.created_at_ms, display_format()), Seq::empty()),
        "User: "@ + d.initiating_user,
    ] + match d.finished_at_ms {
        Some(f) => seq![
            "Finished: "@ + text_or(utc_time_text(f, display_format()), Seq::empty()),
            "Duration: "@ + duration_text(run_span(d.created_at_ms, f).0, run_span(d.created_at_ms, f).1),
        ],
        None => Seq::empty(),
    } + seq![
        Seq::empty(),
        "Steps:"@,
        "Name                 | Status                              | Started At"@,
        "---------------------|-------------------------------------|---------------------"@,
    ]
}

// ---------------------------------------------------------------- steps

/// The members of a step's instance.
pub open spec fn instance_of(st: StepView) -> MemberSeq {
    match member_json(members_or_empty(st.display_json), "instance"@) {
        Some(t) => members_or_empty(t),
        None => Seq::empty(),
    }
}

/// When the step started: its `started_at`, else its `created_at`.
pub open spec fn started_raw(st: StepView) -> Option<Seq<char>> {
    match string_member(instance_of(st), "started_at"@) {
        Some(t) => Some(t),
        None => string_member(instance_of(st), "created_at"@),
    }
}

pub open spec fn finished_raw(st: StepView) -> Option<Seq<char>> {
    string_member(instance_of(st), "finished_at"@)
}

/// The step's history entries, each as JSON text.
pub open spec fn history_of(st: StepView) -> Seq<Seq<char>> {
    match member_json(members_or_empty(st.display_json), "history"@) {
        Some(h) => items_in(h),
        None => Seq::empty(),
    }
}

pub open spec fn history_time(entry: Seq<char>) -> Option<Seq<char>> {
    string_member(members_or_empty(entry), "created_at"@)
}

/// The local times a step's lines show: when it started, and when each history entry was
/// made (read only for the selected step).
pub type StepTimes = (Option<Seq<char>>, Seq<Option<Seq<char>>>);

/// A local time fits its raw time: there exactly when the raw time is, and shown from it.
pub open spec fn opt_time_fits(raw: Option<Seq<char>>, shown: Option<Seq<char>>) -> bool {
    match raw {
        Some(r) => shown matches Some(s) && time_shown(r, s),
        None => shown is None,
    }
}

/// The local times fit the step: each is shown from its raw time.
pub open spec fn times_fit(st: StepView, selected: bool, t: StepTimes) -> bool {
    &&& opt_time_fits(started_raw(st), t.0)
    &&& selected ==> t.1.len() == history_of(st).len() && forall|k: int|
        0 <= k < t.1.len() ==> opt_time_fits(history_time(history_of(st)[k]), #[trigger] t.1[k])
}

/// The status column of a step: its label, with the time it took when both its start and
/// its end read as RFC 3339 times.
pub open spec fn status_column(st: StepView) -> Seq<char> {
    let label = status_label(text_or(st.status, "unknown"@));
    match (started_raw(st), finished_raw(st)) {
        (Some(s), Some(f)) => match rfc3339_span(s, f) {
            Some((secs, n)) => pad(label, 15) + " ("@ + duration_text(secs, n) + ")"@,
            None => label,
        },
        _ => label,
    }
}

pub open spec fn step_row(st: StepView, selected: bool, started: Option<Seq<char>>) -> Seq<char> {
    (if selected { ">> "@ } else { "   "@ }) + pad(text_or(st.name, "unknown"@), 17) + " | "@ + pad(
        status_column(st),
        35,
    ) + " | "@ + text_or(started, "-"@)
}

pub open spec fn timing_lines(st: StepView) -> Seq<Seq<char>> {
    match (started_raw(st), finished_raw(st)) {
        (Some(s), Some(f)) => if st.status == Some("succeeded"@) {
            seq!["       └─ Detailed Timing: Started at "@ + s + ", Finished at "@ + f]
        } else {
            Seq::empty()
        },
        _ => Seq::empty(),
    }
}

pub open spec fn history_line(entry: Seq<char>, shown: Option<Seq<char>>) -> Seq<char> {
    "       └─ "@ + pad(status_label(text_or(string_member(members_or_empty(entry), "status"@), "unknown"@)), 15)
        + " at "@ + text_or(shown, "-"@)
}

pub open spec fn step_lines(st: StepView, selected: bool, t: StepTimes) -> Seq<Seq<char>> {
    seq![step_row(st, selected, t.0)] + timing_lines(st) + if selected {
        Seq::new(history_of(st).len(), |k: int| history_line(history_of(st)[k], t.1[k]))
    } else {
        Seq::empty()
    }
}

/// The lines of the first `n` steps.
pub open spec fn steps_lines(steps: Seq<StepView>, sel: Option<usize>, times: Seq<StepTimes>, n: nat) -> Seq<Seq<char>>
    decreases n,
{
    if n == 0 {
        Seq::empty()
    } else {
        steps_lines(steps, sel, times, (n - 1) as nat) + step_lines(
            steps[n - 1],
            sel == Some((n - 1) as usize),
            times[n - 1],
        )
    }
}

// ---------------------------------------------------------------- artifacts

pub open spec fn artifact_items(run: FullRunView) -> Seq<Seq<char>> {
    match member_json(members_or_empty(run.attachments_json), "artifacts"@) {
        Some(a) => items_in(a),
        None => Seq::empty(),
    }
}

/// A step instance id as its hyphenated UUID when it reads as one.
pub open spec fn id_text_of(raw: Seq<char>) -> Seq<char> {
    match uuid_parsed(raw) {
        Some(u) => uuid_text(u),
        None => raw,
    }
}

/// The first step at or after `i` whose instance id is `id`.
pub open spec fn step_with_id(steps: Seq<StepView>, id: Seq<char>, i: int) -> Option<int>
    decreases steps.len() - i,
{
    if i < 0 || i >= steps.len() {
        None
    } else if string_member(instance_of(steps[i]), "id"@) == Some(id) {
        Some(i)
    } else {
        step_with_id(steps, id, i + 1)
    }
}

/// An artifact's line: its name and the name of the step that published it (the step's id
/// when no step with a name has it).
pub open spec fn artifact_line(steps: Seq<StepView>, item: Seq<char>) -> Seq<char> {
    let am = members_or_empty(item);
    let id = id_text_of(text_or(string_member(am, "step_instance_id"@), Seq::empty()));
    let step_name = match step_with_id(steps, id, 0) {
        Some(k) => text_or(string_member(instance_of(steps[k]), "step_name"@), id),
        None => id,
    };
    pad(text_or(string_member(am, "artifact_name"@), Seq::empty()), 40) + " | "@ + step_name
}

pub open spec fn artifact_lines(run: FullRunView) -> Seq<Seq<char>> {
    let items = artifact_items(run);
    if items.len() == 0 {
        Seq::empty()
    } else {
        seq![
            Seq::empty(),
            "Published Artifacts:"@,
            "Name                                     | Step Name"@,
            "-----------------------------------------|-------------------------------------"@,
        ] + Seq::new(items.len(), |k: int| artifact_line(run.steps, items[k]))
    }
}

/// The detail pane's lines for a run, the step at `sel` being selected, with the given
/// local times of its steps.
pub open spec fn run_detail_spec(run: FullRunView, sel: Option<usize>, times: Seq<StepTimes>) -> Seq<Seq<char>> {
    header_lines(run.detail) + steps_lines(run.steps, sel, times, run.steps.len()) + artifact_lines(run)
}

// ---------------------------------------------------------------- building the lines

fn pad_exec(s: String, w: usize) -> (r: String)
    ensures
        r@ == pad(s@, w as nat),
{
    let cs = chars_of(s.as_str());
    if cs.len() >= w {
        return s;
    }
    let ghost n0 = s@.len();
    let mut out = cs;
    while out.len() < w
        invariant
            n0 == s@.len(),
            n0 <= out@.len() <= w,
            out@ == s@ + Seq::new((out@.len() - n0) as nat, |_i: int| ' '),
        decreases w - out@.len(),
    {
        let ghost before = out@;
        out.push(' ');
        assert(out@ =~= s@ + Seq::new((out@.len() - n0) as nat, |_i: int| ' '));
    }
    string_from_chars(&out)
}

fn run_status_text_exec(s: RunStatus) -> (r: String)
    ensures
        r@ == run_status_text(s),
{
    match s {
        RunStatus::Queued => owned("queued"),
        RunStatus::Resolving => owned("resolving"),
        RunStatus::StartPending => owned("start_pending"),
        RunStatus::Running => owned("running"),
        RunStatus::Succeeded => owned("succeeded"),
        RunStatus::Failed => owned("failed"),
        RunStatus::Aborted => owned("aborted"),
        RunStatus::Unknown => owned("unknown"),
    }
}

fn run_span_exec(created: i64, finished: i64) -> (r: (u64, u32))
    ensures
        r == run_span(created, finished),
        r.1 < 1_000_000_000,
{
    let d: i128 = finished as i128 - created as i128;
    if d <= 0 {
        (0, 0)
    } else {
        let secs: i128 = d / 1000;
        let rest: i128 = d % 1000;
        assert(0 <= secs <= u64::MAX);
        assert(0 <= rest < 1000);
        (secs as u64, (rest * 1_000_000) as u32)
    }
}

fn push_line(out: &mut Vec<String>, line: String)
    ensures
        strs_view(final(out)@) == strs_view(old(out)@).push(line@),
{
    out.push(line);
    assert(strs_view(out@) =~= strs_view(old(out)@).push(line@));
}

fn append_lines(out: &mut Vec<String>, lines: Vec<String>)
    ensures
        strs_view(final(out)@) == strs_view(old(out)@) + strs_view(lines@),
{
    let ghost start = strs_view(out@);
    let ghost all = strs_view(lines@);
    let mut i: usize = 0;
    while i < lines.len()
        invariant
            i <= lines@.len(),
            all == strs_view(lines@),
            strs_view(out@) == start + all.take(i as int),
        decreases lines@.len() - i,
    {
        let line = lines[i].clone();
        assert(line@ == all[i as int]);
        push_line(out, line);
        assert(strs_view(out@) =~= start + all.take(i + 1));
        i = i + 1;
    }
    assert(all.take(lines@.len() as int) =~= all);
}

fn header_lines_exec(d: &WorkflowRunDetail) -> (r: Vec<String>)
    ensures
        strs_view(r@) == header_lines(d@),
{
    let fmt = "%Y-%m-%d %H:%M:%S";
    proof {
        reveal_strlit("%Y-%m-%d %H:%M:%S");
    }
    let mut out: Vec<String> = Vec::new();
    push_line(&mut out, concat_str("Workflow: ", d.workflow_name.as_str()));
    push_line(&mut out, concat_str("Run ID: ", uuid_string(d.id).as_str()));
    let status = to_lowercase(run_status_text_exec(d.status).as_str());
    push_line(&mut out, concat_str("Status: ", format_status(status.as_str()).as_str()));
    let created = match read_utc_time(d.created_at_ms, fmt) {
        Some(t) => t,
        None => String::new(),
    };
    push_line(&mut out, concat_str("Created: ", created.as_str()));
    push_line(&mut out, concat_str("User: ", d.initiating_user.as_str()));
    let ghost five = strs_view(out@);
    match d.finished_at_ms {
        Some(f) => {
            let finished = match read_utc_time(f, fmt) {
                Some(t) => t,
                None => String::new(),
            };
            push_line(&mut out, concat_str("Finished: ", finished.as_str()));
            let span = run_span_exec(d.created_at_ms, f);
            push_line(&mut out, concat_str("Duration: ", format_duration(span.0, span.1).as_str()));
        },
        None => {},
    }
    push_line(&mut out, String::new());
    push_line(&mut out, owned("Steps:"));
    push_line(&mut out, owned("Name                 | Status                              | Started At"));
    push_line(&mut out, owned("---------------------|-------------------------------------|---------------------"));
    assert(strs_view(out@) =~= header_lines(d@));
    out
}

fn members_of(text: &String) -> (m: Vec<(String, Option<String>, String)>)
    ensures
        members_view(m@) == members_or_empty(text@),
{
    match read_object_members(text.as_str()) {
        Some(m) => m,
        None => {
            let v: Vec<(String, Option<String>, String)> = Vec::new();
            assert(members_view(v@) =~= Seq::<(Seq<char>, Option<Seq<char>>, Seq<char>)>::empty());
            v
        },
    }
}

fn instance_members(st: &StepDetail) -> (m: Vec<(String, Option<String>, String)>)
    ensures
        members_view(m@) == instance_of(st@),
{
    let outer = members_of(&st.display_json);
    match member_json_exec(&outer, "instance") {
        Some(t) => members_of(&t),
        None => {
            let v: Vec<(String, Option<String>, String)> = Vec::new();
            assert(members_view(v@) =~= Seq::<(Seq<char>, Option<Seq<char>>, Seq<char>)>::empty());
            v
        },
    }
}

fn or_text(o: Option<String>, d: &str) -> (r: String)
    ensures
        r@ == text_or(opt_str_view(o), d@),
{
    match o {
        Some(t) => t,
        None => owned(d),
    }
}

fn shown_time(raw: &Option<String>) -> (r: Option<String>)
    ensures
        opt_time_fits(opt_str_view(*raw), opt_str_view(r)),
{
    match raw {
        Some(t) => Some(format_time_str(t.as_str())),
        None => None,
    }
}

fn history_lines_exec(st: &StepDetail) -> (r: (Vec<String>, Ghost<Seq<Option<Seq<char>>>>))
    ensures
        r.1@.len() == history_of(st@).len(),
        forall|k: int| 0 <= k < r.1@.len() ==> opt_time_fits(history_time(history_of(st@)[k]), #[trigger] r.1@[k]),
        strs_view(r.0@) == Seq::new(history_of(st@).len(), |k: int| history_line(history_of(st@)[k], r.1@[k])),
{
    let outer = members_of(&st.display_json);
    let items = match member_json_exec(&outer, "history") {
        Some(h) => read_items(h.as_str()),
        None => {
            let v: Vec<String> = Vec::new();
            assert(strs_view(v@) =~= Seq::<Seq<char>>::empty());
            v
        },
    };
    let ghost h = history_of(st@);
    assert(strs_view(items@) == h);
    let mut out: Vec<String> = Vec::new();
    let ghost mut shown: Seq<Option<Seq<char>>> = Seq::empty();
    let mut k: usize = 0;
    while k < items.len()
        invariant
            k <= items@.len(),
            strs_view(items@) == h,
            shown.len() == k,
            forall|j: int| 0 <= j < k ==> opt_time_fits(history_time(h[j]), #[trigger] shown[j]),
            strs_view(out@) == Seq::new(k as nat, |j: int| history_line(h[j], shown[j])),
        decreases items@.len() - k,
    {
        let em = members_of(&items[k]);
        assert(items@[k as int]@ == h[k as int]);
        let status = or_text(string_member_exec(&em, "status"), "unknown");
        let at = string_member_exec(&em, "created_at");
        let t = shown_time(&at);
        let line = concat_str(
            concat_str(concat_str("       └─ ", pad_exec(format_status(status.as_str()), 15).as_str()).as_str(), " at ").as_str(),
            or_text(t, "-").as_str(),
        );
        let ghost before = strs_view(out@);
        push_line(&mut out, line);
        proof {
            shown = shown.push(opt_str_view(t));
            assert(strs_view(out@) =~= Seq::new((k + 1) as nat, |j: int| history_line(h[j], shown[j])));
        }
        k = k + 1;
    }
    (out, Ghost(shown))
}

fn step_lines_exec(st: &StepDetail, selected: bool) -> (r: (Vec<String>, Ghost<StepTimes>))
    ensures
        times_fit(st@, selected, r.1@),
        strs_view(r.0@) == step_lines(st@, selected, r.1@),
{
    let m = instance_members(st);
    let started = match string_member_exec(&m, "started_at") {
        Some(t) => Some(t),
        None => string_member_exec(&m, "created_at"),
    };
    let finished = string_member_exec(&m, "finished_at");
    let status = match &st.status {
        Some(s) => s.clone(),
        None => owned("unknown"),
    };
    let label = format_status(status.as_str());
    let column = match (&started, &finished) {
        (Some(s), Some(f)) => match read_rfc3339_span(s.as_str(), f.as_str()) {
            Some((secs, n)) => concat_str(
                concat_str(concat_str(pad_exec(label, 15).as_str(), " (").as_str(), format_duration(secs, n).as_str()).as_str(),
                ")",
            ),
            None => label,
        },
        _ => label,
    };
    let name = match &st.name {
        Some(n) => n.clone(),
        None => owned("unknown"),
    };
    let started_shown = shown_time(&started);
    let prefix = if selected { owned(">> ") } else { owned("   ") };
    let row = concat_str(
        concat_str(
            concat_str(concat_str(prefix.as_str(), pad_exec(name, 17).as_str()).as_str(), " | ").as_str(),
            pad_exec(column, 35).as_str(),
        ).as_str(),
        " | ",
    );
    let row = concat_str(row.as_str(), or_text(started_shown, "-").as_str());
    let mut out: Vec<String> = Vec::new();
    push_line(&mut out, row);
    let succeeded = owned("succeeded");
    let is_succeeded = match &st.status {
        Some(s) => *s == succeeded,
        None => false,
    };
    match (&started, &finished) {
        (Some(s), Some(f)) => {
            if is_succeeded {
                let line = concat_str(
                    concat_str(concat_str("       └─ Detailed Timing: Started at ", s.as_str()).as_str(), ", Finished at ").as_str(),
                    f.as_str(),
                );
                push_line(&mut out, line);
            }
        },
        _ => {},
    }
    proof {
        reveal_strlit("succeeded");
    }
    assert(strs_view(out@) =~= seq![step_row(st@, selected, opt_str_view(started_shown))] + timing_lines(st@));
    if selected {
        let (hl, Ghost(hs)) = history_lines_exec(st);
        append_lines(&mut out, hl);
        let ghost t: StepTimes = (opt_str_view(started_shown), hs);
        assert(strs_view(out@) =~= step_lines(st@, selected, t));
        (out, Ghost(t))
    } else {
        let ghost t: StepTimes = (opt_str_view(started_shown), Seq::empty());
        assert(strs_view(out@) =~= step_lines(st@, selected, t));
        (out, Ghost(t))
    }
}

fn artifact_line_exec(steps: &Vec<StepDetail>, item: &String) -> (r: String)
    ensures
        r@ == artifact_line(crate::app::steps_view(steps@), item@),
{
    let ghost sv = crate::app::steps_view(steps@);
    proof {
        reveal_strlit("");
        assert(""@ =~= Seq::<char>::empty());
    }
    let am = members_of(item);
    let raw = or_text(string_member_exec(&am, "step_instance_id"), "");
    let id = match parse_uuid(raw.as_str()) {
        Some(u) => uuid_string(u),
        None => raw,
    };
    let mut found: Option<usize> = None;
    let mut k: usize = 0;
    while k < steps.len()
        invariant
            k <= steps@.len(),
            sv == crate::app::steps_view(steps@),
            found is None ==> step_with_id(sv, id@, 0) == step_with_id(sv, id@, k as int),
            found matches Some(j) ==> j < steps@.len() && step_with_id(sv, id@, 0) == Some(j as int),
        decreases steps@.len() - k,
    {
        if found.is_none() {
            let m = instance_members(&steps[k]);
            assert(sv[k as int] == steps@[k as int]@);
            let hit = match string_member_exec(&m, "id") {
                Some(x) => x == id,
                None => false,
            };
            if hit {
                found = Some(k);
            }
        }
        k = k + 1;
    }
    let ghost am_v = members_view(am@);
    assert(id@ == id_text_of(text_or(string_member(am_v, "step_instance_id"@), Seq::empty())));
    let step_name = match found {
        Some(j) => {
            let m = instance_members(&steps[j]);
            assert(sv[j as int] == steps@[j as int]@);
            or_text(string_member_exec(&m, "step_name"), id.as_str())
        },
        None => id,
    };
    assert(step_name@ == match step_with_id(sv, id@, 0) {
        Some(k) => text_or(string_member(instance_of(sv[k]), "step_name"@), id@),
        None => id@,
    });
    let name = or_text(string_member_exec(&am, "artifact_name"), "");
    concat_str(concat_str(pad_exec(name, 40).as_str(), " | ").as_str(), step_name.as_str())
}

proof fn lemma_steps_lines_prefix(steps: Seq<StepView>, sel: Option<usize>, times: Seq<StepTimes>, t: StepTimes, n: nat)
    requires
        n <= times.len(),
    ensures
        steps_lines(steps, sel, times.push(t), n) == steps_lines(steps, sel, times, n),
    decreases n,
{
    if n > 0 {
        lemma_steps_lines_prefix(steps, sel, times, t, (n - 1) as nat);
        assert(times.push(t)[n - 1] == times[n - 1]);
    }
}

/// The lines of the run detail pane for `run`, the step at `selected_step` being selected
/// (`None` when the pane is not active): the run's summary, a row per step with its status,
/// the time it took and when it started, the selected step's history, and the published
/// artifacts with the names of their steps. Times are shown in local time; which local
/// times depend on the machine's time zone, so the lines are stated for the local times
/// shown, each of which fits the time it was read from.
pub fn run_detail_lines(run: &WorkflowRunFullDetail, selected_step: Option<usize>) -> (r: Vec<String>)
    ensures
        exists|times: Seq<StepTimes>|
            {
                &&& times.len() == run@.steps.len()
                &&& forall|i: int|
                    0 <= i < times.len() ==> times_fit(run@.steps[i], selected_step == Some(i as usize), #[trigger] times[i])
                &&& strs_view(r@) == run_detail_spec(run@, selected_step, times)
            },
{
    let ghost sv = run@.steps;
    let mut out = header_lines_exec(&run.detail);
    let ghost mut times: Seq<StepTimes> = Seq::empty();
    let mut i: usize = 0;
    while i < run.steps.len()
        invariant
            i <= run.steps@.len(),
            sv == run@.steps,
            sv == crate::app::steps_view(run.steps@),
            times.len() == i,
            forall|j: int| 0 <= j < i ==> times_fit(sv[j], selected_step == Some(j as usize), #[trigger] times[j]),
            strs_view(out@) == header_lines(run.detail@) + steps_lines(sv, selected_step, times, i as nat),
        decreases run.steps@.len() - i,
    {
        let here = match selected_step {
            Some(s) => s == i,
            None => false,
        };
        assert(sv[i as int] == run.steps@[i as int]@);
        let (lines, Ghost(t)) = step_lines_exec(&run.steps[i], here);
        let ghost before = strs_view(out@);
        append_lines(&mut out, lines);
        proof {
            lemma_steps_lines_prefix(sv, selected_step, times, t, i as nat);
            times = times.push(t);
            assert(times[i as int] == t);
            assert(strs_view(out@) =~= header_lines(run.detail@) + steps_lines(sv, selected_step, times, (i + 1) as nat));
        }
        i = i + 1;
    }
    let outer = members_of(&run.attachments_json);
    let items = match member_json_exec(&outer, "artifacts") {
        Some(a) => read_items(a.as_str()),
        None => {
            let v: Vec<String> = Vec::new();
            assert(strs_view(v@) =~= Seq::<Seq<char>>::empty());
            v
        },
    };
    let ghost items_v = artifact_items(run@);
    assert(strs_view(items@) == items_v);
    let ghost body = strs_view(out@);
    if items.len() > 0 {
        push_line(&mut out, String::new());
        push_line(&mut out, owned("Published Artifacts:"));
        push_line(&mut out, owned("Name                                     | Step Name"));
        push_line(&mut out, owned("-----------------------------------------|-------------------------------------"));
        let ghost head = strs_view(out@);
        let mut k: usize = 0;
        while k < items.len()
            invariant
                k <= items@.len(),
                strs_view(items@) == items_v,
                sv == crate::app::steps_view(run.steps@),
                sv == run@.steps,
                strs_view(out@) == head + Seq::new(k as nat, |j: int| artifact_line(sv, items_v[j])),
            decreases items@.len() - k,
        {
            let line = artifact_line_exec(&run.steps, &items[k]);
            push_line(&mut out, line);
            assert(strs_view(out@) =~= head + Seq::new((k + 1) as nat, |j: int| artifact_line(sv, items_v[j])));
            k = k + 1;
        }
        assert(strs_view(out@) =~= body + artifact_lines(run@));
    } else {
        assert(strs_view(out@) =~= body + artifact_lines(run@));
    }
    assert(strs_view(out@) == run_detail_spec(run@, selected_step, times));
    out
}

} // verus!

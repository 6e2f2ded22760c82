//! Reading what the runner is handed: the step a JSON object describes, a task's event,
//! and the labels and annotations of a Job that no runner watches any more.
use vstd::prelude::*;
use crate::json::{
    json_shape, json_string, json_string_text, members_view, read_json_shape, string_member, string_member_exec,
    JsonShape, JsonShapeView,
};
use crate::k8s_model::{opt_pairs_view, opt_str_view, pairs_view, strs_view};
use crate::markers::{json_object_members, json_value_entries, read_object_members, read_value_entries};
use crate::model::{JobMetadata, ProvisionEntry, Step, StepView, StorageEntry, StorageUrls};
use crate::naming::{parse_uuid, uuid_parsed};
use crate::display::{read_rfc3339, rfc3339_nanos};
use crate::schema::{given_text, lookup_given};
use crate::task::{dsl_source, fencing_token_of, reconstruct_step, task_step, DslSource};
use crate::text::{concat_str, int_syntax, owned, parse_int_in};

verus! {

/// An object's members as plain values: name, string value when it is a string, compact text.
pub type MemberSeq = Seq<(Seq<char>, Option<Seq<char>>, Seq<char>)>;

/// The position of the last member named `key`.
pub open spec fn member_index(m: MemberSeq, key: Seq<char>) -> Option<int>
    decreases m.len(),
{
    if m.len() == 0 {
        None
    } else if m.last().0 == key {
        Some(m.len() - 1)
    } else {
        member_index(m.drop_last(), key)
    }
}

/// The compact text of the last member named `key`.
pub open spec fn member_json(m: MemberSeq, key: Seq<char>) -> Option<Seq<char>> {
    match member_index(m, key) {
        Some(i) => Some(m[i].2),
        None => None,
    }
}

/// A member's value as text: the string itself for a string, else its compact JSON.
pub open spec fn value_text_of(x: (Seq<char>, Option<Seq<char>>, Seq<char>)) -> Seq<char> {
    match x.1 {
        Some(s) => s,
        None => x.2,
    }
}

/// The members of a JSON object as (name, value text) pairs; none when the text is no object.
pub open spec fn params_in(text: Seq<char>) -> Seq<(Seq<char>, Seq<char>)> {
    match json_object_members(text) {
        Some(m) => m.map_values(|x: (Seq<char>, Option<Seq<char>>, Seq<char>)| (x.0, value_text_of(x))),
        None => Seq::empty(),
    }
}

/// The items of a JSON array, each as compact text; none when the text is no array.
pub open spec fn items_in(text: Seq<char>) -> Seq<Seq<char>> {
    match json_shape(text) {
        Some(JsonShapeView::Items(v)) => v,
        _ => Seq::empty(),
    }
}

/// A text read as an `i32`.
pub open spec fn i32_of(text: Seq<char>) -> Option<i32> {
    match int_syntax(text) {
        Some(v) => if i32::MIN <= v <= i32::MAX {
            Some(v as i32)
        } else {
            None
        },
        None => None,
    }
}

/// The `count` of a retry policy object, when it is an `i32`.
pub open spec fn retry_count_in(text: Seq<char>) -> Option<i32> {
    match json_object_members(text) {
        Some(m) => match member_json(m, "count"@) {
            Some(c) => i32_of(c),
            None => None,
        },
        None => None,
    }
}

/// Whether a member is one the step model reads into a field of its own.
pub open spec fn is_step_field(name: Seq<char>) -> bool {
    name == "name"@ || name == "type"@ || name == "spec"@ || name == "params"@ || name == "reports"@
}

/// The members the step model keeps as they came: all but its own fields, in order.
pub open spec fn other_members(m: MemberSeq) -> Seq<(Seq<char>, Seq<char>)>
    decreases m.len(),
{
    if m.len() == 0 {
        Seq::empty()
    } else if is_step_field(m.last().0) {
        other_members(m.drop_last())
    } else {
        other_members(m.drop_last()).push((m.last().0, m.last().2))
    }
}

/// The step an object's members describe: `name` and `type` must be strings; `spec` is
/// `null` when absent; `params` are the members of the `params` object; `reports` the items
/// of the `reports` array; the retry count that of the `retry` object.
pub open spec fn step_of_members(m: MemberSeq) -> Option<StepView> {
    match (string_member(m, "name"@), string_member(m, "type"@)) {
        (Some(n), Some(t)) => Some(StepView {
            name: n,
            step_type: t,
            spec_json: match member_json(m, "spec"@) {
                Some(s) => s,
                None => "null"@,
            },
            params: match member_json(m, "params"@) {
                Some(p) => params_in(p),
                None => Seq::empty(),
            },
            reports: match member_json(m, "reports"@) {
                Some(r) => items_in(r),
                None => Seq::empty(),
            },
            retry_count: match member_json(m, "retry"@) {
                Some(r) => retry_count_in(r),
                None => None,
            },
            others: other_members(m),
        }),
        _ => None,
    }
}

/// The step a JSON text describes, when it is an object that describes one.
pub open spec fn step_of_text(text: Seq<char>) -> Option<StepView> {
    match json_object_members(text) {
        Some(m) => step_of_members(m),
        None => None,
    }
}

/// The position of the last member named `key`, as `member_index` says.
pub fn find_member(members: &Vec<(String, Option<String>, String)>, key: &str) -> (r: Option<usize>)
    ensures
        r is None ==> member_index(members_view(members@), key@) is None,
        r matches Some(j) ==> j < members@.len() && member_index(members_view(members@), key@) == Some(j as int),
{
    let k = owned(key);
    let mut found: Option<usize> = None;
    let mut i: usize = 0;
    while i < members.len()
        invariant
            i <= members@.len(),
            k@ == key@,
            found is None ==> member_index(members_view(members@.take(i as int)), key@) is None,
            found matches Some(j) ==> j < i && member_index(members_view(members@.take(i as int)), key@) == Some(
                j as int,
            ),
        decreases members@.len() - i,
    {
        let ghost t = members_view(members@.take(i + 1));
        assert(t.drop_last() =~= members_view(members@.take(i as int)));
        assert(t.last() == (members@[i as int].0@, opt_str_view(members@[i as int].1), members@[i as int].2@));
        if members[i].0 == k {
            found = Some(i);
        }
        i = i + 1;
    }
    assert(members@.take(members@.len() as int) =~= members@);
    found
}

/// The compact text of the last member named `key`, as `member_json` says.
pub fn member_json_exec(members: &Vec<(String, Option<String>, String)>, key: &str) -> (r: Option<String>)
    ensures
        opt_str_view(r) == member_json(members_view(members@), key@),
{
    match find_member(members, key) {
        Some(i) => Some(members[i].2.clone()),
        None => None,
    }
}

/// The members of a JSON object as (name, value text) pairs, as `params_in` says.
pub fn read_params(text: &str) -> (r: Vec<(String, String)>)
    ensures
        pairs_view(r@) == params_in(text@),
{
    let mut out: Vec<(String, String)> = Vec::new();
    match read_object_members(text) {
        Some(m) => {
            let ghost mv = members_view(m@);
            let mut i: usize = 0;
            while i < m.len()
                invariant
                    i <= m@.len(),
                    mv == members_view(m@),
                    pairs_view(out@) == mv.take(i as int).map_values(
                        |x: (Seq<char>, Option<Seq<char>>, Seq<char>)| (x.0, value_text_of(x)),
                    ),
                decreases m@.len() - i,
            {
                let ghost before = out@;
                let v = match &m[i].1 {
                    Some(s) => s.clone(),
                    None => m[i].2.clone(),
                };
                out.push((m[i].0.clone(), v));
                proof {
                    assert(mv[i as int] == (m@[i as int].0@, opt_str_view(m@[i as int].1), m@[i as int].2@));
                    assert(pairs_view(out@) =~= pairs_view(before).push((m@[i as int].0@, v@)));
                    assert(mv.take(i + 1) =~= mv.take(i as int).push(mv[i as int]));
                    assert(mv.take(i + 1).map_values(
                        |x: (Seq<char>, Option<Seq<char>>, Seq<char>)| (x.0, value_text_of(x)),
                    ) =~= mv.take(i as int).map_values(
                        |x: (Seq<char>, Option<Seq<char>>, Seq<char>)| (x.0, value_text_of(x)),
                    ).push((mv[i as int].0, value_text_of(mv[i as int]))));
                }
                i = i + 1;
            }
            assert(mv.take(m@.len() as int) =~= mv);
            out
        },
        None => {
            assert(pairs_view(out@) =~= Seq::<(Seq<char>, Seq<char>)>::empty());
            out
        },
    }
}

/// The items of a JSON array, as `items_in` says.
pub fn read_items(text: &str) -> (r: Vec<String>)
    ensures
        strs_view(r@) == items_in(text@),
{
    match read_json_shape(text) {
        Some(JsonShape::Items(v)) => v,
        _ => {
            let v: Vec<String> = Vec::new();
            assert(strs_view(v@) =~= Seq::<Seq<char>>::empty());
            v
        },
    }
}

/// The retry count of a retry policy object, as `retry_count_in` says.
pub fn read_retry_count(text: &str) -> (r: Option<i32>)
    ensures
        r == retry_count_in(text@),
{
    let m = read_object_members(text)?;
    let c = member_json_exec(&m, "count")?;
    match parse_int_in(c.as_str(), -2147483648i64, 2147483647i64) {
        Some(v) => Some(v as i32),
        None => None,
    }
}

/// The members the step model keeps as they came, as `other_members` says.
fn read_other_members(members: &Vec<(String, Option<String>, String)>) -> (r: Vec<(String, String)>)
    ensures
        pairs_view(r@) == other_members(members_view(members@)),
{
    let ghost mv = members_view(members@);
    let mut out: Vec<(String, String)> = Vec::new();
    let mut i: usize = 0;
    while i < members.len()
        invariant
            i <= members@.len(),
            mv == members_view(members@),
            pairs_view(out@) == other_members(mv.take(i as int)),
        decreases members@.len() - i,
    {
        let ghost t = mv.take(i + 1);
        assert(t.drop_last() =~= mv.take(i as int));
        assert(t.last() == (members@[i as int].0@, opt_str_view(members@[i as int].1), members@[i as int].2@));
        let n = &members[i].0;
        let own = *n == owned("name") || *n == owned("type") || *n == owned("spec") || *n == owned("params")
            || *n == owned("reports");
        if !own {
            let ghost before = out@;
            out.push((n.clone(), members[i].2.clone()));
            assert(pairs_view(out@) =~= pairs_view(before).push((members@[i as int].0@, members@[i as int].2@)));
        }
        i = i + 1;
    }
    assert(mv.take(members@.len() as int) =~= mv);
    out
}

/// The step an object's members describe, as `step_of_members` says.
pub fn step_from_members(members: &Vec<(String, Option<String>, String)>) -> (r: Option<Step>)
    ensures
        match step_of_members(members_view(members@)) {
            Some(v) => r is Some && r->0@ == v,
            None => r is None,
        },
{
    let name = string_member_exec(members, "name")?;
    let step_type = string_member_exec(members, "type")?;
    let spec_json = match member_json_exec(members, "spec") {
        Some(s) => s,
        None => owned("null"),
    };
    let params = match member_json_exec(members, "params") {
        Some(p) => read_params(p.as_str()),
        None => Vec::new(),
    };
    let reports_json = match member_json_exec(members, "reports") {
        Some(r) => read_items(r.as_str()),
        None => Vec::new(),
    };
    let retry_count = match member_json_exec(members, "retry") {
        Some(r) => read_retry_count(r.as_str()),
        None => None,
    };
    let others = read_other_members(members);
    let s = Step { name, step_type, spec_json, params, reports_json, retry_count, others };
    assert(s@.params =~= step_of_members(members_view(members@))->0.params);
    assert(s@.reports =~= step_of_members(members_view(members@))->0.reports);
    Some(s)
}

/// The step a JSON text describes, as `step_of_text` says.
pub fn step_from_text(text: &str) -> (r: Option<Step>)
    ensures
        match step_of_text(text@) {
            Some(v) => r is Some && r->0@ == v,
            None => r is None,
        },
{
    let m = read_object_members(text)?;
    step_from_members(&m)
}

// ---------------------------------------------------------------- writing a step

/// Texts joined with commas.
pub open spec fn comma_joined(items: Seq<Seq<char>>) -> Seq<char>
    decreases items.len(),
{
    if items.len() == 0 {
        Seq::empty()
    } else if items.len() == 1 {
        items[0]
    } else {
        comma_joined(items.drop_last()) + ","@ + items.last()
    }
}

/// A step written as a JSON object: its name and type as JSON strings, its spec as it is
/// kept, its parameters as an object of strings, its reports as an array, and its retry
/// count when it has one.
pub open spec fn step_json_text(s: StepView) -> Seq<char> {
    "{\"name\":"@ + json_string_text(s.name) + ",\"type\":"@ + json_string_text(s.step_type) + ",\"spec\":"@
        + s.spec_json + ",\"params\":{"@ + comma_joined(
        Seq::new(s.params.len(), |i: int| json_string_text(s.params[i].0) + ":"@ + json_string_text(s.params[i].1)),
    ) + "},\"reports\":["@ + comma_joined(s.reports) + "]"@ + members_after(s.others) + "}"@
}

/// Members written after others: each as a comma, its name as a JSON string, a colon and its
/// value text.
pub open spec fn members_after(o: Seq<(Seq<char>, Seq<char>)>) -> Seq<char>
    decreases o.len(),
{
    if o.len() == 0 {
        Seq::empty()
    } else {
        members_after(o.drop_last()) + ","@ + json_string_text(o.last().0) + ":"@ + o.last().1
    }
}

fn join_exec(items: &Vec<String>) -> (r: String)
    ensures
        r@ == comma_joined(strs_view(items@)),
{
    let ghost all = strs_view(items@);
    let mut out = String::new();
    let mut i: usize = 0;
    while i < items.len()
        invariant
            i <= items@.len(),
            all == strs_view(items@),
            out@ == comma_joined(all.take(i as int)),
        decreases items@.len() - i,
    {
        assert(all.take(i + 1).drop_last() =~= all.take(i as int));
        if i == 0 {
            out = items[i].clone();
            assert(all.take(1) =~= seq![all[0]]);
        } else {
            out = concat_str(concat_str(out.as_str(), ",").as_str(), items[i].as_str());
        }
        i = i + 1;
    }
    assert(all.take(items@.len() as int) =~= all);
    out
}

/// The JSON text of a step, as `step_json_text` says.
pub fn step_json(s: &Step) -> (r: String)
    ensures
        r@ == step_json_text(s@),
{
    let mut entries: Vec<String> = Vec::new();
    let mut i: usize = 0;
    while i < s.params.len()
        invariant
            i <= s.params@.len(),
            strs_view(entries@) == Seq::new(
                i as nat,
                |j: int| json_string_text(s@.params[j].0) + ":"@ + json_string_text(s@.params[j].1),
            ),
        decreases s.params@.len() - i,
    {
        let k = json_string(s.params[i].0.as_str());
        let v = json_string(s.params[i].1.as_str());
        let e = concat_str(concat_str(k.as_str(), ":").as_str(), v.as_str());
        assert(e@ == json_string_text(s@.params[i as int].0) + ":"@ + json_string_text(s@.params[i as int].1));
        assert(s@.params[i as int] == (s.params@[i as int].0@, s.params@[i as int].1@));
        let ghost before = entries@;
        entries.push(e);
        assert(entries@ == before.push(e));
        assert(strs_view(entries@) =~= strs_view(before).push(e@));
        assert(strs_view(entries@) =~= Seq::new(
            (i + 1) as nat,
            |j: int| json_string_text(s@.params[j].0) + ":"@ + json_string_text(s@.params[j].1),
        ));
        i = i + 1;
    }
    let mut out = concat_str("{\"name\":", json_string(s.name.as_str()).as_str());
    out = concat_str(out.as_str(), ",\"type\":");
    out = concat_str(out.as_str(), json_string(s.step_type.as_str()).as_str());
    out = concat_str(out.as_str(), ",\"spec\":");
    out = concat_str(out.as_str(), s.spec_json.as_str());
    out = concat_str(out.as_str(), ",\"params\":{");
    out = concat_str(out.as_str(), join_exec(&entries).as_str());
    out = concat_str(out.as_str(), "},\"reports\":[");
    out = concat_str(out.as_str(), join_exec(&s.reports_json).as_str());
    out = concat_str(out.as_str(), "]");
    let ghost head = out@;
    let ghost ov = s@.others;
    let mut k: usize = 0;
    while k < s.others.len()
        invariant
            k <= s.others@.len(),
            ov == s@.others,
            out@ == head + members_after(ov.take(k as int)),
        decreases s.others@.len() - k,
    {
        assert(ov.take(k + 1).drop_last() =~= ov.take(k as int));
        assert(ov[k as int] == (s.others@[k as int].0@, s.others@[k as int].1@));
        out = concat_str(out.as_str(), ",");
        out = concat_str(out.as_str(), json_string(s.others[k].0.as_str()).as_str());
        out = concat_str(out.as_str(), ":");
        out = concat_str(out.as_str(), s.others[k].1.as_str());
        k = k + 1;
    }
    assert(ov.take(s.others@.len() as int) =~= ov);
    out = concat_str(out.as_str(), "}");
    proof {
        reveal_strlit("");
    }
    assert(out@ =~= step_json_text(s@));
    out
}

// ---------------------------------------------------------------- storage

/// The members of a text read as a JSON object; none when it is no object.
pub open spec fn members_or_empty(text: Seq<char>) -> MemberSeq {
    match json_object_members(text) {
        Some(m) => m,
        None => Seq::empty(),
    }
}

/// A provisioning source read from its JSON text: its string `url` and `destination`.
pub open spec fn provision_read(e: ProvisionEntry, text: Seq<char>) -> bool {
    let m = members_or_empty(text);
    &&& opt_str_view(e.url) == string_member(m, "url"@)
    &&& opt_str_view(e.destination) == string_member(m, "destination"@)
}

/// The items of the `provision` member, when it is an array.
pub open spec fn provision_items_of(m: MemberSeq) -> Option<Seq<Seq<char>>> {
    match member_json(m, "provision"@) {
        Some(p) => match json_shape(p) {
            Some(JsonShapeView::Items(v)) => Some(v),
            _ => None,
        },
        None => None,
    }
}

/// A storage's URLs read from the entry's JSON text.
pub open spec fn urls_read(u: StorageUrls, text: Seq<char>) -> bool {
    let m = members_or_empty(text);
    &&& u.raw_json@ == text
    &&& u.has_put_url == member_index(m, "put_url"@) is Some
    &&& opt_str_view(u.put_url) == string_member(m, "put_url"@)
    &&& opt_str_view(u.get_url) == string_member(m, "get_url"@)
    &&& u.has_expected_hash == string_member(m, "expected_hash"@) is Some
    &&& opt_str_view(u.artifacts_json) == member_json(m, "artifacts"@)
    &&& opt_pairs_view(u.artifact_entries) == match member_json(m, "artifacts"@) {
        Some(a) => json_value_entries(a),
        None => None,
    }
    &&& match provision_items_of(m) {
        Some(items) => u.provision matches Some(v) && v@.len() == items.len() && forall|i: int|
            0 <= i < items.len() ==> provision_read(#[trigger] v@[i], items[i]),
        None => u.provision is None,
    }
}

/// The storages of a task read from the members of its `storage` object, in their order.
pub open spec fn storage_read(entries: Seq<StorageEntry>, m: MemberSeq) -> bool {
    &&& entries.len() == m.len()
    &&& forall|i: int| 0 <= i < m.len() ==> (#[trigger] entries[i]).name@ == m[i].0 && urls_read(entries[i].urls, m[i].2)
}

fn read_provision(text: &str) -> (e: ProvisionEntry)
    ensures
        provision_read(e, text@),
{
    let m = match read_object_members(text) {
        Some(m) => m,
        None => Vec::new(),
    };
    assert(members_view(m@) == members_or_empty(text@));
    ProvisionEntry { url: string_member_exec(&m, "url"), destination: string_member_exec(&m, "destination") }
}

fn read_provision_items(m: &Vec<(String, Option<String>, String)>) -> (r: Option<Vec<ProvisionEntry>>)
    ensures
        match provision_items_of(members_view(m@)) {
            Some(items) => r matches Some(v) && v@.len() == items.len() && forall|i: int|
                0 <= i < items.len() ==> provision_read(#[trigger] v@[i], items[i]),
            None => r is None,
        },
{
    let p = member_json_exec(m, "provision")?;
    match read_json_shape(p.as_str()) {
        Some(JsonShape::Items(items)) => {
            let ghost iv = strs_view(items@);
            let mut out: Vec<ProvisionEntry> = Vec::new();
            let mut i: usize = 0;
            while i < items.len()
                invariant
                    i <= items@.len(),
                    iv == strs_view(items@),
                    out@.len() == i,
                    forall|j: int| 0 <= j < i ==> provision_read(#[trigger] out@[j], iv[j]),
                decreases items@.len() - i,
            {
                let e = read_provision(items[i].as_str());
                out.push(e);
                i = i + 1;
            }
            Some(out)
        },
        _ => None,
    }
}

fn read_urls(text: String) -> (u: StorageUrls)
    ensures
        urls_read(u, text@),
{
    let m = match read_object_members(text.as_str()) {
        Some(m) => m,
        None => Vec::new(),
    };
    assert(members_view(m@) == members_or_empty(text@));
    let artifacts_json = member_json_exec(&m, "artifacts");
    let artifact_entries = match &artifacts_json {
        Some(a) => read_value_entries(a.as_str()),
        None => None,
    };
    StorageUrls {
        has_put_url: find_member(&m, "put_url").is_some(),
        put_url: string_member_exec(&m, "put_url"),
        get_url: string_member_exec(&m, "get_url"),
        has_expected_hash: string_member_exec(&m, "expected_hash").is_some(),
        artifacts_json,
        artifact_entries,
        provision: read_provision_items(&m),
        raw_json: text,
    }
}

/// The storages of a `storage` object's members, as `storage_read` says.
pub fn read_storage(m: &Vec<(String, Option<String>, String)>) -> (r: Vec<StorageEntry>)
    ensures
        storage_read(r@, members_view(m@)),
{
    let ghost mv = members_view(m@);
    let mut out: Vec<StorageEntry> = Vec::new();
    let mut i: usize = 0;
    while i < m.len()
        invariant
            i <= m@.len(),
            mv == members_view(m@),
            out@.len() == i,
            forall|j: int| 0 <= j < i ==> (#[trigger] out@[j]).name@ == mv[j].0 && urls_read(out@[j].urls, mv[j].2),
        decreases m@.len() - i,
    {
        let urls = read_urls(m[i].2.clone());
        out.push(StorageEntry { name: m[i].0.clone(), urls });
        i = i + 1;
    }
    out
}

// ---------------------------------------------------------------- tasks

/// Why a task's event was refused.
#[derive(PartialEq, Eq, Structural, Clone, Copy, Debug)]
pub enum TaskError {
    /// The event is no JSON object.
    NotJson,
    /// The event carries no data.
    NoData,
    /// `run_id` is missing or no UUID.
    InvalidRunId,
    /// `step_id` is missing or no UUID.
    InvalidStepId,
}

pub open spec fn text_or_empty(o: Option<Seq<char>>) -> Seq<char> {
    match o {
        Some(t) => t,
        None => Seq::empty(),
    }
}

/// The members of a task event's `data`: an error when the event is no JSON object or
/// carries no data (absent or `null`); no members when the data is no object.
pub open spec fn task_data(payload: Seq<char>) -> Result<MemberSeq, TaskError> {
    match json_object_members(payload) {
        None => Err(TaskError::NotJson),
        Some(m) => match member_json(m, "data"@) {
            None => Err(TaskError::NoData),
            Some(d) => if d == "null"@ {
                Err(TaskError::NoData)
            } else {
                Ok(members_or_empty(d))
            },
        },
    }
}

/// A text read as an `i64` token: 0 when absent or no `i64`.
pub open spec fn token_of(o: Option<Seq<char>>) -> i64 {
    match o {
        Some(l) => match int_syntax(l) {
            Some(v) => if i64::MIN <= v <= i64::MAX {
                v as i64
            } else {
                0
            },
            None => 0,
        },
        None => 0,
    }
}

/// The spec a task hands out: the `spec` member, `null` when absent.
pub open spec fn task_spec_json(d: MemberSeq) -> Seq<char> {
    match member_json(d, "spec"@) {
        Some(s) => s,
        None => "null"@,
    }
}

/// The step DSL a task carries, when it is present, not `null`, and describes a step.
pub open spec fn task_dsl(d: MemberSeq) -> Option<StepView> {
    match member_json(d, "step_dsl"@) {
        Some(t) => if t == "null"@ {
            None
        } else {
            step_of_text(t)
        },
        None => None,
    }
}

/// The step of a task: its DSL with the task's spec in its place, or else a step made of the
/// loose `step_name`, `step_type` and `params` with the task's spec.
pub open spec fn task_step_of(d: MemberSeq) -> StepView {
    match task_dsl(d) {
        Some(v) => StepView { spec_json: task_spec_json(d), ..v },
        None => StepView {
            name: text_or_empty(string_member(d, "step_name"@)),
            step_type: text_or_empty(string_member(d, "step_type"@)),
            spec_json: task_spec_json(d),
            params: match member_json(d, "params"@) {
                Some(p) => params_in(p),
                None => Seq::empty(),
            },
            reports: Seq::empty(),
            retry_count: None,
            others: Seq::empty(),
        },
    }
}

/// The job a task's data describes, for the given ids and the runner's own values.
pub open spec fn task_read(
    md: JobMetadata,
    d: MemberSeq,
    run_id: u128,
    step_id: u128,
    received_at_ns: i64,
    namespace: String,
    cluster_version: String,
    encryption_key: Option<String>,
) -> bool {
    &&& md.run_id == run_id
    &&& md.step_id == step_id
    &&& md.fencing_token == token_of(member_json(d, "fencing_token"@))
    &&& md.step_dsl@ == task_step_of(d)
    &&& md.namespace == namespace
    &&& md.received_at_ns == received_at_ns
    &&& md.cluster_version == cluster_version
    &&& md.encryption_key == encryption_key
    &&& match member_json(d, "storage"@) {
        Some(st) => match json_object_members(st) {
            Some(sm) => md.storage matches Some(v) && storage_read(v@, sm),
            None => md.storage is None,
        },
        None => md.storage is None,
    }
    &&& opt_str_view(md.test_report_urls_json) == match member_json(d, "test_report_urls"@) {
        Some(t) => if json_object_members(t) is Some {
            Some(t)
        } else {
            None
        },
        None => None,
    }
    &&& md.has_registry_auth == (member_json(d, "registry_auth"@) matches Some(a) && a != "null"@)
}

/// Reads a task event: its `data` must hold a `run_id` and a `step_id` that are UUIDs; the
/// step is the data's DSL, or one made of its loose fields; storages, test report URLs and
/// registry credentials are taken as the data gives them.
pub fn task_metadata(
    payload: &str,
    received_at_ns: i64,
    namespace: String,
    cluster_version: String,
    encryption_key: Option<String>,
) -> (r: Result<JobMetadata, TaskError>)
    ensures
        match task_data(payload@) {
            Err(e) => r == Err::<JobMetadata, TaskError>(e),
            Ok(d) => match uuid_parsed(text_or_empty(string_member(d, "run_id"@))) {
                None => r == Err::<JobMetadata, TaskError>(TaskError::InvalidRunId),
                Some(run_id) => match uuid_parsed(text_or_empty(string_member(d, "step_id"@))) {
                    None => r == Err::<JobMetadata, TaskError>(TaskError::InvalidStepId),
                    Some(step_id) => r matches Ok(md) && task_read(
                        md,
                        d,
                        run_id,
                        step_id,
                        received_at_ns,
                        namespace,
                        cluster_version,
                        encryption_key,
                    ),
                },
            },
        },
{
    let m = match read_object_members(payload) {
        Some(m) => m,
        None => return Err(TaskError::NotJson),
    };
    let data_text = match member_json_exec(&m, "data") {
        Some(t) => t,
        None => return Err(TaskError::NoData),
    };
    if data_text == owned("null") {
        return Err(TaskError::NoData);
    }
    let d = match read_object_members(data_text.as_str()) {
        Some(d) => d,
        None => Vec::new(),
    };
    assert(members_view(d@) == members_or_empty(data_text@));
    let run_s = match string_member_exec(&d, "run_id") {
        Some(s) => s,
        None => String::new(),
    };
    let run_id = match parse_uuid(run_s.as_str()) {
        Some(u) => u,
        None => return Err(TaskError::InvalidRunId),
    };
    let step_s = match string_member_exec(&d, "step_id") {
        Some(s) => s,
        None => String::new(),
    };
    let step_id = match parse_uuid(step_s.as_str()) {
        Some(u) => u,
        None => return Err(TaskError::InvalidStepId),
    };
    let spec_json = match member_json_exec(&d, "spec") {
        Some(s) => s,
        None => owned("null"),
    };
    let parsed_dsl = match member_json_exec(&d, "step_dsl") {
        Some(t) => if t == owned("null") {
            None
        } else {
            step_from_text(t.as_str())
        },
        None => None,
    };
    let params = match member_json_exec(&d, "params") {
        Some(p) => Some(read_params(p.as_str())),
        None => None,
    };
    let step = task_step(parsed_dsl, string_member_exec(&d, "step_name"), string_member_exec(&d, "step_type"), params, spec_json);
    let storage = match member_json_exec(&d, "storage") {
        Some(st) => match read_object_members(st.as_str()) {
            Some(sm) => Some(read_storage(&sm)),
            None => None,
        },
        None => None,
    };
    let test_report_urls_json = match member_json_exec(&d, "test_report_urls") {
        Some(t) => if read_object_members(t.as_str()).is_some() {
            Some(t)
        } else {
            None
        },
        None => None,
    };
    let has_registry_auth = match member_json_exec(&d, "registry_auth") {
        Some(a) => a != owned("null"),
        None => false,
    };
    let md = JobMetadata {
        run_id,
        step_id,
        fencing_token: fencing_token_of(member_json_exec(&d, "fencing_token")),
        step_dsl: step,
        namespace,
        received_at_ns,
        cluster_version,
        encryption_key,
        storage,
        test_report_urls_json,
        has_registry_auth,
    };
    proof {
        reveal_strlit("null");
        assert(md.step_dsl@.params =~= task_step_of(members_view(d@)).params);
        assert(md.step_dsl@.reports =~= task_step_of(members_view(d@)).reports);
        assert(md.step_dsl@.others =~= task_step_of(members_view(d@)).others);
    }
    Ok(md)
}

// ---------------------------------------------------------------- orphaned jobs

/// Why an orphaned Job cannot be adopted.
#[derive(PartialEq, Eq, Structural, Clone, Copy, Debug)]
pub enum OrphanError {
    /// The Job has no `stormchaser-run-id` label.
    MissingRunId,
    /// The Job has no `stormchaser-step-id` label.
    MissingStepId,
}

/// The UUID read from a text, the nil UUID when it is none.
pub open spec fn uuid_or_nil(s: Seq<char>) -> u128 {
    match uuid_parsed(s) {
        Some(u) => u,
        None => 0,
    }
}

/// The step that stands in for an unreadable DSL: a `RunContainer` step named after the Job.
pub open spec fn fallback_step_view(job_name: Seq<char>) -> StepView {
    StepView {
        name: job_name,
        step_type: "RunContainer"@,
        spec_json: "null"@,
        params: Seq::empty(),
        reports: Seq::empty(),
        retry_count: None,
        others: Seq::empty(),
    }
}

/// The step of an orphaned Job: the plain DSL of its `stormchaser.v1.io/step-dsl`
/// annotation when it describes a step; else, and for an encrypted DSL, which this library
/// cannot read, the stand-in step.
pub open spec fn orphan_step(job_name: Seq<char>, annotations: Seq<(Seq<char>, Seq<char>)>) -> StepView {
    let encrypted = given_text(annotations, "stormchaser.v1.io/state-encrypted"@) == Some("true"@);
    match given_text(annotations, "stormchaser.v1.io/step-dsl"@) {
        Some(raw) => if encrypted {
            fallback_step_view(job_name)
        } else {
            match step_of_text(raw) {
                Some(v) => v,
                None => fallback_step_view(job_name),
            }
        },
        None => fallback_step_view(job_name),
    }
}

/// When the orphaned Job's task arrived: its `stormchaser.v1.io/received-at` annotation
/// read as RFC 3339, else (also for a time that nanoseconds in an `i64` cannot hold)
/// `now_ns`.
pub open spec fn orphan_received_at(annotations: Seq<(Seq<char>, Seq<char>)>, now_ns: i64) -> i64 {
    match given_text(annotations, "stormchaser.v1.io/received-at"@) {
        Some(t) => match rfc3339_nanos(t) {
            Some(Some(ns)) => ns,
            _ => now_ns,
        },
        None => now_ns,
    }
}

/// Rebuilds the job of a Job that no runner watches from its labels and annotations: the
/// run and step ids (nil when they are no UUIDs), the fencing token, the step and the time
/// its task arrived. The labels must name the run and the step.
pub fn orphan_metadata(
    job_name: String,
    namespace: String,
    labels: &Vec<(String, String)>,
    annotations: &Vec<(String, String)>,
    cluster_version: String,
    encryption_key: Option<String>,
    now_ns: i64,
) -> (r: Result<JobMetadata, OrphanError>)
    ensures
        match (
            given_text(pairs_view(labels@), "stormchaser-run-id"@),
            given_text(pairs_view(labels@), "stormchaser-step-id"@),
        ) {
            (None, _) => r == Err::<JobMetadata, OrphanError>(OrphanError::MissingRunId),
            (Some(_), None) => r == Err::<JobMetadata, OrphanError>(OrphanError::MissingStepId),
            (Some(run), Some(step)) => r matches Ok(md) && md.run_id == uuid_or_nil(run) && md.step_id == uuid_or_nil(
                step,
            ) && md.fencing_token == token_of(given_text(pairs_view(labels@), "stormchaser-fencing-token"@))
                && md.step_dsl@ == orphan_step(job_name@, pairs_view(annotations@)) && md.namespace == namespace
                && md.received_at_ns == orphan_received_at(pairs_view(annotations@), now_ns) && md.cluster_version
                == cluster_version && md.encryption_key == encryption_key && md.storage is None
                && md.test_report_urls_json is None && !md.has_registry_auth,
        },
{
    let run_s = match lookup_given(labels, &owned("stormchaser-run-id")) {
        Some(s) => s,
        None => return Err(OrphanError::MissingRunId),
    };
    let step_s = match lookup_given(labels, &owned("stormchaser-step-id")) {
        Some(s) => s,
        None => return Err(OrphanError::MissingStepId),
    };
    let run_id = match parse_uuid(run_s.as_str()) {
        Some(u) => u,
        None => 0,
    };
    let step_id = match parse_uuid(step_s.as_str()) {
        Some(u) => u,
        None => 0,
    };
    let fencing_token = fencing_token_of(lookup_given(labels, &owned("stormchaser-fencing-token")));
    let encrypted = match lookup_given(annotations, &owned("stormchaser.v1.io/state-encrypted")) {
        Some(v) => v == owned("true"),
        None => false,
    };
    let raw = lookup_given(annotations, &owned("stormchaser.v1.io/step-dsl"));
    let parsed = match dsl_source(encrypted, clone_key(&encryption_key), raw) {
        DslSource::Plain(text) => step_from_text(text.as_str()),
        DslSource::Encrypted { .. } => None,
        DslSource::Fallback => None,
    };
    let step = reconstruct_step(&job_name, parsed);
    proof {
        reveal_strlit("%Y-%m-%d %H:%M:%S");
    }
    let received_at_ns = match lookup_given(annotations, &owned("stormchaser.v1.io/received-at")) {
        Some(t) => match read_rfc3339(t.as_str(), "%Y-%m-%d %H:%M:%S") {
            Some((Some(ns), _)) => ns,
            _ => now_ns,
        },
        None => now_ns,
    };
    let md = JobMetadata {
        run_id,
        step_id,
        fencing_token,
        step_dsl: step,
        namespace,
        received_at_ns,
        cluster_version,
        encryption_key,
        storage: None,
        test_report_urls_json: None,
        has_registry_auth: false,
    };
    proof {
        reveal_strlit("true");
        assert(md.step_dsl@.params =~= orphan_step(job_name@, pairs_view(annotations@)).params);
        assert(md.step_dsl@.reports =~= orphan_step(job_name@, pairs_view(annotations@)).reports);
        assert(md.step_dsl@.others =~= orphan_step(job_name@, pairs_view(annotations@)).others);
    }
    Ok(md)
}

fn clone_key(k: &Option<String>) -> (r: Option<String>)
    ensures
        r == *k,
{
    match k {
        Some(s) => Some(s.clone()),
        None => None,
    }
}

} // verus!

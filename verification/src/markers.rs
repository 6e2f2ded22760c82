//! What a Job's worker reports in its log: parked storage hashes, parked artifacts and
//! collected test reports, each on a marked line followed by a JSON object.
use vstd::prelude::*;
use crate::k8s_model::pairs_view;
use crate::json::{json_shape, members_view, read_json_shape, JsonShape, JsonShapeView};
use crate::text::{chars_of, contains_seq, contains_str, owned, substring};
use crate::version::first_index_of;

verus! {

/// serde_json's reading of a text as a JSON object: its members in the text's order, each
/// as its name, its string when the value is a string, and the value written back compactly;
/// `None` when the text is no JSON object.
pub open spec fn json_object_members(text: Seq<char>) -> Option<Seq<(Seq<char>, Option<Seq<char>>, Seq<char>)>> {
    match json_shape(text) {
        Some(JsonShapeView::Members(m)) => Some(m),
        _ => None,
    }
}

/// The members of a JSON object whose values are all strings, with those strings; `None`
/// when the text is no such object.
pub open spec fn json_string_entries(text: Seq<char>) -> Option<Seq<(Seq<char>, Seq<char>)>> {
    match json_object_members(text) {
        Some(m) => if forall|i: int| 0 <= i < m.len() ==> (#[trigger] m[i]).1 is Some {
            Some(m.map_values(|x: (Seq<char>, Option<Seq<char>>, Seq<char>)| (x.0, x.1->0)))
        } else {
            None
        },
        None => None,
    }
}

/// The members of a JSON object, each value as compact JSON text; `None` when the text is
/// no JSON object.
pub open spec fn json_value_entries(text: Seq<char>) -> Option<Seq<(Seq<char>, Seq<char>)>> {
    match json_object_members(text) {
        Some(m) => Some(m.map_values(|x: (Seq<char>, Option<Seq<char>>, Seq<char>)| (x.0, x.2))),
        None => None,
    }
}

/// The members of a text read as a JSON object, as `json_object_members` says.
pub(crate) fn read_object_members(text: &str) -> (r: Option<Vec<(String, Option<String>, String)>>)
    ensures
        match json_object_members(text@) {
            Some(m) => r is Some && members_view(r->0@) == m,
            None => r is None,
        },
{
    match read_json_shape(text) {
        Some(JsonShape::Members(m)) => Some(m),
        _ => None,
    }
}

/// The members of a JSON object whose values are all strings, as `json_string_entries` says.
fn read_string_entries(text: &str) -> (r: Option<Vec<(String, String)>>)
    ensures
        match json_string_entries(text@) {
            Some(e) => r is Some && pairs_view(r->0@) == e,
            None => r is None,
        },
{
    let members = read_object_members(text)?;
    let ghost mv = members_view(members@);
    let mut out: Vec<(String, String)> = Vec::new();
    let mut i: usize = 0;
    while i < members.len()
        invariant
            i <= members@.len(),
            mv == members_view(members@),
            Some(mv) == json_object_members(text@),
            forall|j: int| 0 <= j < i ==> (#[trigger] mv[j]).1 is Some,
            pairs_view(out@) == mv.take(i as int).map_values(
                |x: (Seq<char>, Option<Seq<char>>, Seq<char>)| (x.0, x.1->0),
            ),
        decreases members@.len() - i,
    {
        let ghost before = out@;
        match &members[i].1 {
            Some(t) => {
                let k = members[i].0.clone();
                let v = t.clone();
                assert(mv[i as int] == (members@[i as int].0@, Some(t@), members@[i as int].2@));
                out.push((k, v));
                assert(out@ =~= before.push((k, v)));
                assert(pairs_view(out@) =~= pairs_view(before).push((k@, v@)));
                assert(mv.take(i + 1) =~= mv.take(i as int).push(mv[i as int]));
                assert(pairs_view(out@) =~= mv.take(i + 1).map_values(
                    |x: (Seq<char>, Option<Seq<char>>, Seq<char>)| (x.0, x.1->0),
                ));
            },
            None => {
                assert(mv[i as int].1 is None);
                return None;
            },
        }
        i = i + 1;
    }
    assert(mv.take(members@.len() as int) =~= mv);
    Some(out)
}

/// The members of a JSON object with their values as compact JSON text, as
/// `json_value_entries` says.
pub(crate) fn read_value_entries(text: &str) -> (r: Option<Vec<(String, String)>>)
    ensures
        match json_value_entries(text@) {
            Some(e) => r is Some && pairs_view(r->0@) == e,
            None => r is None,
        },
{
    let members = read_object_members(text)?;
    let ghost mv = members_view(members@);
    let mut out: Vec<(String, String)> = Vec::new();
    let mut i: usize = 0;
    while i < members.len()
        invariant
            i <= members@.len(),
            mv == members_view(members@),
            pairs_view(out@) == mv.take(i as int).map_values(
                |x: (Seq<char>, Option<Seq<char>>, Seq<char>)| (x.0, x.2),
            ),
        decreases members@.len() - i,
    {
        let ghost before = out@;
        let k = members[i].0.clone();
        let v = members[i].2.clone();
        assert(mv[i as int] == (members@[i as int].0@, crate::k8s_model::opt_str_view(members@[i as int].1), members@[i as int].2@));
        out.push((k, v));
        assert(out@ =~= before.push((k, v)));
        assert(pairs_view(out@) =~= pairs_view(before).push((k@, v@)));
        assert(mv.take(i + 1) =~= mv.take(i as int).push(mv[i as int]));
        assert(pairs_view(out@) =~= mv.take(i + 1).map_values(
            |x: (Seq<char>, Option<Seq<char>>, Seq<char>)| (x.0, x.2),
        ));
        i = i + 1;
    }
    assert(mv.take(members@.len() as int) =~= mv);
    Some(out)
}

/// The marker before parked storage hashes.
pub open spec fn hashes_marker() -> Seq<char> {
    "Parked storage hashes:"@
}

/// The marker before parked artifacts.
pub open spec fn artifacts_marker() -> Seq<char> {
    "Parked artifacts:"@
}

/// The marker before collected test reports.
pub open spec fn reports_marker() -> Seq<char> {
    "Collected test reports JSON:"@
}

/// The end of the line that starts at `i`: the next newline, or the end of the text.
pub open spec fn line_end(s: Seq<char>, i: int) -> int
    decreases s.len() - i,
{
    if i < 0 || i >= s.len() {
        s.len() as int
    } else if s[i] == '\n' {
        i
    } else {
        line_end(s, i + 1)
    }
}

/// The line that starts at `i`, without its newline and a carriage return before it (as
/// `str::lines` gives it).
pub open spec fn line_at(s: Seq<char>, i: int) -> Seq<char> {
    let l = s.subrange(i, line_end(s, i));
    if l.len() > 0 && l.last() == '\r' { l.drop_last() } else { l }
}

/// What a marked line carries: the JSON object from its first `{` on, read by `read`.
pub open spec fn marked_value(
    line: Seq<char>,
    marker: Seq<char>,
    read: spec_fn(Seq<char>) -> Option<Seq<(Seq<char>, Seq<char>)>>,
) -> Option<Seq<(Seq<char>, Seq<char>)>> {
    if contains_seq(line, marker) && first_index_of(line, '{') < line.len() {
        read(line.skip(first_index_of(line, '{') as int))
    } else {
        None
    }
}

/// The first line from position `i` on that carries a readable object after `marker`.
pub open spec fn first_marked(
    s: Seq<char>,
    i: int,
    marker: Seq<char>,
    read: spec_fn(Seq<char>) -> Option<Seq<(Seq<char>, Seq<char>)>>,
) -> Option<Seq<(Seq<char>, Seq<char>)>>
    decreases s.len() + 1 - i,
{
    if i < 0 || i >= s.len() {
        None
    } else {
        match marked_value(line_at(s, i), marker, read) {
            Some(v) => Some(v),
            None => if i < line_end(s, i) + 1 <= s.len() + 1 {
                first_marked(s, line_end(s, i) + 1, marker, read)
            } else {
                None
            },
        }
    }
}

proof fn lemma_line_end(s: Seq<char>, i: int)
    requires
        0 <= i <= s.len(),
    ensures
        i <= line_end(s, i) <= s.len(),
    decreases s.len() - i,
{
    if i < s.len() && s[i] != '\n' {
        lemma_line_end(s, i + 1);
    }
}

fn line_end_exec(s: &Vec<char>, i: usize) -> (e: usize)
    requires
        i <= s@.len(),
    ensures
        e == line_end(s@, i as int),
        i <= e <= s@.len(),
{
    let mut k = i;
    while k < s.len() && s[k] != '\n'
        invariant
            i <= k <= s@.len(),
            line_end(s@, i as int) == line_end(s@, k as int),
        decreases s@.len() - k,
    {
        k = k + 1;
    }
    k
}

fn first_brace(l: &Vec<char>) -> (k: usize)
    ensures
        k == first_index_of(l@, '{'),
        k <= l@.len(),
{
    let mut k: usize = 0;
    assert(l@.skip(0) =~= l@);
    while k < l.len() && l[k] != '{'
        invariant
            k <= l@.len(),
            first_index_of(l@, '{') == k + first_index_of(l@.skip(k as int), '{'),
        decreases l@.len() - k,
    {
        assert(l@.skip(k as int).drop_first() =~= l@.skip(k + 1));
        k = k + 1;
    }
    proof {
        if k == l@.len() {
            assert(l@.skip(k as int).len() == 0);
        }
    }
    k
}

/// Which object a scan looks for.
pub enum MarkerKind {
    StorageHashes,
    Artifacts,
    TestReports,
}

pub open spec fn marker_of(kind: MarkerKind) -> Seq<char> {
    match kind {
        MarkerKind::StorageHashes => hashes_marker(),
        MarkerKind::Artifacts => artifacts_marker(),
        MarkerKind::TestReports => reports_marker(),
    }
}

pub open spec fn reader_of(kind: MarkerKind) -> spec_fn(Seq<char>) -> Option<Seq<(Seq<char>, Seq<char>)>> {
    match kind {
        MarkerKind::StorageHashes => |t: Seq<char>| json_string_entries(t),
        _ => |t: Seq<char>| json_value_entries(t),
    }
}

/// The object a worker's log reports: the first line carrying the kind's marker and a
/// readable JSON object after its first `{` (storage hashes must all be strings).
pub fn scan_log(logs: &str, kind: MarkerKind) -> (r: Option<Vec<(String, String)>>)
    ensures
        match first_marked(logs@, 0, marker_of(kind), reader_of(kind)) {
            Some(e) => r is Some && pairs_view(r->0@) == e,
            None => r is None,
        },
{
    let s = chars_of(logs);
    let marker = match kind {
        MarkerKind::StorageHashes => chars_of("Parked storage hashes:"),
        MarkerKind::Artifacts => chars_of("Parked artifacts:"),
        MarkerKind::TestReports => chars_of("Collected test reports JSON:"),
    };
    let ghost read = reader_of(kind);
    let mut i: usize = 0;
    while i < s.len()
        invariant
            i <= s@.len(),
            s@ == logs@,
            marker@ == marker_of(kind),
            read == reader_of(kind),
            first_marked(s@, 0, marker@, read) == first_marked(s@, i as int, marker@, read),
        decreases s@.len() - i,
    {
        let e = line_end_exec(&s, i);
        let (lo, hi): (usize, usize) = if e > i && s[e - 1] == '\r' { (i, e - 1) } else { (i, e) };
        let ghost whole = s@.subrange(i as int, e as int);
        let line = substring(&s, lo, hi);
        proof {
            if e > i && s@[e - 1] == '\r' {
                assert(s@.subrange(lo as int, hi as int) =~= whole.drop_last());
            }
            assert(line@ == line_at(s@, i as int));
        }
        let lc = chars_of(line.as_str());
        let mut found: Option<Vec<(String, String)>> = None;
        if contains_str(&lc, &marker) {
            let b = first_brace(&lc);
            if b < lc.len() {
                let tail = substring(&lc, b, lc.len());
                assert(lc@.subrange(b as int, lc@.len() as int) =~= lc@.skip(b as int));
                found = match kind {
                    MarkerKind::StorageHashes => read_string_entries(tail.as_str()),
                    _ => read_value_entries(tail.as_str()),
                };
                assert(marked_value(line@, marker@, read) == read(tail@));
            }
        }
        proof {
            if found is Some {
                assert(marked_value(line@, marker@, read) == Some(pairs_view(found->0@)));
            } else {
                assert(marked_value(line@, marker@, read) is None);
            }
            lemma_line_end(s@, i as int);
        }
        match found {
            Some(v) => {
                return Some(v);
            },
            None => {},
        }
        if e >= s.len() {
            assert(first_marked(s@, e + 1, marker@, read) is None);
            assert(first_marked(s@, i as int, marker@, read) is None);
            return None;
        }
        i = e + 1;
    }
    None
}

/// The storage hashes a worker parked, when the Job has storages.
pub fn parked_storage_hashes(has_storage: bool, logs: &str) -> (r: Option<Vec<(String, String)>>)
    ensures
        !has_storage ==> r is None,
        has_storage ==> match first_marked(logs@, 0, hashes_marker(), |t: Seq<char>| json_string_entries(t)) {
            Some(e) => r is Some && pairs_view(r->0@) == e,
            None => r is None,
        },
{
    if !has_storage {
        return None;
    }
    scan_log(logs, MarkerKind::StorageHashes)
}

/// The artifacts a worker parked, when the Job has storages.
pub fn parked_artifacts(has_storage: bool, logs: &str) -> (r: Option<Vec<(String, String)>>)
    ensures
        !has_storage ==> r is None,
        has_storage ==> match first_marked(logs@, 0, artifacts_marker(), |t: Seq<char>| json_value_entries(t)) {
            Some(e) => r is Some && pairs_view(r->0@) == e,
            None => r is None,
        },
{
    if !has_storage {
        return None;
    }
    scan_log(logs, MarkerKind::Artifacts)
}

/// The test reports a worker collected, when the step declares reports.
pub fn collected_test_reports(has_reports: bool, logs: &str) -> (r: Option<Vec<(String, String)>>)
    ensures
        !has_reports ==> r is None,
        has_reports ==> match first_marked(logs@, 0, reports_marker(), |t: Seq<char>| json_value_entries(t)) {
            Some(e) => r is Some && pairs_view(r->0@) == e,
            None => r is None,
        },
{
    if !has_reports {
        return None;
    }
    scan_log(logs, MarkerKind::TestReports)
}

} // verus!

//! The input schema sent with a submitted workflow file: every `required` list is dropped, so
//! that the orchestrator asks for no input the file does not give.
use vstd::prelude::*;
use crate::app::App;
use crate::decode::{comma_joined, member_json_exec, MemberSeq};
use crate::json::{json_shape, json_string, json_string_text, members_view, read_json_shape, JsonShape, JsonShapeView};
use crate::k8s_model::strs_view;
use crate::text::{concat_str, owned};

verus! {

/// An object written compactly from its members (name, value text).
pub open spec fn object_text(entries: Seq<(Seq<char>, Seq<char>)>) -> Seq<char> {
    "{"@ + comma_joined(Seq::new(entries.len(), |i: int| json_string_text(entries[i].0) + ":"@ + entries[i].1)) + "}"@
}

/// An array written compactly from its items' texts.
pub open spec fn array_text(items: Seq<Seq<char>>) -> Seq<char> {
    "["@ + comma_joined(items) + "]"@
}

/// A schema without its `required` lists, looked at to `depth` levels of nesting: an object
/// loses its `required` member, and the schemas under its `properties` and `items` lose
/// theirs; anything else stays as it is.
pub open spec fn without_required(text: Seq<char>, depth: nat) -> Seq<char>
    decreases depth, 0nat, 0nat,
{
    if depth == 0 {
        text
    } else {
        match json_shape(text) {
            Some(JsonShapeView::Members(m)) => object_text(stripped_members(m, (depth - 1) as nat)),
            _ => text,
        }
    }
}

/// An object's members without `required`, the schemas under `properties` and `items`
/// stripped in turn.
pub open spec fn stripped_members(m: MemberSeq, d: nat) -> Seq<(Seq<char>, Seq<char>)>
    decreases d, 3nat, m.len(),
{
    if m.len() == 0 {
        Seq::empty()
    } else if m.last().0 == "required"@ {
        stripped_members(m.drop_last(), d)
    } else {
        stripped_members(m.drop_last(), d).push((m.last().0, stripped_value(m.last().0, m.last().2, d)))
    }
}

/// A member's value text after stripping: each property schema under `properties`; each item
/// schema under `items`, or the one schema there; other members as they are.
pub open spec fn stripped_value(name: Seq<char>, value: Seq<char>, d: nat) -> Seq<char>
    decreases d, 2nat, 0nat,
{
    if name == "properties"@ {
        match json_shape(value) {
            Some(JsonShapeView::Members(pm)) => object_text(stripped_props(pm, d)),
            _ => value,
        }
    } else if name == "items"@ {
        match json_shape(value) {
            Some(JsonShapeView::Items(v)) => array_text(stripped_items(v, d)),
            Some(_) => without_required(value, d),
            None => value,
        }
    } else {
        value
    }
}

pub open spec fn stripped_props(pm: MemberSeq, d: nat) -> Seq<(Seq<char>, Seq<char>)>
    decreases d, 1nat, pm.len(),
{
    if pm.len() == 0 {
        Seq::empty()
    } else {
        stripped_props(pm.drop_last(), d).push((pm.last().0, without_required(pm.last().2, d)))
    }
}

pub open spec fn stripped_items(v: Seq<Seq<char>>, d: nat) -> Seq<Seq<char>>
    decreases d, 1nat, v.len(),
{
    if v.len() == 0 {
        Seq::empty()
    } else {
        stripped_items(v.drop_last(), d).push(without_required(v.last(), d))
    }
}

fn join_exec(items: &Vec<String>) -> (r: String)
    ensures
        r@ == comma_joined(strs_view(items@)),
{
    let ghost all = strs_view(items@);
    let mut out = String::new();
    let mut i: usize = 0;
    while i < items.len()
        invariant
            i <= items@.len(),
            all == strs_view(items@),
            out@ == comma_joined(all.take(i as int)),
        decreases items@.len() - i,
    {
        assert(all.take(i + 1).drop_last() =~= all.take(i as int));
        if i == 0 {
            out = items[i].clone();
            assert(all.take(1) =~= seq![all[0]]);
        } else {
            out = concat_str(concat_str(out.as_str(), ",").as_str(), items[i].as_str());
        }
        i = i + 1;
    }
    assert(all.take(items@.len() as int) =~= all);
    out
}

fn object_exec(entries: &Vec<(String, String)>) -> (r: String)
    ensures
        r@ == object_text(crate::k8s_model::pairs_view(entries@)),
{
    let ghost e = crate::k8s_model::pairs_view(entries@);
    let mut parts: Vec<String> = Vec::new();
    let mut i: usize = 0;
    while i < entries.len()
        invariant
            i <= entries@.len(),
            e == crate::k8s_model::pairs_view(entries@),
            strs_view(parts@) == Seq::new(i as nat, |j: int| json_string_text(e[j].0) + ":"@ + e[j].1),
        decreases entries@.len() - i,
    {
        let k = json_string(entries[i].0.as_str());
        let p = concat_str(concat_str(k.as_str(), ":").as_str(), entries[i].1.as_str());
        assert(e[i as int] == (entries@[i as int].0@, entries@[i as int].1@));
        let ghost before = parts@;
        parts.push(p);
        assert(strs_view(parts@) =~= strs_view(before).push(p@));
        assert(strs_view(parts@) =~= Seq::new((i + 1) as nat, |j: int| json_string_text(e[j].0) + ":"@ + e[j].1));
        i = i + 1;
    }
    assert(strs_view(parts@) =~= Seq::new(e.len(), |j: int| json_string_text(e[j].0) + ":"@ + e[j].1));
    concat_str(concat_str("{", join_exec(&parts).as_str()).as_str(), "}")
}

fn without_required_exec(text: &str, depth: usize) -> (r: String)
    ensures
        r@ == without_required(text@, depth as nat),
    decreases depth, 0nat, 0nat,
{
    if depth == 0 {
        return owned(text);
    }
    match read_json_shape(text) {
        Some(JsonShape::Members(m)) => {
            let entries = stripped_members_exec(&m, depth - 1);
            object_exec(&entries)
        },
        _ => owned(text),
    }
}

fn stripped_members_exec(m: &Vec<(String, Option<String>, String)>, d: usize) -> (r: Vec<(String, String)>)
    ensures
        crate::k8s_model::pairs_view(r@) == stripped_members(members_view(m@), d as nat),
    decreases d, 3nat, 0nat,
{
    let ghost mv = members_view(m@);
    let mut out: Vec<(String, String)> = Vec::new();
    let mut i: usize = 0;
    while i < m.len()
        invariant
            i <= m@.len(),
            mv == members_view(m@),
            crate::k8s_model::pairs_view(out@) == stripped_members(mv.take(i as int), d as nat),
        decreases m@.len() - i,
    {
        let ghost t = mv.take(i + 1);
        assert(t.drop_last() =~= mv.take(i as int));
        assert(t.last() == mv[i as int]);
        assert(mv[i as int].0 == m@[i as int].0@ && mv[i as int].2 == m@[i as int].2@);
        if m[i].0 != owned("required") {
            let v = stripped_value_exec(&m[i].0, &m[i].2, d);
            let ghost before = out@;
            out.push((m[i].0.clone(), v));
            assert(crate::k8s_model::pairs_view(out@) =~= crate::k8s_model::pairs_view(before).push(
                (m@[i as int].0@, v@),
            ));
        }
        i = i + 1;
    }
    assert(mv.take(m@.len() as int) =~= mv);
    out
}

fn stripped_value_exec(name: &String, value: &String, d: usize) -> (r: String)
    ensures
        r@ == stripped_value(name@, value@, d as nat),
    decreases d, 2nat, 0nat,
{
    proof {
        reveal_strlit("properties");
        reveal_strlit("items");
    }
    if *name == owned("properties") {
        match read_json_shape(value.as_str()) {
            Some(JsonShape::Members(pm)) => {
                let ghost pv = members_view(pm@);
                let mut out: Vec<(String, String)> = Vec::new();
                let mut i: usize = 0;
                while i < pm.len()
                    invariant
                        i <= pm@.len(),
                        pv == members_view(pm@),
                        crate::k8s_model::pairs_view(out@) == stripped_props(pv.take(i as int), d as nat),
                    decreases pm@.len() - i,
                {
                    let ghost t = pv.take(i + 1);
                    assert(t.drop_last() =~= pv.take(i as int));
                    assert(t.last() == pv[i as int]);
                    let v = without_required_exec(pm[i].2.as_str(), d);
                    let ghost before = out@;
                    out.push((pm[i].0.clone(), v));
                    assert(crate::k8s_model::pairs_view(out@) =~= crate::k8s_model::pairs_view(before).push(
                        (pm@[i as int].0@, v@),
                    ));
                    i = i + 1;
                }
                assert(pv.take(pm@.len() as int) =~= pv);
                object_exec(&out)
            },
            _ => value.clone(),
        }
    } else if *name == owned("items") {
        match read_json_shape(value.as_str()) {
            Some(JsonShape::Items(v)) => {
                let ghost iv = strs_view(v@);
                let mut out: Vec<String> = Vec::new();
                let mut i: usize = 0;
                while i < v.len()
                    invariant
                        i <= v@.len(),
                        iv == strs_view(v@),
                        strs_view(out@) == stripped_items(iv.take(i as int), d as nat),
                    decreases v@.len() - i,
                {
                    let ghost t = iv.take(i + 1);
                    assert(t.drop_last() =~= iv.take(i as int));
                    let s = without_required_exec(v[i].as_str(), d);
                    let ghost before = out@;
                    out.push(s);
                    assert(strs_view(out@) =~= strs_view(before).push(s@));
                    i = i + 1;
                }
                assert(iv.take(v@.len() as int) =~= iv);
                concat_str(concat_str("[", join_exec(&out).as_str()).as_str(), "]")
            },
            Some(_) => without_required_exec(value.as_str(), d),
            None => value.clone(),
        }
    } else {
        value.clone()
    }
}

impl App {
    /// The schema `schema` without any `required` list: the object loses its own, and so do
    /// the schemas under its `properties` and `items`, at every level. The result is written
    /// compactly; a text that is no JSON object is handed back as it is. Nesting is followed
    /// as deep as the text is long, which no JSON text reaches.
    pub fn strip_required(schema: &str) -> (r: String)
        ensures
            r@ == without_required(schema@, schema@.len()),
    {
        let n = crate::text::chars_of(schema).len();
        without_required_exec(schema, n)
    }
}

} // verus!

//! Insertion-ordered string maps, written out as JSON objects.
use vstd::prelude::*;
use crate::k8s_model::pairs_view;
use crate::job_spec::join;
use crate::json::{json_string, json_string_text};
use crate::text::owned;

verus! {

pub type PairsView = Seq<(Seq<char>, Seq<char>)>;

/// Inserting into an insertion-ordered map: an existing key keeps its place and takes the
/// new value; a new key goes to the end.
pub open spec fn index_insert(m: PairsView, k: Seq<char>, v: Seq<char>) -> PairsView
    decreases m.len(),
{
    if m.len() == 0 {
        seq![(k, v)]
    } else if m[0].0 == k {
        m.update(0, (k, v))
    } else {
        seq![m[0]] + index_insert(m.drop_first(), k, v)
    }
}

/// Inserting the items in order.
pub open spec fn insert_all(m: PairsView, items: PairsView) -> PairsView
    decreases items.len(),
{
    if items.len() == 0 {
        m
    } else {
        let p = items.last();
        index_insert(insert_all(m, items.drop_last()), p.0, p.1)
    }
}

/// A JSON object written compactly, keys quoted, values taken as they are.
pub open spec fn json_object(m: PairsView) -> Seq<char> {
    "{"@ + join(m.map_values(|p: (Seq<char>, Seq<char>)| json_string_text(p.0) + ":"@ + p.1), ","@) + "}"@
}

pub proof fn lemma_index_insert_at(m: PairsView, k: Seq<char>, v: Seq<char>, i: int)
    requires
        0 <= i <= m.len(),
        forall|j: int| 0 <= j < i ==> m[j].0 != k,
        i == m.len() || m[i].0 == k,
    ensures
        index_insert(m, k, v) == if i == m.len() { m.push((k, v)) } else { m.update(i, (k, v)) },
    decreases i,
{
    if i == 0 {
        if m.len() == 0 {
            assert(seq![(k, v)] =~= m.push((k, v)));
        }
    } else {
        lemma_index_insert_at(m.drop_first(), k, v, i - 1);
        if i == m.len() {
            assert(seq![m[0]] + m.drop_first().push((k, v)) =~= m.push((k, v)));
        } else {
            assert(seq![m[0]] + m.drop_first().update(i - 1, (k, v)) =~= m.update(i, (k, v)));
        }
    }
}

pub proof fn lemma_insert_all_append(m: PairsView, a: PairsView, b: PairsView)
    ensures
        insert_all(m, a + b) == insert_all(insert_all(m, a), b),
    decreases b.len(),
{
    if b.len() == 0 {
        assert(a + b =~= a);
    } else {
        assert((a + b).drop_last() =~= a + b.drop_last());
        lemma_insert_all_append(m, a, b.drop_last());
    }
}

/// Inserts a pair into an insertion-ordered map.
pub fn insert_pair(m: &mut Vec<(String, String)>, k: String, v: String)
    ensures
        pairs_view(final(m)@) == index_insert(pairs_view(old(m)@), k@, v@),
{
    let ghost old_view = pairs_view(m@);
    let mut i: usize = 0;
    while i < m.len()
        invariant
            i <= m@.len(),
            old_view == pairs_view(m@),
            old_view == pairs_view(old(m)@),
            forall|j: int| 0 <= j < i ==> old_view[j].0 != k@,
        decreases m@.len() - i,
    {
        if m[i].0 == k {
            proof {
                lemma_index_insert_at(old_view, k@, v@, i as int);
            }
            let ghost kv = k@;
            let ghost vv = v@;
            m.set(i, (k, v));
            assert(pairs_view(m@) =~= old_view.update(i as int, (kv, vv)));
            return;
        }
        i = i + 1;
    }
    proof {
        lemma_index_insert_at(old_view, k@, v@, i as int);
    }
    let ghost kv = k@;
    let ghost vv = v@;
    m.push((k, v));
    assert(pairs_view(m@) =~= old_view.push((kv, vv)));
}

/// Writes an insertion-ordered map as a compact JSON object whose values are JSON texts.
pub fn json_object_text(m: &Vec<(String, String)>) -> (r: String)
    ensures
        r@ == json_object(pairs_view(m@)),
{
    let ghost f = |p: (Seq<char>, Seq<char>)| json_string_text(p.0) + ":"@ + p.1;
    let mut parts: Vec<String> = Vec::new();
    let mut i: usize = 0;
    while i < m.len()
        invariant
            i <= m@.len(),
            f == (|p: (Seq<char>, Seq<char>)| json_string_text(p.0) + ":"@ + p.1),
            parts@.len() == i,
            forall|j: int| 0 <= j < i ==> #[trigger] parts@[j]@ == f(pairs_view(m@)[j]),
        decreases m@.len() - i,
    {
        let key = json_string(m[i].0.as_str());
        let entry = key.concat(":");
        let entry = entry.concat(m[i].1.as_str());
        parts.push(entry);
        i = i + 1;
    }
    let inner = crate::job_spec::join_strings(&parts, ",");
    assert(crate::k8s_model::strs_view(parts@) =~= pairs_view(m@).map_values(f));
    let r = owned("{");
    let r = r.concat(inner.as_str());
    r.concat("}")
}

} // verus!

//! Parsing and comparison of Kubernetes version strings such as `v1.25.0-alpha`.
use vstd::prelude::*;
use crate::job_machine::K8sJobMachine;
use crate::text::{chars_of, owned, string_from_chars};

verus! {

pub open spec fn is_digit(c: char) -> bool {
    '0' <= c && c <= '9'
}

/// Number of leading characters of `s` equal to `c`.
pub open spec fn leading_count(s: Seq<char>, c: char) -> nat
    decreases s.len(),
{
    if s.len() > 0 && s[0] == c {
        1 + leading_count(s.drop_first(), c)
    } else {
        0
    }
}

/// Index of the first occurrence of `c` in `s`, or the length of `s` when there is none.
pub open spec fn first_index_of(s: Seq<char>, c: char) -> nat
    decreases s.len(),
{
    if s.len() == 0 {
        0
    } else if s[0] == c {
        0
    } else {
        1 + first_index_of(s.drop_first(), c)
    }
}

/// Number of leading ASCII digits of `s`.
pub open spec fn leading_digits(s: Seq<char>) -> nat
    decreases s.len(),
{
    if s.len() > 0 && is_digit(s[0]) {
        1 + leading_digits(s.drop_first())
    } else {
        0
    }
}

/// Decimal value of a sequence of ASCII digits.
pub open spec fn digits_value(d: Seq<char>) -> nat
    decreases d.len(),
{
    if d.len() == 0 {
        0
    } else {
        digits_value(d.drop_last()) * 10 + ((d.last() as nat) - ('0' as nat)) as nat
    }
}

/// `s` cut at every occurrence of `sep` (always at least one piece).
pub open spec fn split_on(s: Seq<char>, sep: char) -> Seq<Seq<char>>
    decreases s.len(),
{
    if s.len() == 0 {
        seq![Seq::<char>::empty()]
    } else {
        let init = split_on(s.drop_last(), sep);
        if s.last() == sep {
            init.push(Seq::<char>::empty())
        } else {
            init.update(init.len() - 1, init.last().push(s.last()))
        }
    }
}

/// Why a version component could not be read as an `i32`.
#[derive(PartialEq, Eq, Structural, Clone, Copy, Debug)]
pub enum ParseIntFailure {
    /// The component does not start with a digit.
    Empty,
    /// The leading digits denote a value above `i32::MAX`.
    Overflow,
}

/// A component is read from its leading ASCII digits.
pub open spec fn component_value(s: Seq<char>) -> Result<i32, ParseIntFailure> {
    let d = s.take(leading_digits(s) as int);
    if d.len() == 0 {
        Err(ParseIntFailure::Empty)
    } else if digits_value(d) > i32::MAX {
        Err(ParseIntFailure::Overflow)
    } else {
        Ok(digits_value(d) as i32)
    }
}

/// Components read left to right; the first unreadable one is reported.
pub open spec fn components_value(ps: Seq<Seq<char>>) -> Result<Seq<i32>, (Seq<char>, ParseIntFailure)>
    decreases ps.len(),
{
    if ps.len() == 0 {
        Ok(Seq::empty())
    } else {
        match components_value(ps.drop_last()) {
            Err(e) => Err(e),
            Ok(v) => match component_value(ps.last()) {
                Err(f) => Err((ps.last(), f)),
                Ok(x) => Ok(v.push(x)),
            },
        }
    }
}

/// The numeric part of a version: leading `v`s dropped, cut at the first `-`.
pub open spec fn version_core(s: Seq<char>) -> Seq<char> {
    let w = s.skip(leading_count(s, 'v') as int);
    w.take(first_index_of(w, '-') as int)
}

/// The components of a version string, as `do_parse_version` reads them.
pub open spec fn parse_version_spec(s: Seq<char>) -> Result<Seq<i32>, (Seq<char>, ParseIntFailure)> {
    components_value(split_on(version_core(s), '.'))
}

/// Error of `do_parse_version`: the first component that is not a number.
#[derive(PartialEq, Eq, Clone, Debug)]
pub struct VersionParseError {
    pub component: String,
    pub failure: ParseIntFailure,
}

// ---------------------------------------------------------------- lemmas

proof fn lemma_leading_count(s: Seq<char>, c: char, k: int)
    requires
        0 <= k <= s.len(),
        forall|j: int| 0 <= j < k ==> s[j] == c,
        k == s.len() || s[k] != c,
    ensures
        leading_count(s, c) == k,
    decreases k,
{
    if k > 0 {
        lemma_leading_count(s.drop_first(), c, k - 1);
    }
}

pub(crate) proof fn lemma_first_index_of(s: Seq<char>, c: char, k: int)
    requires
        0 <= k <= s.len(),
        forall|j: int| 0 <= j < k ==> s[j] != c,
        k == s.len() || s[k] == c,
    ensures
        first_index_of(s, c) == k,
    decreases k,
{
    if k > 0 {
        lemma_first_index_of(s.drop_first(), c, k - 1);
    }
}

proof fn lemma_leading_digits(s: Seq<char>, k: int)
    requires
        0 <= k <= s.len(),
        forall|j: int| 0 <= j < k ==> is_digit(s[j]),
        k == s.len() || !is_digit(s[k]),
    ensures
        leading_digits(s) == k,
    decreases k,
{
    if k > 0 {
        lemma_leading_digits(s.drop_first(), k - 1);
    }
}

proof fn lemma_leading_count_bound(s: Seq<char>, c: char)
    ensures
        leading_count(s, c) <= s.len(),
    decreases s.len(),
{
    if s.len() > 0 && s[0] == c {
        lemma_leading_count_bound(s.drop_first(), c);
    }
}

proof fn lemma_first_index_bound(s: Seq<char>, c: char)
    ensures
        first_index_of(s, c) <= s.len(),
    decreases s.len(),
{
    if s.len() > 0 && s[0] != c {
        lemma_first_index_bound(s.drop_first(), c);
    }
}

proof fn lemma_split_nonempty(s: Seq<char>, sep: char)
    ensures
        split_on(s, sep).len() >= 1,
    decreases s.len(),
{
    if s.len() > 0 {
        lemma_split_nonempty(s.drop_last(), sep);
    }
}

/// Growing a digit string never lowers its value.
pub proof fn lemma_digits_value_mono(d: Seq<char>, k: int)
    requires
        0 <= k <= d.len(),
        forall|j: int| 0 <= j < d.len() ==> is_digit(d[j]),
    ensures
        digits_value(d.take(k)) <= digits_value(d),
    decreases d.len() - k,
{
    if k == d.len() {
        assert(d.take(k) =~= d);
    } else {
        lemma_digits_value_mono(d, k + 1);
        let t = d.take(k + 1);
        assert(t.drop_last() =~= d.take(k));
        assert(is_digit(t.last()));
        let a = digits_value(d.take(k));
        assert(digits_value(t) == digits_value(t.drop_last()) * 10 + ((t.last() as nat) - ('0' as nat)) as nat);
        assert(a * 10 >= a) by (nonlinear_arith)
            requires a >= 0;
    }
}

proof fn lemma_components_err_prefix(ps: Seq<Seq<char>>, k: int, e: (Seq<char>, ParseIntFailure))
    requires
        0 <= k <= ps.len(),
        components_value(ps.take(k)) == Err::<Seq<i32>, (Seq<char>, ParseIntFailure)>(e),
    ensures
        components_value(ps) == Err::<Seq<i32>, (Seq<char>, ParseIntFailure)>(e),
    decreases ps.len() - k,
{
    if k == ps.len() {
        assert(ps.take(k) =~= ps);
    } else {
        assert(ps.drop_last().take(k) =~= ps.take(k));
        lemma_components_err_prefix(ps.drop_last(), k, e);
    }
}

/// Counting leading occurrences by a known prefix length.
pub proof fn lemma_leading_count_pub(s: Seq<char>, c: char, k: int)
    requires
        0 <= k <= s.len(),
        forall|j: int| 0 <= j < k ==> s[j] == c,
        k == s.len() || s[k] != c,
    ensures
        leading_count(s, c) == k,
{
    lemma_leading_count(s, c, k);
}

// ---------------------------------------------------------------- exec

/// Reads one version component: its leading digits as an `i32`.
fn parse_component(s: &Vec<char>) -> (r: Result<i32, ParseIntFailure>)
    ensures
        r == component_value(s@),
{
    let n = s.len();
    let mut k: usize = 0;
    while k < n && '0' <= s[k] && s[k] <= '9'
        invariant
            k <= n,
            n == s@.len(),
            forall|j: int| 0 <= j < k ==> is_digit(s@[j]),
        decreases n - k,
    {
        k = k + 1;
    }
    proof {
        lemma_leading_digits(s@, k as int);
    }
    let ghost d = s@.take(k as int);
    if k == 0 {
        return Err(ParseIntFailure::Empty);
    }
    let mut acc: i64 = 0;
    let mut i: usize = 0;
    while i < k
        invariant
            i <= k,
            k <= n,
            n == s@.len(),
            d == s@.take(k as int),
            0 < k,
            leading_digits(s@) == k,
            forall|j: int| 0 <= j < k ==> is_digit(s@[j]),
            acc == digits_value(d.take(i as int)),
            acc <= i32::MAX,
        decreases k - i,
    {
        let c = s[i];
        let dv: i64 = (c as u32 - '0' as u32) as i64;
        let next = acc * 10 + dv;
        assert(d.take((i + 1) as int).drop_last() =~= d.take(i as int));
        assert(d.take((i + 1) as int).last() == c);
        assert(next == digits_value(d.take((i + 1) as int)));
        if next > i32::MAX as i64 {
            proof {
                assert forall|j: int| 0 <= j < d.len() implies is_digit(d[j]) by {}
                lemma_digits_value_mono(d, (i + 1) as int);
            }
            return Err(ParseIntFailure::Overflow);
        }
        acc = next;
        i = i + 1;
    }
    assert(d.take(k as int) =~= d);
    Ok(acc as i32)
}

impl<S> K8sJobMachine<S> {
    /// Parses a version such as `v1.25.0-alpha` or `1.25.0+xyz` into its numeric components.
    pub fn do_parse_version(v: &str) -> (r: Result<Vec<i32>, VersionParseError>)
        ensures
            match parse_version_spec(v@) {
                Ok(c) => r is Ok && r->Ok_0@ == c,
                Err((comp, f)) => r is Err && r->Err_0.component@ == comp && r->Err_0.failure == f,
            },
    {
        let s = chars_of(v);
        let n = s.len();
        // skip leading 'v's
        let mut a: usize = 0;
        while a < n && s[a] == 'v'
            invariant
                a <= n,
                n == s@.len(),
                forall|j: int| 0 <= j < a ==> s@[j] == 'v',
            decreases n - a,
        {
            a = a + 1;
        }
        proof {
            lemma_leading_count(s@, 'v', a as int);
        }
        let ghost w = s@.skip(a as int);
        // cut at the first '-'
        let mut b: usize = a;
        while b < n && s[b] != '-'
            invariant
                a <= b <= n,
                n == s@.len(),
                w == s@.skip(a as int),
                forall|j: int| 0 <= j < b - a ==> w[j] != '-',
            decreases n - b,
        {
            b = b + 1;
        }
        proof {
            lemma_first_index_of(w, '-', (b - a) as int);
        }
        let ghost core = w.take((b - a) as int);
        assert(core == version_core(v@));
        // split at '.'
        let mut parts: Vec<Vec<char>> = Vec::new();
        let ghost mut gparts: Seq<Seq<char>> = Seq::empty();
        let mut cur: Vec<char> = Vec::new();
        let mut i: usize = a;
        proof {
            assert(core.take(0) =~= Seq::<char>::empty());
            assert(gparts.push(cur@) =~= split_on(core.take(0), '.'));
        }
        while i < b
            invariant
                a <= i <= b,
                b <= n,
                n == s@.len(),
                core == s@.subrange(a as int, b as int),
                gparts.len() == parts@.len(),
                forall|j: int| 0 <= j < gparts.len() ==> gparts[j] == #[trigger] parts@[j]@,
                gparts.push(cur@) == split_on(core.take(i - a), '.'),
            decreases b - i,
        {
            let c = s[i];
            let ghost pre = core.take(i - a);
            let ghost post = core.take(i + 1 - a);
            assert(post.drop_last() =~= pre);
            assert(post.last() == c);
            proof {
                lemma_split_nonempty(pre, '.');
            }
            if c == '.' {
                let done = cur;
                proof {
                    gparts = gparts.push(done@);
                }
                parts.push(done);
                cur = Vec::new();
                assert(gparts.push(cur@) =~= split_on(post, '.'));
            } else {
                cur.push(c);
                assert(gparts.push(cur@) =~= split_on(post, '.'));
            }
            i = i + 1;
        }
        assert(core.take(b - a) =~= core);
        let ghost ps = split_on(core, '.');
        proof {
            gparts = gparts.push(cur@);
        }
        parts.push(cur);
        assert(gparts =~= ps);
        // read the components
        let mut out: Vec<i32> = Vec::new();
        let m = parts.len();
        let mut k: usize = 0;
        assert(ps.take(0) =~= Seq::<Seq<char>>::empty());
        while k < m
            invariant
                k <= m,
                m == parts.len(),
                ps == split_on(version_core(v@), '.'),
                ps.len() == parts@.len(),
                forall|j: int| 0 <= j < ps.len() ==> ps[j] == #[trigger] parts@[j]@,
                components_value(ps.take(k as int)) == Ok::<Seq<i32>, (Seq<char>, ParseIntFailure)>(out@),
            decreases m - k,
        {
            assert(ps.take(k + 1).drop_last() =~= ps.take(k as int));
            assert(ps.take(k + 1).last() == parts@[k as int]@);
            match parse_component(&parts[k]) {
                Ok(x) => {
                    out.push(x);
                },
                Err(f) => {
                    assert(components_value(ps.take(k + 1)) == Err::<Seq<i32>, (Seq<char>, ParseIntFailure)>((parts@[k as int]@, f)));
                    proof {
                        lemma_components_err_prefix(ps, k + 1, (parts@[k as int]@, f));
                    }
                    let component = string_from_chars(&parts[k]);
                                return Err(VersionParseError { component, failure: f });
                },
            }
            k = k + 1;
        }
        assert(ps.take(m as int) =~= ps);
        Ok(out)
    }
}


/// Lexicographic order on sequences, as `Vec<i32>`'s `<` orders them.
pub open spec fn seq_lt(a: Seq<i32>, b: Seq<i32>) -> bool
    decreases a.len(),
{
    if a.len() == 0 {
        b.len() > 0
    } else if b.len() == 0 {
        false
    } else if a[0] < b[0] {
        true
    } else if a[0] > b[0] {
        false
    } else {
        seq_lt(a.drop_first(), b.drop_first())
    }
}

/// `v` extended with zeros up to length `n`.
pub open spec fn padded(v: Seq<i32>, n: nat) -> Seq<i32> {
    if v.len() >= n {
        v
    } else {
        v + Seq::new((n - v.len()) as nat, |i: int| 0i32)
    }
}

pub open spec fn max_len(a: Seq<i32>, b: Seq<i32>) -> nat {
    if a.len() >= b.len() { a.len() } else { b.len() }
}

/// `current` is older than `required` once both are padded with zero components.
pub open spec fn older_than(current: Seq<i32>, required: Seq<i32>) -> bool {
    let n = max_len(current, required);
    seq_lt(padded(current, n), padded(required, n))
}

/// Error of `do_check_version`.
#[derive(PartialEq, Eq, Debug)]
pub enum VersionCheckError {
    /// One of the two versions could not be parsed.
    Parse(VersionParseError),
    /// The cluster runs an older version than the one required.
    TooOld { cluster_version: String, min_version: String },
}

impl VersionCheckError {
    /// The error's message, as the runner logs it.
    pub fn message(&self) -> (m: String)
        ensures
            match self {
                VersionCheckError::TooOld { cluster_version, min_version } => m@ == "Cluster version "@
                    + cluster_version@ + " is less than required version "@ + min_version@,
                VersionCheckError::Parse(e) => m@ == "Failed to parse version component '"@ + e.component@
                    + "': "@ + failure_text(e.failure),
            },
    {
        match self {
            VersionCheckError::TooOld { cluster_version, min_version } => {
                let m = owned("Cluster version ");
                let m = m.concat(cluster_version.as_str());
                let m = m.concat(" is less than required version ");
                m.concat(min_version.as_str())
            },
            VersionCheckError::Parse(e) => {
                let m = owned("Failed to parse version component '");
                let m = m.concat(e.component.as_str());
                let m = m.concat("': ");
                match e.failure {
                    ParseIntFailure::Empty => m.concat("cannot parse integer from empty string"),
                    ParseIntFailure::Overflow => m.concat("number too large to fit in target type"),
                }
            },
        }
    }
}

/// std's wording for the two ways an `i32` parse fails here.
pub open spec fn failure_text(f: ParseIntFailure) -> Seq<char> {
    match f {
        ParseIntFailure::Empty => "cannot parse integer from empty string"@,
        ParseIntFailure::Overflow => "number too large to fit in target type"@,
    }
}

/// The result `do_check_version` owes for two version strings.
/// The message of the error that a failed version check gives.
pub open spec fn version_error_text(cluster_version: Seq<char>, min_version: Seq<char>) -> Seq<char> {
    match parse_version_spec(cluster_version) {
        Err((comp, f)) => "Failed to parse version component '"@ + comp + "': "@ + failure_text(f),
        Ok(_) => match parse_version_spec(min_version) {
            Err((comp, f)) => "Failed to parse version component '"@ + comp + "': "@ + failure_text(f),
            Ok(_) => "Cluster version "@ + cluster_version + " is less than required version "@ + min_version,
        },
    }
}

pub open spec fn check_version_ok(cluster_version: Seq<char>, min_version: Seq<char>) -> bool {
    parse_version_spec(cluster_version) is Ok && parse_version_spec(min_version) is Ok
        && !older_than(parse_version_spec(cluster_version)->Ok_0, parse_version_spec(min_version)->Ok_0)
}

fn padded_at(v: &Vec<i32>, i: usize) -> (x: i32)
    ensures
        i < v@.len() ==> x == v@[i as int],
        i >= v@.len() ==> x == 0,
{
    if i < v.len() {
        v[i]
    } else {
        0
    }
}

proof fn lemma_seq_lt_at(a: Seq<i32>, b: Seq<i32>, k: int)
    requires
        a.len() == b.len(),
        0 <= k <= a.len(),
        forall|j: int| 0 <= j < k ==> a[j] == b[j],
    ensures
        k == a.len() ==> !seq_lt(a, b),
        k < a.len() && a[k] < b[k] ==> seq_lt(a, b),
        k < a.len() && a[k] > b[k] ==> !seq_lt(a, b),
    decreases k,
{
    if k > 0 {
        lemma_seq_lt_at(a.drop_first(), b.drop_first(), k - 1);
    } else if a.len() == 0 {
    }
}

impl<S> K8sJobMachine<S> {
    /// Succeeds when `cluster_version` is at least `min_version`, comparing component by
    /// component after padding the shorter version with zeros.
    pub fn do_check_version(cluster_version: &str, min_version: &str) -> (r: Result<(), VersionCheckError>)
        ensures
            r is Ok <==> check_version_ok(cluster_version@, min_version@),
            match parse_version_spec(cluster_version@) {
                Err((comp, f)) => r matches Err(VersionCheckError::Parse(e)) && e.component@ == comp && e.failure == f,
                Ok(cur) => match parse_version_spec(min_version@) {
                    Err((comp, f)) => r matches Err(VersionCheckError::Parse(e)) && e.component@ == comp && e.failure
                        == f,
                    Ok(req) => if older_than(cur, req) {
                        r matches Err(VersionCheckError::TooOld { cluster_version: c, min_version: m }) && c@
                            == cluster_version@ && m@ == min_version@
                    } else {
                        r is Ok
                    },
                },
            },
    {
        let current = match Self::do_parse_version(cluster_version) {
            Ok(c) => c,
            Err(e) => return Err(VersionCheckError::Parse(e)),
        };
        let required = match Self::do_parse_version(min_version) {
            Ok(c) => c,
            Err(e) => return Err(VersionCheckError::Parse(e)),
        };
        let n = if current.len() >= required.len() { current.len() } else { required.len() };
        let ghost a = padded(current@, n as nat);
        let ghost b = padded(required@, n as nat);
        assert(a.len() == n && b.len() == n);
        let mut i: usize = 0;
        while i < n
            invariant
                i <= n,
                a == padded(current@, n as nat),
                b == padded(required@, n as nat),
                a.len() == n,
                b.len() == n,
                forall|j: int| 0 <= j < i ==> a[j] == b[j],
                parse_version_spec(cluster_version@) == Ok::<Seq<i32>, (Seq<char>, ParseIntFailure)>(current@),
                parse_version_spec(min_version@) == Ok::<Seq<i32>, (Seq<char>, ParseIntFailure)>(required@),
                n == max_len(current@, required@),
            decreases n - i,
        {
            let x = padded_at(&current, i);
            let y = padded_at(&required, i);
            assert(x == a[i as int]);
            assert(y == b[i as int]);
            if x < y {
                proof {
                    lemma_seq_lt_at(a, b, i as int);
                }
                return Err(
                    VersionCheckError::TooOld {
                        cluster_version: owned(cluster_version),
                        min_version: owned(min_version),
                    },
                );
            }
            if x > y {
                proof {
                    lemma_seq_lt_at(a, b, i as int);
                }
                return Ok(());
            }
            i = i + 1;
        }
        proof {
            lemma_seq_lt_at(a, b, n as int);
        }
        Ok(())
    }
}

proof fn lemma_seq_lt_irreflexive(a: Seq<i32>)
    ensures
        !seq_lt(a, a),
    decreases a.len(),
{
    if a.len() > 0 {
        lemma_seq_lt_irreflexive(a.drop_first());
    }
}

/// A cluster whose version string is the minimum itself always qualifies.
pub proof fn lemma_version_meets_itself(v: Seq<char>)
    requires
        parse_version_spec(v) is Ok,
    ensures
        check_version_ok(v, v),
{
    let x = parse_version_spec(v)->Ok_0;
    lemma_seq_lt_irreflexive(padded(x, max_len(x, x)));
}

/// The `j`-th component of a version, 0 past its end (`1.2` reads as `1.2.0`).
pub open spec fn component(v: Seq<i32>, j: int) -> int {
    if 0 <= j < v.len() {
        v[j] as int
    } else {
        0
    }
}

/// Versions are ordered component by component, missing components counting as 0: at the
/// first position where they differ, the smaller one is the older, whatever follows; versions
/// that differ nowhere are not older than each other.
pub proof fn lemma_version_order_law(cur: Seq<i32>, req: Seq<i32>, k: int)
    requires
        0 <= k,
        forall|j: int| 0 <= j < k ==> component(cur, j) == component(req, j),
    ensures
        component(cur, k) < component(req, k) ==> older_than(cur, req),
        component(cur, k) > component(req, k) ==> !older_than(cur, req),
        k >= cur.len() && k >= req.len() ==> !older_than(cur, req),
{
    let n = max_len(cur, req);
    let a = padded(cur, n);
    let b = padded(req, n);
    assert(a.len() == n && b.len() == n);
    assert forall|j: int| 0 <= j < n implies a[j] as int == component(cur, j) && b[j] as int == component(req, j) by {}
    if k < n {
        lemma_seq_lt_at(a, b, k);
    } else {
        lemma_seq_lt_at(a, b, n as int);
    }
}

/// A cluster qualifies exactly when both versions read and, at the first component where
/// they differ (missing ones counting as 0), the cluster's is the larger, or they differ
/// nowhere.
pub proof fn lemma_check_version_law(cluster_version: Seq<char>, min_version: Seq<char>, k: int)
    requires
        parse_version_spec(cluster_version) is Ok,
        parse_version_spec(min_version) is Ok,
        0 <= k,
        forall|j: int|
            0 <= j < k ==> component(parse_version_spec(cluster_version)->Ok_0, j) == component(
                parse_version_spec(min_version)->Ok_0,
                j,
            ),
    ensures
        component(parse_version_spec(cluster_version)->Ok_0, k) > component(parse_version_spec(min_version)->Ok_0, k)
            ==> check_version_ok(cluster_version, min_version),
        component(parse_version_spec(cluster_version)->Ok_0, k) < component(parse_version_spec(min_version)->Ok_0, k)
            ==> !check_version_ok(cluster_version, min_version),
        k >= parse_version_spec(cluster_version)->Ok_0.len() && k >= parse_version_spec(min_version)->Ok_0.len()
            ==> check_version_ok(cluster_version, min_version),
{
    lemma_version_order_law(parse_version_spec(cluster_version)->Ok_0, parse_version_spec(min_version)->Ok_0, k);
}

/// A version that does not read never qualifies, nor does any cluster against it.
pub proof fn lemma_check_version_needs_both(cluster_version: Seq<char>, min_version: Seq<char>)
    ensures
        parse_version_spec(cluster_version) is Err ==> !check_version_ok(cluster_version, min_version),
        parse_version_spec(min_version) is Err ==> !check_version_ok(cluster_version, min_version),
{
}

} // verus!

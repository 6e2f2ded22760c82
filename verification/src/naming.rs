//! Names of the Kubernetes objects the runner creates.
use vstd::prelude::*;
use vstd::arithmetic::power::pow;
use crate::text::{chars_of, owned, string_from_chars};

verus! {

/// What std's `str::to_lowercase` returns for a string (Unicode lowercase mapping).
pub uninterp spec fn lowercase_text(s: Seq<char>) -> Seq<char>;

/// ASCII lowercase letters, digits and `_` only: characters whose lowercase mapping is
/// themselves.
pub open spec fn plain_lowercase(t: Seq<char>) -> bool {
    forall|i: int| 0 <= i < t.len() ==> ('a' <= #[trigger] t[i] <= 'z' || '0' <= t[i] <= '9' || t[i] == '_')
}

/// std's `str::to_lowercase`: its result is named `lowercase_text` of the argument. The
/// empty text stays empty, and a result made only of ASCII lowercase letters, digits and `_`
/// lowercases to itself, as each such character maps to itself.
#[verifier::external_body]
pub(crate) fn to_lowercase(s: &str) -> (r: String)
    ensures
        r@ == lowercase_text(s@),
        s@.len() == 0 ==> r@.len() == 0,
        plain_lowercase(r@) ==> lowercase_text(r@) == r@,
{
    s.to_lowercase()
}

/// Every `_` replaced by `-`.
pub open spec fn dashed(s: Seq<char>) -> Seq<char> {
    s.map_values(|c: char| if c == '_' { '-' } else { c })
}

/// Replaces every underscore of `s` by a dash.
pub fn dash_underscores(s: &str) -> (r: String)
    ensures
        r@ == dashed(s@),
{
    let cs = chars_of(s);
    let mut out: Vec<char> = Vec::new();
    let mut i: usize = 0;
    while i < cs.len()
        invariant
            i <= cs@.len(),
            cs@ == s@,
            out@ == dashed(s@.take(i as int)),
        decreases cs@.len() - i,
    {
        let c = cs[i];
        out.push(if c == '_' { '-' } else { c });
        i = i + 1;
        assert(out@ =~= dashed(s@.take(i as int)));
    }
    assert(s@.take(i as int) =~= s@);
    string_from_chars(&out)
}

/// A name made fit for Kubernetes: lowercased, underscores turned into dashes.
pub open spec fn k8s_name(s: Seq<char>) -> Seq<char> {
    dashed(lowercase_text(s))
}

/// `{prefix}-{name}` with `name` lowercased and its underscores turned into dashes.
pub fn normalize_resource_name(name: &str, prefix: &str) -> (r: String)
    ensures
        r@ == prefix@ + seq!['-'] + k8s_name(name@),
{
    let low = to_lowercase(name);
    let d = dash_underscores(low.as_str());
    let r = owned(prefix);
    let r = r.concat("-");
    proof {
        reveal_strlit("-");
    }
    r.concat(d.as_str())
}

// ---------------------------------------------------------------- UUID text

/// Lowercase hexadecimal digit for `d` in `0..16`.
pub open spec fn hex_char(d: int) -> char {
    if d < 10 {
        (('0' as int) + d) as char
    } else {
        (('a' as int) + d - 10) as char
    }
}

/// The `j`-th of the 32 hexadecimal digits of `x`, most significant first.
pub open spec fn nibble(x: u128, j: int) -> int {
    ((x as int) / pow(16, (31 - j) as nat)) % 16
}

pub open spec fn is_uuid_hyphen_pos(i: int) -> bool {
    i == 8 || i == 13 || i == 18 || i == 23
}

/// Number of hyphens that precede position `i` of a hyphenated UUID.
pub open spec fn hyphens_before(i: int) -> int {
    if i > 23 { 4 } else if i > 18 { 3 } else if i > 13 { 2 } else if i > 8 { 1 } else { 0 }
}

/// The hyphenated lowercase form `xxxxxxxx-xxxx-xxxx-xxxx-xxxxxxxxxxxx` of a UUID.
pub open spec fn uuid_text(x: u128) -> Seq<char> {
    Seq::new(
        36,
        |i: int|
            if is_uuid_hyphen_pos(i) {
                '-'
            } else {
                hex_char(nibble(x, i - hyphens_before(i)))
            },
    )
}

/// uuid's `Display` of `Uuid::from_u128(x)`: the hyphenated lowercase form of its 128 bits,
/// most significant digit first.
#[verifier::external_body]
pub fn uuid_string(x: u128) -> (r: String)
    ensures
        r@ == uuid_text(x),
{
    uuid::Uuid::from_u128(x).to_string()
}

/// What uuid's `Uuid::parse_str` reads from a text (hyphenated, simple, braced or URN
/// form), as its 128 bits; `None` when the text is no UUID.
pub uninterp spec fn uuid_parsed(s: Seq<char>) -> Option<u128>;

/// uuid's `Uuid::parse_str` followed by `as_u128`; the result is named `uuid_parsed` of the
/// text. The hyphenated form that `Display` writes is read back as the same UUID.
#[verifier::external_body]
pub fn parse_uuid(s: &str) -> (r: Option<u128>)
    ensures
        r == uuid_parsed(s@),
        forall|x: u128| s@ == #[trigger] uuid_text(x) ==> r == Some(x),
{
    match uuid::Uuid::parse_str(s) {
        Ok(u) => Some(u.as_u128()),
        Err(_) => None,
    }
}

/// The first eight characters of `s` (all of it when shorter).
fn first_eight(s: &String) -> (r: String)
    requires
        s@.len() >= 8,
    ensures
        r@ == s@.take(8),
{
    let cs = chars_of(s.as_str());
    let mut out: Vec<char> = Vec::new();
    let mut i: usize = 0;
    while i < 8
        invariant
            i <= 8,
            cs@ == s@,
            s@.len() >= 8,
            out@ == s@.take(i as int),
        decreases 8 - i,
    {
        out.push(cs[i]);
        i = i + 1;
        assert(out@ =~= s@.take(i as int));
    }
    string_from_chars(&out)
}

/// The name of the Kubernetes Job that runs a step: `storm-{step}-{first 8 hex of step id}`.
pub open spec fn job_name_spec(step_name: Seq<char>, step_id: u128) -> Seq<char> {
    "storm-"@ + k8s_name(step_name) + seq!['-'] + uuid_text(step_id).take(8)
}

/// Builds the Job name for a step.
pub fn job_name(step_name: &str, step_id: u128) -> (r: String)
    ensures
        r@ == job_name_spec(step_name@, step_id),
{
    let low = to_lowercase(step_name);
    let d = dash_underscores(low.as_str());
    let id = uuid_string(step_id);
    let short = first_eight(&id);
    let r = owned("storm-");
    let r = r.concat(d.as_str());
    let r = r.concat("-");
    proof {
        reveal_strlit("-");
    }
    r.concat(short.as_str())
}

/// Name of the image-pull secret of a step: the Job name followed by `-auth`.
pub fn registry_secret_name(step_name: &str, step_id: u128) -> (r: String)
    ensures
        r@ == job_name_spec(step_name@, step_id) + "-auth"@,
{
    let n = job_name(step_name, step_id);
    n.concat("-auth")
}

} // verus!

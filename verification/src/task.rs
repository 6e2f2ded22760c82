//! Reading a task: the step to run, an orphaned Job's step, the cluster gate and the
//! runner's configuration.
use vstd::prelude::*;
use crate::k8s_model::{opt_str_view, pairs_view};
use crate::model::Step;
use crate::naming::uuid_text;
use crate::text::{owned, parse_int_in, int_syntax};

verus! {

pub open spec fn str_or_empty(o: Option<String>) -> Seq<char> {
    match o {
        Some(s) => s@,
        None => Seq::empty(),
    }
}

/// The step built from a task's loose fields when it carries no readable DSL: name and
/// type default to empty, parameters to none.
pub fn fallback_step(
    step_name: Option<String>,
    step_type: Option<String>,
    params: Option<Vec<(String, String)>>,
    spec_json: String,
) -> (s: Step)
    ensures
        s.name@ == str_or_empty(step_name),
        s.step_type@ == str_or_empty(step_type),
        s.params@ == match params {
            Some(p) => p@,
            None => Seq::empty(),
        },
        s.spec_json == spec_json,
        s.reports_json@.len() == 0,
        s.retry_count is None,
        s.others@.len() == 0,
{
    Step {
        name: match step_name {
            Some(n) => n,
            None => String::new(),
        },
        step_type: match step_type {
            Some(t) => t,
            None => String::new(),
        },
        spec_json,
        params: match params {
            Some(p) => p,
            None => Vec::new(),
        },
        reports_json: Vec::new(),
        retry_count: None,
        others: Vec::new(),
    }
}

/// The step of a task: its DSL with the task's spec in place of the DSL's, or the fallback
/// step when the DSL is missing or unreadable.
pub fn task_step(
    parsed_dsl: Option<Step>,
    step_name: Option<String>,
    step_type: Option<String>,
    params: Option<Vec<(String, String)>>,
    spec_json: String,
) -> (s: Step)
    ensures
        match parsed_dsl {
            Some(d) => s.name == d.name && s.step_type == d.step_type && s.params == d.params
                && s.reports_json == d.reports_json && s.retry_count == d.retry_count && s.spec_json == spec_json
                && s.others == d.others,
            None => s.name@ == str_or_empty(step_name) && s.step_type@ == str_or_empty(step_type) && s.spec_json
                == spec_json && s.reports_json@.len() == 0 && s.retry_count is None && s.others@.len() == 0
                && s.params@ == match params {
                Some(p) => p@,
                None => Seq::empty(),
            },
        },
{
    match parsed_dsl {
        Some(d) => Step {
            name: d.name,
            step_type: d.step_type,
            spec_json,
            params: d.params,
            reports_json: d.reports_json,
            retry_count: d.retry_count,
            others: d.others,
        },
        None => fallback_step(step_name, step_type, params, spec_json),
    }
}

/// Where the DSL of an orphaned Job is to be read from.
pub enum DslSource {
    /// Nothing usable: rebuild a minimal step.
    Fallback,
    /// The annotation holds the DSL as JSON text.
    Plain(String),
    /// The annotation holds the DSL encrypted with this key.
    Encrypted { data: String, key: String },
}

/// Decides how to read an orphaned Job's DSL: without an annotation, or encrypted without
/// a key, the minimal step is rebuilt.
pub fn dsl_source(is_encrypted: bool, encryption_key: Option<String>, raw_step_dsl: Option<String>) -> (d: DslSource)
    ensures
        match raw_step_dsl {
            None => d is Fallback,
            Some(raw) => if is_encrypted {
                match encryption_key {
                    Some(k) => d matches DslSource::Encrypted { data, key } && data == raw && key == k,
                    None => d is Fallback,
                }
            } else {
                d matches DslSource::Plain(p) && p == raw
            },
        },
{
    match raw_step_dsl {
        None => DslSource::Fallback,
        Some(raw) => {
            if is_encrypted {
                match encryption_key {
                    Some(k) => DslSource::Encrypted { data: raw, key: k },
                    None => DslSource::Fallback,
                }
            } else {
                DslSource::Plain(raw)
            }
        },
    }
}

/// The step of an orphaned Job: its DSL when it could be read, else a `RunContainer` step
/// named after the Job with no spec.
pub fn reconstruct_step(job_name: &String, parsed: Option<Step>) -> (s: Step)
    ensures
        match parsed {
            Some(p) => s == p,
            None => s.name@ == job_name@ && s.step_type@ == "RunContainer"@ && s.spec_json@ == "null"@
                && s.params@.len() == 0 && s.reports_json@.len() == 0 && s.retry_count is None
                && s.others@.len() == 0,
        },
{
    match parsed {
        Some(p) => p,
        None => Step {
            name: job_name.clone(),
            step_type: owned("RunContainer"),
            spec_json: owned("null"),
            params: Vec::new(),
            reports_json: Vec::new(),
            retry_count: None,
            others: Vec::new(),
        },
    }
}

/// The fencing token of a Job: its label read as an `i64`, or 0.
pub fn fencing_token_of(label: Option<String>) -> (t: i64)
    ensures
        match label {
            Some(l) => match int_syntax(l@) {
                Some(v) => if i64::MIN <= v <= i64::MAX { t == v } else { t == 0 },
                None => t == 0,
            },
            None => t == 0,
        },
{
    match label {
        Some(l) => match parse_int_in(l.as_str(), i64::MIN, i64::MAX) {
            Some(v) => v,
            None => 0,
        },
        None => 0,
    }
}

// ---------------------------------------------------------------- cluster gate

/// Every `+` removed.
pub open spec fn without_plus(s: Seq<char>) -> Seq<char> {
    crate::containers::remove_char(s, '+')
}

/// `s` read as an `i32`, or 0.
pub open spec fn i32_or_zero(s: Seq<char>) -> int {
    match int_syntax(s) {
        Some(v) => if i32::MIN <= v <= i32::MAX { v } else { 0 },
        None => 0,
    }
}

/// The version a cluster reports, and whether the runner supports it (1.21 or later).
pub struct ClusterVersion {
    /// `major.minor`, the minor without `+`.
    pub version: String,
    /// Why the cluster is not supported, if it is not.
    pub unsupported: Option<String>,
}

fn strip_plus(s: &String) -> (r: String)
    ensures
        r@ == without_plus(s@),
{
    let cs = crate::text::chars_of(s.as_str());
    let mut out: Vec<char> = Vec::new();
    let mut i: usize = 0;
    while i < cs.len()
        invariant
            i <= cs@.len(),
            cs@ == s@,
            out@ == crate::containers::remove_char(s@.take(i as int), '+'),
        decreases cs@.len() - i,
    {
        assert(s@.take(i + 1).drop_last() =~= s@.take(i as int));
        if cs[i] != '+' {
            out.push(cs[i]);
        }
        i = i + 1;
    }
    assert(s@.take(i as int) =~= s@);
    crate::text::string_from_chars(&out)
}

fn i32_or_zero_exec(s: &String) -> (r: i64)
    ensures
        r == i32_or_zero(s@),
{
    match parse_int_in(s.as_str(), i32::MIN as i64, i32::MAX as i64) {
        Some(v) => v,
        None => 0,
    }
}

/// Reads the `/version` answer of a cluster (missing fields count as `0`): clusters older
/// than 1.21 are not supported.
pub fn cluster_version_gate(cluster_name: &String, major: Option<String>, minor: Option<String>) -> (r: ClusterVersion)
    ensures
        r.version@ == str_or(major, "0"@) + "."@ + without_plus(str_or(minor, "0"@)),
        ({
            let ma = i32_or_zero(str_or(major, "0"@));
            let mi = i32_or_zero(without_plus(str_or(minor, "0"@)));
            (r.unsupported is Some) == (ma < 1 || (ma == 1 && mi < 21))
        }),
        r.unsupported matches Some(m) ==> m@ == "Kubernetes cluster "@ + cluster_name@ + " version v"@ + str_or(
            major,
            "0"@,
        ) + "."@ + str_or(minor, "0"@) + " is not supported. Minimum required is v1.21.0"@,
{
    let major = match major {
        Some(m) => m,
        None => owned("0"),
    };
    let minor = match minor {
        Some(m) => m,
        None => owned("0"),
    };
    let minor_clean = strip_plus(&minor);
    let version = major.clone().concat(".");
    let version = version.concat(minor_clean.as_str());
    let major_int = i32_or_zero_exec(&major);
    let minor_int = i32_or_zero_exec(&minor_clean);
    let unsupported = if major_int < 1 || (major_int == 1 && minor_int < 21) {
        let m = owned("Kubernetes cluster ");
        let m = m.concat(cluster_name.as_str());
        let m = m.concat(" version v");
        let m = m.concat(major.as_str());
        let m = m.concat(".");
        let m = m.concat(minor.as_str());
        Some(m.concat(" is not supported. Minimum required is v1.21.0"))
    } else {
        None
    };
    ClusterVersion { version, unsupported }
}

pub open spec fn str_or(o: Option<String>, d: Seq<char>) -> Seq<char> {
    match o {
        Some(s) => s@,
        None => d,
    }
}

// ---------------------------------------------------------------- configuration

/// The runner's configuration.
pub struct Config {
    pub nats_url: String,
    pub runner_id: String,
    pub encryption_key: Option<String>,
    pub rust_log: String,
}

/// The value of the last pair with this key.
pub open spec fn last_value(env: Seq<(String, String)>, key: Seq<char>) -> Option<Seq<char>>
    decreases env.len(),
{
    if env.len() == 0 {
        None
    } else if env.last().0@ == key {
        Some(env.last().1@)
    } else {
        last_value(env.drop_last(), key)
    }
}

pub open spec fn value_or(o: Option<Seq<char>>, d: Seq<char>) -> Seq<char> {
    match o {
        Some(v) => v,
        None => d,
    }
}

/// uuid's `Uuid::new_v4`, as its 128 bits: a random value, of which nothing is promised.
#[verifier::external_body]
fn random_uuid() -> (r: u128) {
    uuid::Uuid::new_v4().as_u128()
}

impl Config {
    /// Reads the configuration from environment pairs; the last value of a variable wins,
    /// and the runner id defaults to `default_runner_id`.
    pub fn from_env_with_default(env: Vec<(String, String)>, default_runner_id: String) -> (c: Config)
        ensures
            c.nats_url@ == value_or(last_value(env@, "NATS_URL"@), "nats://localhost:4222"@),
            c.runner_id@ == value_or(last_value(env@, "RUNNER_ID"@), default_runner_id@),
            opt_str_view(c.encryption_key) == last_value(env@, "STORMCHASER_STATE_ENCRYPTION_KEY"@),
            c.rust_log@ == value_or(last_value(env@, "RUST_LOG"@), "stormchaser_runner_k8s=info"@),
    {
        let mut nats_url = owned("nats://localhost:4222");
        let mut runner_id = default_runner_id;
        let mut encryption_key: Option<String> = None;
        let mut rust_log = owned("stormchaser_runner_k8s=info");
        let k_nats = owned("NATS_URL");
        let k_runner = owned("RUNNER_ID");
        let k_key = owned("STORMCHASER_STATE_ENCRYPTION_KEY");
        let k_log = owned("RUST_LOG");
        let ghost d_runner = default_runner_id@;
        let mut i: usize = 0;
        while i < env.len()
            invariant
                i <= env@.len(),
                k_nats@ == "NATS_URL"@,
                k_runner@ == "RUNNER_ID"@,
                k_key@ == "STORMCHASER_STATE_ENCRYPTION_KEY"@,
                k_log@ == "RUST_LOG"@,
                nats_url@ == value_or(last_value(env@.take(i as int), "NATS_URL"@), "nats://localhost:4222"@),
                runner_id@ == value_or(last_value(env@.take(i as int), "RUNNER_ID"@), d_runner),
                opt_str_view(encryption_key) == last_value(env@.take(i as int), "STORMCHASER_STATE_ENCRYPTION_KEY"@),
                rust_log@ == value_or(last_value(env@.take(i as int), "RUST_LOG"@), "stormchaser_runner_k8s=info"@),
            decreases env@.len() - i,
        {
            assert(env@.take(i + 1).drop_last() =~= env@.take(i as int));
            proof {
                reveal_strlit("NATS_URL");
                reveal_strlit("RUNNER_ID");
                reveal_strlit("STORMCHASER_STATE_ENCRYPTION_KEY");
                reveal_strlit("RUST_LOG");
                assert("NATS_URL"@[0] != "RUNNER_ID"@[0]);
                assert("NATS_URL"@[0] != "STORMCHASER_STATE_ENCRYPTION_KEY"@[0]);
                assert("NATS_URL"@[0] != "RUST_LOG"@[0]);
                assert("RUNNER_ID"@[2] != "RUST_LOG"@[2]);
                assert("RUNNER_ID"@[0] != "STORMCHASER_STATE_ENCRYPTION_KEY"@[0]);
                assert("RUST_LOG"@[0] != "STORMCHASER_STATE_ENCRYPTION_KEY"@[0]);
            }
            let (k, v) = (&env[i].0, &env[i].1);
            if *k == k_nats {
                nats_url = v.clone();
            } else if *k == k_runner {
                runner_id = v.clone();
            } else if *k == k_key {
                encryption_key = Some(v.clone());
            } else if *k == k_log {
                rust_log = v.clone();
            }
            i = i + 1;
        }
        assert(env@.take(i as int) =~= env@);
        Config { nats_url, runner_id, encryption_key, rust_log }
    }

    /// Reads the configuration from environment pairs, with a random runner id unless
    /// `RUNNER_ID` is set.
    pub fn from_env(env: Vec<(String, String)>) -> (c: Config)
        ensures
            c.nats_url@ == value_or(last_value(env@, "NATS_URL"@), "nats://localhost:4222"@),
            last_value(env@, "RUNNER_ID"@) matches Some(r) ==> c.runner_id@ == r,
            last_value(env@, "RUNNER_ID"@) is None ==> exists|x: u128| c.runner_id@ == uuid_text(x),
            opt_str_view(c.encryption_key) == last_value(env@, "STORMCHASER_STATE_ENCRYPTION_KEY"@),
            c.rust_log@ == value_or(last_value(env@, "RUST_LOG"@), "stormchaser_runner_k8s=info"@),
    {
        let id = crate::naming::uuid_string(random_uuid());
        Self::from_env_with_default(env, id)
    }
}

/// Of several pairs with one key, the last one gives the value: a pair `(key, v)` followed
/// only by pairs with other keys decides it.
pub proof fn lemma_last_pair_wins(env: Seq<(String, String)>, key: String, v: String, rest: Seq<(String, String)>)
    requires
        forall|i: int| 0 <= i < rest.len() ==> (#[trigger] rest[i]).0@ != key@,
    ensures
        last_value(env + seq![(key, v)] + rest, key@) == Some(v@),
    decreases rest.len(),
{
    if rest.len() == 0 {
        assert(env + seq![(key, v)] + rest =~= (env + seq![(key, v)]));
        assert((env + seq![(key, v)]).drop_last() =~= env);
    } else {
        let all = env + seq![(key, v)] + rest;
        assert(rest.last() == rest[rest.len() - 1]);
        assert(all.drop_last() =~= env + seq![(key, v)] + rest.drop_last());
        lemma_last_pair_wins(env, key, v, rest.drop_last());
    }
}

/// A pair whose key is not the one looked up changes nothing, wherever it stands.
pub proof fn lemma_other_keys_ignored(front: Seq<(String, String)>, other: (String, String), back: Seq<(String, String)>, key: Seq<char>)
    requires
        other.0@ != key,
    ensures
        last_value(front + seq![other] + back, key) == last_value(front + back, key),
    decreases back.len(),
{
    if back.len() == 0 {
        assert(front + seq![other] + back =~= (front + seq![other]));
        assert((front + seq![other]).drop_last() =~= front);
        assert(front + back =~= front);
    } else {
        assert((front + seq![other] + back).drop_last() =~= front + seq![other] + back.drop_last());
        assert((front + back).drop_last() =~= front + back.drop_last());
        assert((front + seq![other] + back).last() == back.last());
        assert((front + back).last() == back.last());
        lemma_other_keys_ignored(front, other, back.drop_last(), key);
    }
}

/// The variables the runner's configuration reads.
pub open spec fn is_config_key(k: Seq<char>) -> bool {
    k == "NATS_URL"@ || k == "RUNNER_ID"@ || k == "STORMCHASER_STATE_ENCRYPTION_KEY"@ || k == "RUST_LOG"@
}

/// In `Config::from_env`, the last setting of a variable wins: after `(key, v)`, followed by
/// no other setting of `key`, the field that `key` sets is `v` (for the state key, `Some(v)`).
pub proof fn lemma_config_last_setting_wins(env: Seq<(String, String)>, key: String, v: String, rest: Seq<(String, String)>)
    requires
        is_config_key(key@),
        forall|i: int| 0 <= i < rest.len() ==> (#[trigger] rest[i]).0@ != key@,
    ensures
        key@ == "NATS_URL"@ ==> value_or(last_value(env + seq![(key, v)] + rest, "NATS_URL"@), "nats://localhost:4222"@)
            == v@,
        key@ == "RUNNER_ID"@ ==> last_value(env + seq![(key, v)] + rest, "RUNNER_ID"@) == Some(v@),
        key@ == "STORMCHASER_STATE_ENCRYPTION_KEY"@ ==> last_value(
            env + seq![(key, v)] + rest,
            "STORMCHASER_STATE_ENCRYPTION_KEY"@,
        ) == Some(v@),
        key@ == "RUST_LOG"@ ==> value_or(
            last_value(env + seq![(key, v)] + rest, "RUST_LOG"@),
            "stormchaser_runner_k8s=info"@,
        ) == v@,
{
    lemma_last_pair_wins(env, key, v, rest);
}

/// In `Config::from_env`, a variable the configuration does not read changes no field,
/// wherever it is set.
pub proof fn lemma_config_ignores_other_variables(
    front: Seq<(String, String)>,
    other: (String, String),
    back: Seq<(String, String)>,
)
    requires
        !is_config_key(other.0@),
    ensures
        last_value(front + seq![other] + back, "NATS_URL"@) == last_value(front + back, "NATS_URL"@),
        last_value(front + seq![other] + back, "RUNNER_ID"@) == last_value(front + back, "RUNNER_ID"@),
        last_value(front + seq![other] + back, "STORMCHASER_STATE_ENCRYPTION_KEY"@) == last_value(
            front + back,
            "STORMCHASER_STATE_ENCRYPTION_KEY"@,
        ),
        last_value(front + seq![other] + back, "RUST_LOG"@) == last_value(front + back, "RUST_LOG"@),
{
    lemma_other_keys_ignored(front, other, back, "NATS_URL"@);
    lemma_other_keys_ignored(front, other, back, "RUNNER_ID"@);
    lemma_other_keys_ignored(front, other, back, "STORMCHASER_STATE_ENCRYPTION_KEY"@);
    lemma_other_keys_ignored(front, other, back, "RUST_LOG"@);
}

} // verus!

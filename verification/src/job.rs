//! Reading a step's spec and assembling the Job that runs it.
use vstd::prelude::*;
use crate::containers::{build_k8s_containers, init_containers_spec, main_container_spec};
use crate::job_spec::{
    build_k8s_env_vars, build_k8s_volumes, env_spec, lemma_map_push, lemma_map_take_push, volume_mounts_spec,
    volumes_spec, NamedMount, StepSpec, StorageMount,
};
use crate::json::{rfc3339_from_nanos, rfc3339_text};
use crate::k8s_model::{
    clone_opt_pairs, clone_opt_string, containers_view, envs_view, mounts_view, opt_pairs_view, opt_str_view,
    opt_strs_view, pairs_view, strs_view, volumes_view, Container, EnvVar, Job, PodTemplate, ResourceRequirements,
    Volume,
};
use crate::model::JobMetadata;
use crate::decode::{step_json, step_json_text};
use crate::naming::{job_name_spec, registry_secret_name, uuid_string, uuid_text};
use crate::text::{i64_text, int_text, owned};

verus! {

/// An environment variable of the workflow DSL.
pub struct DslEnvVar {
    pub name: String,
    pub value: String,
}

/// The spec of a `RunContainer` step.
pub struct ContainerSpec {
    pub image: String,
    pub command: Option<Vec<String>>,
    pub args: Option<Vec<String>>,
    pub env: Option<Vec<DslEnvVar>>,
    pub cpu: Option<String>,
    pub memory: Option<String>,
    pub privileged: Option<bool>,
    pub storage_mounts: Option<Vec<StorageMount>>,
}

/// The spec of a `RunK8sJob` step.
pub struct K8sJobSpec {
    pub image: String,
    pub command: Option<Vec<String>>,
    pub args: Option<Vec<String>>,
    pub env: Option<Vec<DslEnvVar>>,
    pub resources: Option<ResourceRequirements>,
    pub active_deadline_seconds: Option<i64>,
    pub backoff_limit: Option<i32>,
    pub completions: Option<i32>,
    pub parallelism: Option<i32>,
    pub ttl_seconds_after_finished: Option<i32>,
    pub privileged: Option<bool>,
    pub node_selector: Option<Vec<(String, String)>>,
    pub service_account_name: Option<String>,
    pub restart_policy: Option<String>,
    pub labels: Option<Vec<(String, String)>>,
    pub annotations: Option<Vec<(String, String)>>,
    pub storage_mounts: Option<Vec<StorageMount>>,
    pub secret_mounts: Option<Vec<NamedMount>>,
    pub config_map_mounts: Option<Vec<NamedMount>>,
    pub minimum_version: Option<String>,
}

/// How a step type describes its container.
#[derive(PartialEq, Eq, Structural, Clone, Copy, Debug)]
pub enum StepKind {
    /// `RunContainer`: a `ContainerSpec` in the step's spec.
    RunContainer,
    /// `RunK8sJob`: a `K8sJobSpec` in the step's spec.
    RunK8sJob,
    /// Any other type: the image and command come from the step's parameters.
    Params,
}

pub open spec fn step_kind_spec(t: Seq<char>) -> StepKind {
    if t == "RunContainer"@ {
        StepKind::RunContainer
    } else if t == "RunK8sJob"@ {
        StepKind::RunK8sJob
    } else {
        StepKind::Params
    }
}

/// Which spec a step type carries.
pub fn step_kind(step_type: &String) -> (k: StepKind)
    ensures
        k == step_kind_spec(step_type@),
{
    if *step_type == owned("RunContainer") {
        StepKind::RunContainer
    } else if *step_type == owned("RunK8sJob") {
        StepKind::RunK8sJob
    } else {
        StepKind::Params
    }
}

/// The step's spec, read as its kind requires (`Unreadable` when it does not fit).
pub enum ParsedSpec {
    Container(ContainerSpec),
    K8sJob(K8sJobSpec),
    Unreadable,
    NotNeeded,
}

impl ParsedSpec {
    /// The Kubernetes version a `RunK8sJob` spec asks for, if it asks for one.
    pub fn minimum_version(&self) -> (r: Option<String>)
        ensures
            opt_str_view(r) == match self {
                ParsedSpec::K8sJob(k) => opt_str_view(k.minimum_version),
                _ => None,
            },
    {
        match self {
            ParsedSpec::K8sJob(k) => clone_opt_string(&k.minimum_version),
            _ => None,
        }
    }
}

/// Why a step cannot become a Job.
#[derive(PartialEq, Eq, Debug)]
pub enum SpecError {
    /// A `RunContainer` step whose spec is not a container spec.
    InvalidContainerSpec,
    /// A `RunK8sJob` step whose spec is not a Kubernetes job spec.
    InvalidK8sJobSpec,
    /// A step of another type without an `image` parameter.
    MissingImage { step_type: String },
    /// A state key is configured, but no cipher for the step state is available.
    StateEncryptionUnavailable,
}

impl SpecError {
    /// The error's message, as the runner reports it.
    pub fn message(&self) -> (m: String)
        ensures
            match self {
                SpecError::InvalidContainerSpec => m@ == "Failed to parse RunContainer spec as CommonContainerSpec"@,
                SpecError::InvalidK8sJobSpec => m@ == "Failed to parse RunK8sJob spec as K8sJobSpec"@,
                SpecError::MissingImage { step_type } => m@ == "Missing 'image' for "@ + step_type@
                    + " step (neither in spec nor params)"@,
                SpecError::StateEncryptionUnavailable => m@ == "Failed to encrypt step state: no state cipher is available"@,
            },
    {
        match self {
            SpecError::InvalidContainerSpec => owned("Failed to parse RunContainer spec as CommonContainerSpec"),
            SpecError::InvalidK8sJobSpec => owned("Failed to parse RunK8sJob spec as K8sJobSpec"),
            SpecError::MissingImage { step_type } => {
                let m = owned("Missing 'image' for ");
                let m = m.concat(step_type.as_str());
                m.concat(" step (neither in spec nor params)")
            },
            SpecError::StateEncryptionUnavailable => owned("Failed to encrypt step state: no state cipher is available"),
        }
    }
}

pub open spec fn dsl_env_view(v: Seq<DslEnvVar>) -> Seq<crate::k8s_model::EnvVarView> {
    v.map_values(|e: DslEnvVar| crate::k8s_model::EnvVarView { name: e.name@, value: e.value@ })
}

/// Turns DSL environment variables into container environment variables, in order.
pub fn map_dsl_env_to_k8s(env: Vec<DslEnvVar>) -> (r: Vec<EnvVar>)
    ensures
        envs_view(r@) == dsl_env_view(env@),
{
    let mut out: Vec<EnvVar> = Vec::new();
    let mut i: usize = 0;
    while i < env.len()
        invariant
            i <= env@.len(),
            envs_view(out@) == dsl_env_view(env@.take(i as int)),
        decreases env@.len() - i,
    {
        let e = EnvVar { name: env[i].name.clone(), value: env[i].value.clone() };
        let ghost pv = out@;
        out.push(e);
        proof {
            lemma_map_push(pv, e, |e: EnvVar| e@);
            lemma_map_take_push(
                env@,
                i as int,
                |e: DslEnvVar| crate::k8s_model::EnvVarView { name: e.name@, value: e.value@ },
            );
        }
        i = i + 1;
    }
    assert(env@.take(i as int) =~= env@);
    out
}

pub open spec fn resource_pairs(cpu: Option<String>, memory: Option<String>) -> Seq<(Seq<char>, Seq<char>)> {
    (match cpu {
        Some(c) => seq![("cpu"@, c@)],
        None => Seq::empty(),
    }) + match memory {
        Some(m) => seq![("memory"@, m@)],
        None => Seq::empty(),
    }
}

/// Requests and limits both set to the given CPU and memory quantities.
pub fn build_k8s_resources(cpu: Option<String>, memory: Option<String>) -> (r: ResourceRequirements)
    ensures
        opt_pairs_view(r.requests) == Some(resource_pairs(cpu, memory)),
        opt_pairs_view(r.limits) == Some(resource_pairs(cpu, memory)),
{
    let mut requests: Vec<(String, String)> = Vec::new();
    let mut limits: Vec<(String, String)> = Vec::new();
    if let Some(c) = &cpu {
        requests.push((owned("cpu"), c.clone()));
        limits.push((owned("cpu"), c.clone()));
    }
    if let Some(m) = &memory {
        requests.push((owned("memory"), m.clone()));
        limits.push((owned("memory"), m.clone()));
    }
    assert(pairs_view(requests@) =~= resource_pairs(cpu, memory));
    assert(pairs_view(limits@) =~= resource_pairs(cpu, memory));
    ResourceRequirements { requests: Some(requests), limits: Some(limits) }
}

/// The parameter `key` (its first occurrence).
pub open spec fn param_lookup(ps: Seq<(String, String)>, key: Seq<char>) -> Option<Seq<char>>
    decreases ps.len(),
{
    if ps.len() == 0 {
        None
    } else if ps[0].0@ == key {
        Some(ps[0].1@)
    } else {
        param_lookup(ps.drop_first(), key)
    }
}

fn param_get(ps: &Vec<(String, String)>, key: &str) -> (r: Option<String>)
    ensures
        opt_str_view(r) == param_lookup(ps@, key@),
{
    let k = owned(key);
    let mut i: usize = 0;
    assert(ps@.skip(0) =~= ps@);
    while i < ps.len()
        invariant
            i <= ps@.len(),
            k@ == key@,
            param_lookup(ps@, key@) == param_lookup(ps@.skip(i as int), key@),
        decreases ps@.len() - i,
    {
        assert(ps@.skip(i as int).drop_first() =~= ps@.skip(i + 1));
        if ps[i].0 == k {
            return Some(ps[i].1.clone());
        }
        i = i + 1;
    }
    None
}

fn single(s: String) -> (r: Vec<String>)
    ensures
        strs_view(r@) == seq![s@],
{
    let mut v: Vec<String> = Vec::new();
    v.push(s);
    assert(strs_view(v@) =~= seq![s@]);
    v
}

pub open spec fn opt_vec_view<T>(o: Option<Vec<T>>) -> Seq<T> {
    match o {
        Some(v) => v@,
        None => Seq::empty(),
    }
}

pub open spec fn opt_single(o: Option<Seq<char>>) -> Option<Seq<Seq<char>>> {
    match o {
        Some(s) => Some(seq![s]),
        None => None,
    }
}

pub open spec fn no_resources(r: ResourceRequirements) -> bool {
    r.requests is None && r.limits is None
}

/// What `parse_step_spec` makes of a step: for `RunContainer` the container spec with its
/// CPU and memory as requests and limits; for `RunK8sJob` the job spec as it is; for other
/// types the `image`, `command` and `args` parameters.
pub open spec fn step_spec_matches(meta: JobMetadata, parsed: ParsedSpec, s: StepSpec) -> bool {
    match step_kind_spec(meta.step_dsl.step_type@) {
        StepKind::RunContainer => match parsed {
            ParsedSpec::Container(c) => {
                &&& s.image@ == c.image@
                &&& opt_strs_view(s.command) == opt_strs_view(c.command)
                &&& opt_strs_view(s.args) == opt_strs_view(c.args)
                &&& envs_view(s.env@) == dsl_env_view(opt_vec_view(c.env))
                &&& opt_pairs_view(s.resources.requests) == Some(resource_pairs(c.cpu, c.memory))
                &&& opt_pairs_view(s.resources.limits) == Some(resource_pairs(c.cpu, c.memory))
                &&& s.active_deadline is None && s.backoff_limit is None && s.completions is None
                &&& s.parallelism is None && s.ttl_seconds_after_finished is None
                &&& s.privileged == c.privileged
                &&& s.node_selector is None && s.service_account_name is None && s.restart_policy is None
                &&& s.extra_labels is None && s.extra_annotations is None
                &&& s.storage_mounts@ == opt_vec_view(c.storage_mounts)
                &&& s.secret_mounts@.len() == 0 && s.config_map_mounts@.len() == 0
            },
            _ => false,
        },
        StepKind::RunK8sJob => match parsed {
            ParsedSpec::K8sJob(j) => {
                &&& s.image@ == j.image@
                &&& opt_strs_view(s.command) == opt_strs_view(j.command)
                &&& opt_strs_view(s.args) == opt_strs_view(j.args)
                &&& envs_view(s.env@) == dsl_env_view(opt_vec_view(j.env))
                &&& match j.resources {
                    Some(r) => s.resources@ == r@,
                    None => no_resources(s.resources),
                }
                &&& s.active_deadline == j.active_deadline_seconds
                &&& s.backoff_limit == j.backoff_limit
                &&& s.completions == j.completions
                &&& s.parallelism == j.parallelism
                &&& s.ttl_seconds_after_finished == j.ttl_seconds_after_finished
                &&& s.privileged == j.privileged
                &&& opt_pairs_view(s.node_selector) == opt_pairs_view(j.node_selector)
                &&& opt_str_view(s.service_account_name) == opt_str_view(j.service_account_name)
                &&& opt_str_view(s.restart_policy) == opt_str_view(j.restart_policy)
                &&& opt_pairs_view(s.extra_labels) == opt_pairs_view(j.labels)
                &&& opt_pairs_view(s.extra_annotations) == opt_pairs_view(j.annotations)
                &&& s.storage_mounts@ == opt_vec_view(j.storage_mounts)
                &&& s.secret_mounts@ == opt_vec_view(j.secret_mounts)
                &&& s.config_map_mounts@ == opt_vec_view(j.config_map_mounts)
            },
            _ => false,
        },
        StepKind::Params => {
            let ps = meta.step_dsl.params@;
            &&& param_lookup(ps, "image"@) == Some(s.image@)
            &&& opt_strs_view(s.command) == opt_single(param_lookup(ps, "command"@))
            &&& opt_strs_view(s.args) == opt_single(param_lookup(ps, "args"@))
            &&& s.env@.len() == 0
            &&& no_resources(s.resources)
            &&& s.active_deadline is None && s.backoff_limit is None && s.completions is None
            &&& s.parallelism is None && s.ttl_seconds_after_finished is None && s.privileged is None
            &&& s.node_selector is None && s.service_account_name is None && s.restart_policy is None
            &&& s.extra_labels is None && s.extra_annotations is None
            &&& s.storage_mounts@.len() == 0 && s.secret_mounts@.len() == 0 && s.config_map_mounts@.len() == 0
        },
    }
}

/// When `parse_step_spec` fails, and with which error.
pub open spec fn step_spec_error(meta: JobMetadata, parsed: ParsedSpec) -> Option<SpecError> {
    match step_kind_spec(meta.step_dsl.step_type@) {
        StepKind::RunContainer => match parsed {
            ParsedSpec::Container(_) => None,
            _ => Some(SpecError::InvalidContainerSpec),
        },
        StepKind::RunK8sJob => match parsed {
            ParsedSpec::K8sJob(_) => None,
            _ => Some(SpecError::InvalidK8sJobSpec),
        },
        StepKind::Params => if param_lookup(meta.step_dsl.params@, "image"@) is Some {
            None
        } else {
            Some(SpecError::MissingImage { step_type: meta.step_dsl.step_type })
        },
    }
}

fn opt_vec<T>(o: Option<Vec<T>>) -> (r: Vec<T>)
    ensures
        r@ == opt_vec_view(o),
{
    match o {
        Some(v) => v,
        None => Vec::new(),
    }
}

/// Reads the container settings of a step from its (already read) spec or parameters.
pub fn parse_step_spec(metadata: &JobMetadata, parsed: ParsedSpec) -> (r: Result<StepSpec, SpecError>)
    ensures
        match step_spec_error(*metadata, parsed) {
            Some(e) => r == Err::<StepSpec, SpecError>(e),
            None => r is Ok && step_spec_matches(*metadata, parsed, r->Ok_0),
        },
{
    let ghost p = parsed;
    match step_kind(&metadata.step_dsl.step_type) {
        StepKind::RunContainer => match parsed {
            ParsedSpec::Container(c) => {
                let env = map_dsl_env_to_k8s(opt_vec(c.env));
                let resources = build_k8s_resources(c.cpu, c.memory);
                Ok(StepSpec {
                    image: c.image,
                    command: c.command,
                    args: c.args,
                    env,
                    resources,
                    active_deadline: None,
                    backoff_limit: None,
                    completions: None,
                    parallelism: None,
                    ttl_seconds_after_finished: None,
                    privileged: c.privileged,
                    node_selector: None,
                    service_account_name: None,
                    restart_policy: None,
                    extra_labels: None,
                    extra_annotations: None,
                    storage_mounts: opt_vec(c.storage_mounts),
                    secret_mounts: Vec::new(),
                    config_map_mounts: Vec::new(),
                })
            },
            _ => Err(SpecError::InvalidContainerSpec),
        },
        StepKind::RunK8sJob => match parsed {
            ParsedSpec::K8sJob(j) => {
                let env = map_dsl_env_to_k8s(opt_vec(j.env));
                let resources = match j.resources {
                    Some(r) => r,
                    None => ResourceRequirements { requests: None, limits: None },
                };
                Ok(StepSpec {
                    image: j.image,
                    command: j.command,
                    args: j.args,
                    env,
                    resources,
                    active_deadline: j.active_deadline_seconds,
                    backoff_limit: j.backoff_limit,
                    completions: j.completions,
                    parallelism: j.parallelism,
                    ttl_seconds_after_finished: j.ttl_seconds_after_finished,
                    privileged: j.privileged,
                    node_selector: j.node_selector,
                    service_account_name: j.service_account_name,
                    restart_policy: j.restart_policy,
                    extra_labels: j.labels,
                    extra_annotations: j.annotations,
                    storage_mounts: opt_vec(j.storage_mounts),
                    secret_mounts: opt_vec(j.secret_mounts),
                    config_map_mounts: opt_vec(j.config_map_mounts),
                })
            },
            _ => Err(SpecError::InvalidK8sJobSpec),
        },
        StepKind::Params => {
            let params = &metadata.step_dsl.params;
            match param_get(params, "image") {
                None => Err(SpecError::MissingImage { step_type: metadata.step_dsl.step_type.clone() }),
                Some(image) => {
                    let command = match param_get(params, "command") {
                        Some(c) => Some(single(c)),
                        None => None,
                    };
                    let args = match param_get(params, "args") {
                        Some(a) => Some(single(a)),
                        None => None,
                    };
                    Ok(StepSpec {
                        image,
                        command,
                        args,
                        env: Vec::new(),
                        resources: ResourceRequirements { requests: None, limits: None },
                        active_deadline: None,
                        backoff_limit: None,
                        completions: None,
                        parallelism: None,
                        ttl_seconds_after_finished: None,
                        privileged: None,
                        node_selector: None,
                        service_account_name: None,
                        restart_policy: None,
                        extra_labels: None,
                        extra_annotations: None,
                        storage_mounts: Vec::new(),
                        secret_mounts: Vec::new(),
                        config_map_mounts: Vec::new(),
                    })
                },
            }
        },
    }
}

// ---------------------------------------------------------------- pod and job

pub open spec fn pod_labels(meta: JobMetadata) -> Seq<(Seq<char>, Seq<char>)> {
    seq![
        ("managed-by"@, "stormchaser"@),
        ("stormchaser-run-id"@, uuid_text(meta.run_id)),
        ("stormchaser-step-id"@, uuid_text(meta.step_id)),
    ]
}

/// The pod template: Stormchaser labels, the main container, init containers and volumes,
/// the restart policy (`OnFailure` unless set) and, with registry credentials, their secret.
pub open spec fn pod_template_spec(
    main: crate::k8s_model::ContainerView,
    init: Seq<crate::k8s_model::ContainerView>,
    volumes: Seq<crate::k8s_model::VolumeView>,
    meta: JobMetadata,
    s: StepSpec,
) -> crate::k8s_model::PodTemplateView {
    crate::k8s_model::PodTemplateView {
        labels: pod_labels(meta),
        containers: seq![main],
        init_containers: init,
        restart_policy: match s.restart_policy {
            Some(r) => r@,
            None => "OnFailure"@,
        },
        volumes,
        node_selector: opt_pairs_view(s.node_selector),
        service_account_name: opt_str_view(s.service_account_name),
        image_pull_secrets: if meta.has_registry_auth {
            Some(seq![job_name_spec(meta.step_dsl.name@, meta.step_id) + "-auth"@])
        } else {
            None
        },
    }
}

fn pod_labels_exec(meta: &JobMetadata) -> (r: Vec<(String, String)>)
    ensures
        pairs_view(r@) == pod_labels(*meta),
{
    let mut v: Vec<(String, String)> = Vec::new();
    v.push((owned("managed-by"), owned("stormchaser")));
    v.push((owned("stormchaser-run-id"), uuid_string(meta.run_id)));
    v.push((owned("stormchaser-step-id"), uuid_string(meta.step_id)));
    assert(pairs_view(v@) =~= pod_labels(*meta));
    v
}

/// Assembles the pod template of the Job.
pub fn build_k8s_pod_spec(
    container: Container,
    init_containers: Vec<Container>,
    volumes: Vec<Volume>,
    metadata: &JobMetadata,
    step_spec: &StepSpec,
) -> (r: PodTemplate)
    ensures
        r@ == pod_template_spec(container@, containers_view(init_containers@), volumes_view(volumes@), *metadata, *step_spec),
{
    let image_pull_secrets = if metadata.has_registry_auth {
        let mut v: Vec<String> = Vec::new();
        v.push(registry_secret_name(metadata.step_dsl.name.as_str(), metadata.step_id));
        assert(strs_view(v@) =~= seq![job_name_spec(metadata.step_dsl.name@, metadata.step_id) + "-auth"@]);
        Some(v)
    } else {
        None
    };
    let restart_policy = match &step_spec.restart_policy {
        Some(r) => r.clone(),
        None => owned("OnFailure"),
    };
    let mut containers: Vec<Container> = Vec::new();
    let ghost cv = container@;
    containers.push(container);
    assert(containers_view(containers@) =~= seq![cv]);
    PodTemplate {
        labels: pod_labels_exec(metadata),
        containers,
        init_containers,
        restart_policy,
        volumes,
        node_selector: clone_opt_pairs(&step_spec.node_selector),
        service_account_name: clone_opt_string(&step_spec.service_account_name),
        image_pull_secrets,
    }
}

pub open spec fn opt_pairs_or_empty(o: Option<Vec<(String, String)>>) -> Seq<(Seq<char>, Seq<char>)> {
    match o {
        Some(v) => pairs_view(v@),
        None => Seq::empty(),
    }
}

/// Job labels: the pod labels and the fencing token, then the step's own labels.
pub open spec fn job_labels(meta: JobMetadata, s: StepSpec) -> Seq<(Seq<char>, Seq<char>)> {
    pod_labels(meta).push(("stormchaser-fencing-token"@, int_text(meta.fencing_token as int)))
        + opt_pairs_or_empty(s.extra_labels)
}

/// Job annotations: arrival time and step DSL, then the step's own annotations. The DSL is
/// stored in plain text, so no encryption marker is written.
pub open spec fn job_annotations(meta: JobMetadata, s: StepSpec, dsl: Seq<char>, received: Seq<char>) -> Seq<
    (Seq<char>, Seq<char>),
> {
    seq![("stormchaser.v1.io/received-at"@, received), ("stormchaser.v1.io/step-dsl"@, dsl)]
        + opt_pairs_or_empty(s.extra_annotations)
}

/// The Job for a step with a given container spec.
pub open spec fn job_view_spec(
    job_name: Seq<char>,
    meta: JobMetadata,
    s: StepSpec,
    agent: Option<Seq<char>>,
    pvc: Option<Seq<char>>,
    dsl: Seq<char>,
    received: Seq<char>,
) -> crate::k8s_model::JobView {
    let volumes = volumes_spec(agent is Some, pvc, s);
    let mounts = volume_mounts_spec(agent is Some, pvc, meta.run_id, s);
    let env = env_spec(meta, s, pvc is None);
    let main = main_container_spec(agent, meta, s, env, mounts);
    let init = init_containers_spec(agent, pvc, meta, s);
    crate::k8s_model::JobView {
        name: job_name,
        labels: job_labels(meta, s),
        annotations: job_annotations(meta, s, dsl, received),
        template: pod_template_spec(main, init, volumes, meta, s),
        backoff_limit: match s.backoff_limit {
            Some(b) => b,
            None => match meta.step_dsl.retry_count {
                Some(c) => c,
                None => 0,
            },
        },
        completions: match s.completions {
            Some(c) => c,
            None => 1,
        },
        parallelism: match s.parallelism {
            Some(p) => p,
            None => 1,
        },
        active_deadline_seconds: s.active_deadline,
        ttl_seconds_after_finished: match s.ttl_seconds_after_finished {
            Some(t) => t,
            None => 3600,
        },
    }
}

fn append_pairs(out: &mut Vec<(String, String)>, extra: &Option<Vec<(String, String)>>)
    ensures
        pairs_view(final(out)@) == pairs_view(old(out)@) + opt_pairs_or_empty(*extra),
{
    match extra {
        None => {
            assert(pairs_view(out@) =~= pairs_view(out@) + Seq::<(Seq<char>, Seq<char>)>::empty());
        },
        Some(v) => {
            let ghost start = pairs_view(out@);
            let mut i: usize = 0;
            while i < v.len()
                invariant
                    i <= v@.len(),
                    pairs_view(out@) == start + pairs_view(v@.take(i as int)),
                decreases v@.len() - i,
            {
                let p = (v[i].0.clone(), v[i].1.clone());
                let ghost pv = out@;
                out.push(p);
                proof {
                    lemma_map_push(pv, p, |p: (String, String)| (p.0@, p.1@));
                    lemma_map_take_push(v@, i as int, |p: (String, String)| (p.0@, p.1@));
                    crate::job_spec::lemma_concat_push(start, pairs_view(v@.take(i as int)), (p.0@, p.1@));
                }
                i = i + 1;
            }
            assert(v@.take(i as int) =~= v@);
        },
    }
}

/// Builds the Job for a step whose container spec is already known.
pub fn build_job_from_spec(
    job_name: &str,
    metadata: &JobMetadata,
    step_spec: &StepSpec,
    agent_image: &Option<String>,
    sfs_pvc_name: &Option<String>,
    step_dsl_annotation: &String,
    received_at: &String,
) -> (r: Job)
    ensures
        r@ == job_view_spec(
            job_name@,
            *metadata,
            *step_spec,
            opt_str_view(*agent_image),
            opt_str_view(*sfs_pvc_name),
            step_dsl_annotation@,
            received_at@,
        ),
{
    let (volumes, volume_mounts) = build_k8s_volumes(agent_image.is_some(), sfs_pvc_name, metadata.run_id, step_spec);
    let k8s_env = build_k8s_env_vars(metadata, step_spec, sfs_pvc_name);
    let (container, init_containers) = build_k8s_containers(
        agent_image,
        sfs_pvc_name,
        metadata,
        step_spec,
        k8s_env,
        volume_mounts,
    );
    let template = build_k8s_pod_spec(container, init_containers, volumes, metadata, step_spec);
    let mut labels = pod_labels_exec(metadata);
    let ghost l0 = pairs_view(labels@);
    let token = (owned("stormchaser-fencing-token"), i64_text(metadata.fencing_token));
    labels.push(token);
    proof {
        lemma_map_push(labels@.drop_last(), token, |p: (String, String)| (p.0@, p.1@));
        assert(labels@.drop_last().push(token) =~= labels@);
    }
    append_pairs(&mut labels, &step_spec.extra_labels);
    let mut annotations: Vec<(String, String)> = Vec::new();
    annotations.push((owned("stormchaser.v1.io/received-at"), received_at.clone()));
    annotations.push((owned("stormchaser.v1.io/step-dsl"), step_dsl_annotation.clone()));
    assert(pairs_view(annotations@) =~= seq![
        ("stormchaser.v1.io/received-at"@, received_at@),
        ("stormchaser.v1.io/step-dsl"@, step_dsl_annotation@),
    ]);
    append_pairs(&mut annotations, &step_spec.extra_annotations);
    let backoff_limit = match step_spec.backoff_limit {
        Some(b) => b,
        None => match metadata.step_dsl.retry_count {
            Some(c) => c,
            None => 0,
        },
    };
    let completions = match step_spec.completions {
        Some(c) => c,
        None => 1,
    };
    let parallelism = match step_spec.parallelism {
        Some(p) => p,
        None => 1,
    };
    let ttl = match step_spec.ttl_seconds_after_finished {
        Some(t) => t,
        None => 3600,
    };
    assert(pairs_view(labels@) == job_labels(*metadata, *step_spec));
    assert(pairs_view(annotations@) == job_annotations(*metadata, *step_spec, step_dsl_annotation@, received_at@));
    assert(template@ == job_view_spec(
            job_name@,
            *metadata,
            *step_spec,
            opt_str_view(*agent_image),
            opt_str_view(*sfs_pvc_name),
            step_dsl_annotation@,
            received_at@,
        ).template);
    Job {
        name: owned(job_name),
        labels,
        annotations,
        template,
        backoff_limit,
        completions,
        parallelism,
        active_deadline_seconds: step_spec.active_deadline,
        ttl_seconds_after_finished: ttl,
    }
}

/// Builds the Job that runs a step: reads its container spec, then lays out volumes,
/// environment, containers, labels and annotations; the step's DSL is stored on the Job as
/// its JSON text. This library has no cipher for the step state, so a runner configured
/// with a state key refuses to build the Job rather than store the state unencrypted.
pub fn do_build_job_spec(
    job_name: &str,
    metadata: &JobMetadata,
    parsed: ParsedSpec,
    agent_image: Option<String>,
    sfs_pvc_name: Option<String>,
) -> (r: Result<Job, SpecError>)
    ensures
        match step_spec_error(*metadata, parsed) {
            Some(e) => r == Err::<Job, SpecError>(e),
            None => if metadata.encryption_key is Some {
                r == Err::<Job, SpecError>(SpecError::StateEncryptionUnavailable)
            } else {
                r is Ok && exists|s: StepSpec|
                    step_spec_matches(*metadata, parsed, s) && r->Ok_0@ == job_view_spec(
                        job_name@,
                        *metadata,
                        s,
                        opt_str_view(agent_image),
                        opt_str_view(sfs_pvc_name),
                        step_json_text(metadata.step_dsl@),
                        rfc3339_text(metadata.received_at_ns),
                    )
            },
        },
{
    let step_spec = match parse_step_spec(metadata, parsed) {
        Ok(s) => s,
        Err(e) => return Err(e),
    };
    if metadata.encryption_key.is_some() {
        return Err(SpecError::StateEncryptionUnavailable);
    }
    let step_dsl_annotation = step_json(&metadata.step_dsl);
    let received_at = rfc3339_from_nanos(metadata.received_at_ns);
    let job = build_job_from_spec(
        job_name,
        metadata,
        &step_spec,
        &agent_image,
        &sfs_pvc_name,
        &step_dsl_annotation,
        &received_at,
    );
    Ok(job)
}

} // verus!

//! The parts of a Kubernetes Job that the runner fills in, as plain values.
use vstd::prelude::*;

verus! {

/// An environment variable with a value.
pub struct EnvVar {
    pub name: String,
    pub value: String,
}

pub struct EnvVarView {
    pub name: Seq<char>,
    pub value: Seq<char>,
}

impl View for EnvVar {
    type V = EnvVarView;

    open spec fn view(&self) -> EnvVarView {
        EnvVarView { name: self.name@, value: self.value@ }
    }
}

/// A volume mounted into a container.
pub struct VolumeMount {
    pub name: String,
    pub mount_path: String,
    pub sub_path: Option<String>,
    pub read_only: Option<bool>,
}

pub struct VolumeMountView {
    pub name: Seq<char>,
    pub mount_path: Seq<char>,
    pub sub_path: Option<Seq<char>>,
    pub read_only: Option<bool>,
}

pub open spec fn opt_str_view(o: Option<String>) -> Option<Seq<char>> {
    match o {
        Some(s) => Some(s@),
        None => None,
    }
}

impl View for VolumeMount {
    type V = VolumeMountView;

    open spec fn view(&self) -> VolumeMountView {
        VolumeMountView {
            name: self.name@,
            mount_path: self.mount_path@,
            sub_path: opt_str_view(self.sub_path),
            read_only: self.read_only,
        }
    }
}

/// Where the data of a volume comes from.
pub enum VolumeSource {
    EmptyDir,
    Secret { secret_name: String },
    ConfigMap { name: String },
    PersistentVolumeClaim { claim_name: String },
}

pub enum VolumeSourceView {
    EmptyDir,
    Secret { secret_name: Seq<char> },
    ConfigMap { name: Seq<char> },
    PersistentVolumeClaim { claim_name: Seq<char> },
}

impl View for VolumeSource {
    type V = VolumeSourceView;

    open spec fn view(&self) -> VolumeSourceView {
        match self {
            VolumeSource::EmptyDir => VolumeSourceView::EmptyDir,
            VolumeSource::Secret { secret_name } => VolumeSourceView::Secret { secret_name: secret_name@ },
            VolumeSource::ConfigMap { name } => VolumeSourceView::ConfigMap { name: name@ },
            VolumeSource::PersistentVolumeClaim { claim_name } => VolumeSourceView::PersistentVolumeClaim {
                claim_name: claim_name@,
            },
        }
    }
}

/// A named volume of the pod.
pub struct Volume {
    pub name: String,
    pub source: VolumeSource,
}

pub struct VolumeView {
    pub name: Seq<char>,
    pub source: VolumeSourceView,
}

impl View for Volume {
    type V = VolumeView;

    open spec fn view(&self) -> VolumeView {
        VolumeView { name: self.name@, source: self.source@ }
    }
}

/// Ordered key/value pairs; a later pair wins over an earlier one with the same key.
pub open spec fn pairs_view(v: Seq<(String, String)>) -> Seq<(Seq<char>, Seq<char>)> {
    v.map_values(|p: (String, String)| (p.0@, p.1@))
}

pub open spec fn opt_pairs_view(o: Option<Vec<(String, String)>>) -> Option<Seq<(Seq<char>, Seq<char>)>> {
    match o {
        Some(v) => Some(pairs_view(v@)),
        None => None,
    }
}

pub open spec fn strs_view(v: Seq<String>) -> Seq<Seq<char>> {
    v.map_values(|s: String| s@)
}

pub open spec fn opt_strs_view(o: Option<Vec<String>>) -> Option<Seq<Seq<char>>> {
    match o {
        Some(v) => Some(strs_view(v@)),
        None => None,
    }
}

/// Requests and limits of a container (resource name, quantity).
pub struct ResourceRequirements {
    pub requests: Option<Vec<(String, String)>>,
    pub limits: Option<Vec<(String, String)>>,
}

pub struct ResourceRequirementsView {
    pub requests: Option<Seq<(Seq<char>, Seq<char>)>>,
    pub limits: Option<Seq<(Seq<char>, Seq<char>)>>,
}

impl View for ResourceRequirements {
    type V = ResourceRequirementsView;

    open spec fn view(&self) -> ResourceRequirementsView {
        ResourceRequirementsView { requests: opt_pairs_view(self.requests), limits: opt_pairs_view(self.limits) }
    }
}

/// A container of the pod.
pub struct Container {
    pub name: String,
    pub image: String,
    pub image_pull_policy: Option<String>,
    pub command: Option<Vec<String>>,
    pub args: Option<Vec<String>>,
    pub env: Option<Vec<EnvVar>>,
    pub resources: Option<ResourceRequirements>,
    pub volume_mounts: Option<Vec<VolumeMount>>,
    /// `securityContext.privileged`, when a security context is set.
    pub privileged: Option<bool>,
}

pub struct ContainerView {
    pub name: Seq<char>,
    pub image: Seq<char>,
    pub image_pull_policy: Option<Seq<char>>,
    pub command: Option<Seq<Seq<char>>>,
    pub args: Option<Seq<Seq<char>>>,
    pub env: Option<Seq<EnvVarView>>,
    pub resources: Option<ResourceRequirementsView>,
    pub volume_mounts: Option<Seq<VolumeMountView>>,
    pub privileged: Option<bool>,
}

pub open spec fn envs_view(v: Seq<EnvVar>) -> Seq<EnvVarView> {
    v.map_values(|e: EnvVar| e@)
}

pub open spec fn mounts_view(v: Seq<VolumeMount>) -> Seq<VolumeMountView> {
    v.map_values(|m: VolumeMount| m@)
}

pub open spec fn volumes_view(v: Seq<Volume>) -> Seq<VolumeView> {
    v.map_values(|m: Volume| m@)
}

impl View for Container {
    type V = ContainerView;

    open spec fn view(&self) -> ContainerView {
        ContainerView {
            name: self.name@,
            image: self.image@,
            image_pull_policy: opt_str_view(self.image_pull_policy),
            command: opt_strs_view(self.command),
            args: opt_strs_view(self.args),
            env: match self.env {
                Some(v) => Some(envs_view(v@)),
                None => None,
            },
            resources: match self.resources {
                Some(r) => Some(r@),
                None => None,
            },
            volume_mounts: match self.volume_mounts {
                Some(v) => Some(mounts_view(v@)),
                None => None,
            },
            privileged: self.privileged,
        }
    }
}

pub open spec fn containers_view(v: Seq<Container>) -> Seq<ContainerView> {
    v.map_values(|c: Container| c@)
}

/// The pod template of the Job.
pub struct PodTemplate {
    pub labels: Vec<(String, String)>,
    pub containers: Vec<Container>,
    pub init_containers: Vec<Container>,
    pub restart_policy: String,
    pub volumes: Vec<Volume>,
    pub node_selector: Option<Vec<(String, String)>>,
    pub service_account_name: Option<String>,
    pub image_pull_secrets: Option<Vec<String>>,
}

pub struct PodTemplateView {
    pub labels: Seq<(Seq<char>, Seq<char>)>,
    pub containers: Seq<ContainerView>,
    pub init_containers: Seq<ContainerView>,
    pub restart_policy: Seq<char>,
    pub volumes: Seq<VolumeView>,
    pub node_selector: Option<Seq<(Seq<char>, Seq<char>)>>,
    pub service_account_name: Option<Seq<char>>,
    pub image_pull_secrets: Option<Seq<Seq<char>>>,
}

impl View for PodTemplate {
    type V = PodTemplateView;

    open spec fn view(&self) -> PodTemplateView {
        PodTemplateView {
            labels: pairs_view(self.labels@),
            containers: containers_view(self.containers@),
            init_containers: containers_view(self.init_containers@),
            restart_policy: self.restart_policy@,
            volumes: volumes_view(self.volumes@),
            node_selector: opt_pairs_view(self.node_selector),
            service_account_name: opt_str_view(self.service_account_name),
            image_pull_secrets: opt_strs_view(self.image_pull_secrets),
        }
    }
}

/// The Job the runner submits.
pub struct Job {
    pub name: String,
    pub labels: Vec<(String, String)>,
    pub annotations: Vec<(String, String)>,
    pub template: PodTemplate,
    pub backoff_limit: i32,
    pub completions: i32,
    pub parallelism: i32,
    pub active_deadline_seconds: Option<i64>,
    pub ttl_seconds_after_finished: i32,
}

pub struct JobView {
    pub name: Seq<char>,
    pub labels: Seq<(Seq<char>, Seq<char>)>,
    pub annotations: Seq<(Seq<char>, Seq<char>)>,
    pub template: PodTemplateView,
    pub backoff_limit: i32,
    pub completions: i32,
    pub parallelism: i32,
    pub active_deadline_seconds: Option<i64>,
    pub ttl_seconds_after_finished: i32,
}

impl View for Job {
    type V = JobView;

    open spec fn view(&self) -> JobView {
        JobView {
            name: self.name@,
            labels: pairs_view(self.labels@),
            annotations: pairs_view(self.annotations@),
            template: self.template@,
            backoff_limit: self.backoff_limit,
            completions: self.completions,
            parallelism: self.parallelism,
            active_deadline_seconds: self.active_deadline_seconds,
            ttl_seconds_after_finished: self.ttl_seconds_after_finished,
        }
    }
}

/// Copies a list of strings.
pub fn clone_strings(v: &Vec<String>) -> (r: Vec<String>)
    ensures
        strs_view(r@) == strs_view(v@),
{
    let mut r: Vec<String> = Vec::new();
    let mut i: usize = 0;
    while i < v.len()
        invariant
            i <= v@.len(),
            r@.len() == i,
            strs_view(r@) == strs_view(v@.take(i as int)),
        decreases v@.len() - i,
    {
        let ghost before = r@;
        r.push(v[i].clone());
        proof {
            assert(r@ == before.push(r@[i as int]));
            assert(v@.take(i + 1) =~= v@.take(i as int).push(v@[i as int]));
            assert(strs_view(r@) =~= strs_view(before).push(r@[i as int]@));
            assert(strs_view(v@.take(i + 1)) =~= strs_view(v@.take(i as int)).push(v@[i as int]@));
        }
        i = i + 1;
    }
    assert(v@.take(i as int) =~= v@);
    r
}

/// Copies a list of key/value pairs.
pub fn clone_pairs(v: &Vec<(String, String)>) -> (r: Vec<(String, String)>)
    ensures
        pairs_view(r@) == pairs_view(v@),
{
    let mut r: Vec<(String, String)> = Vec::new();
    let mut i: usize = 0;
    while i < v.len()
        invariant
            i <= v@.len(),
            r@.len() == i,
            pairs_view(r@) == pairs_view(v@.take(i as int)),
        decreases v@.len() - i,
    {
        let p = (v[i].0.clone(), v[i].1.clone());
        let ghost before = r@;
        r.push(p);
        proof {
            assert(r@ == before.push(r@[i as int]));
            assert(v@.take(i + 1) =~= v@.take(i as int).push(v@[i as int]));
            assert(pairs_view(r@) =~= pairs_view(before).push(r@[i as int]@));
            assert(pairs_view(v@.take(i + 1)) =~= pairs_view(v@.take(i as int)).push(v@[i as int]@));
        }
        i = i + 1;
    }
    assert(v@.take(i as int) =~= v@);
    r
}

/// Copies a list of environment variables.
pub fn clone_envs(v: &Vec<EnvVar>) -> (r: Vec<EnvVar>)
    ensures
        envs_view(r@) == envs_view(v@),
{
    let mut r: Vec<EnvVar> = Vec::new();
    let mut i: usize = 0;
    while i < v.len()
        invariant
            i <= v@.len(),
            r@.len() == i,
            envs_view(r@) == envs_view(v@.take(i as int)),
        decreases v@.len() - i,
    {
        let ghost before = r@;
        r.push(EnvVar { name: v[i].name.clone(), value: v[i].value.clone() });
        proof {
            assert(r@ == before.push(r@[i as int]));
            assert(v@.take(i + 1) =~= v@.take(i as int).push(v@[i as int]));
            assert(envs_view(r@) =~= envs_view(before).push(r@[i as int]@));
            assert(envs_view(v@.take(i + 1)) =~= envs_view(v@.take(i as int)).push(v@[i as int]@));
        }
        i = i + 1;
    }
    assert(v@.take(i as int) =~= v@);
    r
}

pub fn clone_opt_string(o: &Option<String>) -> (r: Option<String>)
    ensures
        opt_str_view(r) == opt_str_view(*o),
{
    match o {
        Some(s) => Some(s.clone()),
        None => None,
    }
}

pub fn clone_opt_strings(o: &Option<Vec<String>>) -> (r: Option<Vec<String>>)
    ensures
        opt_strs_view(r) == opt_strs_view(*o),
{
    match o {
        Some(v) => Some(clone_strings(v)),
        None => None,
    }
}

pub fn clone_opt_pairs(o: &Option<Vec<(String, String)>>) -> (r: Option<Vec<(String, String)>>)
    ensures
        opt_pairs_view(r) == opt_pairs_view(*o),
{
    match o {
        Some(v) => Some(clone_pairs(v)),
        None => None,
    }
}

pub fn clone_resources(r: &ResourceRequirements) -> (c: ResourceRequirements)
    ensures
        c@ == r@,
{
    ResourceRequirements { requests: clone_opt_pairs(&r.requests), limits: clone_opt_pairs(&r.limits) }
}

} // verus!

//! How a step becomes a Kubernetes Job: volumes, environment, containers, pod and job.
use vstd::prelude::*;
use crate::k8s_model::{
    clone_envs, clone_opt_pairs, clone_opt_string, clone_opt_strings, clone_pairs, clone_resources,
    clone_strings, containers_view, envs_view, mounts_view, opt_pairs_view, opt_str_view, opt_strs_view,
    pairs_view, strs_view, volumes_view, Container, ContainerView, EnvVar, EnvVarView, Job, JobView,
    PodTemplate, PodTemplateView, ResourceRequirements, ResourceRequirementsView, Volume, VolumeMount,
    VolumeMountView, VolumeSource, VolumeSourceView, VolumeView,
};
use crate::model::{find_storage, storage_lookup, JobMetadata, StorageEntry, StorageUrls};
use crate::naming::{k8s_name, normalize_resource_name, uuid_string, uuid_text};
use crate::text::owned;

verus! {

/// A storage of the run mounted into the step's container.
pub struct StorageMount {
    pub name: String,
    pub mount_path: String,
    pub read_only: Option<bool>,
}

/// A secret or config map mounted into the step's container.
pub struct NamedMount {
    pub name: String,
    pub mount_path: String,
}

/// The container settings of a step, whatever its type.
pub struct StepSpec {
    pub image: String,
    pub command: Option<Vec<String>>,
    pub args: Option<Vec<String>>,
    pub env: Vec<EnvVar>,
    pub resources: ResourceRequirements,
    pub active_deadline: Option<i64>,
    pub backoff_limit: Option<i32>,
    pub completions: Option<i32>,
    pub parallelism: Option<i32>,
    pub ttl_seconds_after_finished: Option<i32>,
    pub privileged: Option<bool>,
    pub node_selector: Option<Vec<(String, String)>>,
    pub service_account_name: Option<String>,
    pub restart_policy: Option<String>,
    pub extra_labels: Option<Vec<(String, String)>>,
    pub extra_annotations: Option<Vec<(String, String)>>,
    pub storage_mounts: Vec<StorageMount>,
    pub secret_mounts: Vec<NamedMount>,
    pub config_map_mounts: Vec<NamedMount>,
}

// ---------------------------------------------------------------- generic sequence helpers

/// The concatenation of a sequence of sequences.
pub open spec fn concat_all<T>(ss: Seq<Seq<T>>) -> Seq<T>
    decreases ss.len(),
{
    if ss.len() == 0 {
        Seq::empty()
    } else {
        concat_all(ss.drop_last()) + ss.last()
    }
}

/// The parts joined by `sep`.
pub open spec fn join(parts: Seq<Seq<char>>, sep: Seq<char>) -> Seq<char>
    decreases parts.len(),
{
    if parts.len() == 0 {
        Seq::empty()
    } else if parts.len() == 1 {
        parts[0]
    } else {
        join(parts.drop_last(), sep) + sep + parts.last()
    }
}

/// Joins strings with a separator.
pub fn join_strings(parts: &Vec<String>, sep: &str) -> (r: String)
    ensures
        r@ == join(strs_view(parts@), sep@),
{
    let mut r = String::new();
    let mut i: usize = 0;
    while i < parts.len()
        invariant
            i <= parts@.len(),
            r@ == join(strs_view(parts@.take(i as int)), sep@),
        decreases parts@.len() - i,
    {
        let ghost t = strs_view(parts@.take(i + 1));
        assert(t.drop_last() =~= strs_view(parts@.take(i as int)));
        if i == 0 {
            r = parts[0].clone();
        } else {
            r = r.concat(sep);
            r = r.concat(parts[i].as_str());
        }
        i = i + 1;
    }
    assert(parts@.take(i as int) =~= parts@);
    r
}

/// Prefix, dash, Kubernetes-fit name.
pub open spec fn normalized(prefix: Seq<char>, name: Seq<char>) -> Seq<char> {
    prefix + seq!['-'] + k8s_name(name)
}

pub open spec fn opt_seq(o: Option<String>) -> Option<Seq<char>> {
    opt_str_view(o)
}


/// Mapping a prefix one element longer adds the image of that element.
pub proof fn lemma_map_take_push<A, B>(s: Seq<A>, i: int, f: spec_fn(A) -> B)
    requires
        0 <= i < s.len(),
    ensures
        s.take(i + 1).map_values(f) == s.take(i).map_values(f).push(f(s[i])),
{
    assert(s.take(i + 1).map_values(f) =~= s.take(i).map_values(f).push(f(s[i])));
}

/// Mapping a sequence with one more element adds the image of that element.
pub proof fn lemma_map_push<A, B>(s: Seq<A>, x: A, f: spec_fn(A) -> B)
    ensures
        s.push(x).map_values(f) == s.map_values(f).push(f(x)),
{
    assert(s.push(x).map_values(f) =~= s.map_values(f).push(f(x)));
}

/// Appending after a concatenation.
pub proof fn lemma_concat_push<A>(a: Seq<A>, b: Seq<A>, x: A)
    ensures
        (a + b).push(x) == a + b.push(x),
{
    assert((a + b).push(x) =~= a + b.push(x));
}

// ---------------------------------------------------------------- volumes

pub open spec fn agent_volume() -> VolumeView {
    VolumeView { name: "storm-agent"@, source: VolumeSourceView::EmptyDir }
}

pub open spec fn agent_mount() -> VolumeMountView {
    VolumeMountView { name: "storm-agent"@, mount_path: "/stormchaser/agent"@, sub_path: None, read_only: None }
}

pub open spec fn secret_volume(m: NamedMount) -> VolumeView {
    VolumeView { name: normalized("sec"@, m.name@), source: VolumeSourceView::Secret { secret_name: m.name@ } }
}

pub open spec fn secret_mount(m: NamedMount) -> VolumeMountView {
    VolumeMountView { name: normalized("sec"@, m.name@), mount_path: m.mount_path@, sub_path: None, read_only: None }
}

pub open spec fn config_map_volume(m: NamedMount) -> VolumeView {
    VolumeView { name: normalized("cm"@, m.name@), source: VolumeSourceView::ConfigMap { name: m.name@ } }
}

pub open spec fn config_map_mount(m: NamedMount) -> VolumeMountView {
    VolumeMountView { name: normalized("cm"@, m.name@), mount_path: m.mount_path@, sub_path: None, read_only: None }
}

/// With a shared claim, each storage lives under `{run id}/{storage name}` of the claim.
pub open spec fn storage_sub_path(run_id: u128, name: Seq<char>, pvc: Option<Seq<char>>) -> Option<Seq<char>> {
    match pvc {
        Some(_) => Some(uuid_text(run_id) + seq!['/'] + name),
        None => None,
    }
}

pub open spec fn storage_volume(m: StorageMount, pvc: Option<Seq<char>>) -> VolumeView {
    VolumeView {
        name: normalized("sfs"@, m.name@),
        source: match pvc {
            Some(p) => VolumeSourceView::PersistentVolumeClaim { claim_name: p },
            None => VolumeSourceView::EmptyDir,
        },
    }
}

pub open spec fn storage_mount(m: StorageMount, pvc: Option<Seq<char>>, run_id: u128) -> VolumeMountView {
    VolumeMountView {
        name: normalized("sfs"@, m.name@),
        mount_path: m.mount_path@,
        sub_path: storage_sub_path(run_id, m.name@, pvc),
        read_only: m.read_only,
    }
}

/// The pod's volumes: the agent's scratch volume, then secrets, config maps and storages.
pub open spec fn volumes_spec(agent: bool, pvc: Option<Seq<char>>, spec: StepSpec) -> Seq<VolumeView> {
    (if agent { seq![agent_volume()] } else { Seq::empty() }) + spec.secret_mounts@.map_values(
        |m: NamedMount| secret_volume(m),
    ) + spec.config_map_mounts@.map_values(|m: NamedMount| config_map_volume(m))
        + spec.storage_mounts@.map_values(|m: StorageMount| storage_volume(m, pvc))
}

/// The main container's mounts, in the same order as the volumes.
pub open spec fn volume_mounts_spec(agent: bool, pvc: Option<Seq<char>>, run_id: u128, spec: StepSpec) -> Seq<
    VolumeMountView,
> {
    (if agent { seq![agent_mount()] } else { Seq::empty() }) + spec.secret_mounts@.map_values(
        |m: NamedMount| secret_mount(m),
    ) + spec.config_map_mounts@.map_values(|m: NamedMount| config_map_mount(m))
        + spec.storage_mounts@.map_values(|m: StorageMount| storage_mount(m, pvc, run_id))
}

fn agent_volume_mount() -> (m: VolumeMount)
    ensures
        m@ == agent_mount(),
{
    VolumeMount {
        name: owned("storm-agent"),
        mount_path: owned("/stormchaser/agent"),
        sub_path: None,
        read_only: None,
    }
}

fn sub_path_exec(run_id: u128, name: &String, pvc: &Option<String>) -> (r: Option<String>)
    ensures
        opt_str_view(r) == storage_sub_path(run_id, name@, opt_str_view(*pvc)),
{
    match pvc {
        Some(_) => {
            let id = uuid_string(run_id);
            let s = id.concat("/");
            proof {
                reveal_strlit("/");
            }
            Some(s.concat(name.as_str()))
        },
        None => None,
    }
}

/// Builds the volumes of the pod and the matching mounts of the main container.
pub fn build_k8s_volumes(
    agent_image_present: bool,
    sfs_pvc_name: &Option<String>,
    run_id: u128,
    step_spec: &StepSpec,
) -> (r: (Vec<Volume>, Vec<VolumeMount>))
    ensures
        volumes_view(r.0@) == volumes_spec(agent_image_present, opt_str_view(*sfs_pvc_name), *step_spec),
        mounts_view(r.1@) == volume_mounts_spec(agent_image_present, opt_str_view(*sfs_pvc_name), run_id, *step_spec),
{
    let ghost pvc = opt_str_view(*sfs_pvc_name);
    let mut volumes: Vec<Volume> = Vec::new();
    let mut mounts: Vec<VolumeMount> = Vec::new();
    if agent_image_present {
        volumes.push(Volume { name: owned("storm-agent"), source: VolumeSource::EmptyDir });
        mounts.push(agent_volume_mount());
    }
    let ghost v0 = volumes_view(volumes@);
    let ghost m0 = mounts_view(mounts@);
    assert(v0 =~= (if agent_image_present { seq![agent_volume()] } else { Seq::empty() }));
    assert(m0 =~= (if agent_image_present { seq![agent_mount()] } else { Seq::empty() }));
    let secrets = &step_spec.secret_mounts;
    let mut i: usize = 0;
    while i < secrets.len()
        invariant
            i <= secrets@.len(),
            volumes_view(volumes@) == v0 + secrets@.take(i as int).map_values(|m: NamedMount| secret_volume(m)),
            mounts_view(mounts@) == m0 + secrets@.take(i as int).map_values(|m: NamedMount| secret_mount(m)),
        decreases secrets@.len() - i,
    {
        let sm = &secrets[i];
        let name = normalize_resource_name(sm.name.as_str(), "sec");
        let vol = Volume { name: name.clone(), source: VolumeSource::Secret { secret_name: sm.name.clone() } };
        let mnt = VolumeMount { name, mount_path: sm.mount_path.clone(), sub_path: None, read_only: None };
        let ghost pv = volumes@;
        let ghost pm = mounts@;
        volumes.push(vol);
        mounts.push(mnt);
        proof {
            lemma_map_push(pv, vol, |v: Volume| v@);
            lemma_map_push(pm, mnt, |v: VolumeMount| v@);
            lemma_map_take_push(secrets@, i as int, |m: NamedMount| secret_volume(m));
            lemma_map_take_push(secrets@, i as int, |m: NamedMount| secret_mount(m));
            lemma_concat_push(v0, secrets@.take(i as int).map_values(|m: NamedMount| secret_volume(m)), vol@);
            lemma_concat_push(m0, secrets@.take(i as int).map_values(|m: NamedMount| secret_mount(m)), mnt@);
        }
        i = i + 1;
    }
    assert(secrets@.take(i as int) =~= secrets@);
    let ghost v1 = volumes_view(volumes@);
    let ghost m1 = mounts_view(mounts@);
    let cms = &step_spec.config_map_mounts;
    let mut i: usize = 0;
    while i < cms.len()
        invariant
            i <= cms@.len(),
            volumes_view(volumes@) == v1 + cms@.take(i as int).map_values(|m: NamedMount| config_map_volume(m)),
            mounts_view(mounts@) == m1 + cms@.take(i as int).map_values(|m: NamedMount| config_map_mount(m)),
        decreases cms@.len() - i,
    {
        let cm = &cms[i];
        let name = normalize_resource_name(cm.name.as_str(), "cm");
        let vol = Volume { name: name.clone(), source: VolumeSource::ConfigMap { name: cm.name.clone() } };
        let mnt = VolumeMount { name, mount_path: cm.mount_path.clone(), sub_path: None, read_only: None };
        let ghost pv = volumes@;
        let ghost pm = mounts@;
        volumes.push(vol);
        mounts.push(mnt);
        proof {
            lemma_map_push(pv, vol, |v: Volume| v@);
            lemma_map_push(pm, mnt, |v: VolumeMount| v@);
            lemma_map_take_push(cms@, i as int, |m: NamedMount| config_map_volume(m));
            lemma_map_take_push(cms@, i as int, |m: NamedMount| config_map_mount(m));
            lemma_concat_push(v1, cms@.take(i as int).map_values(|m: NamedMount| config_map_volume(m)), vol@);
            lemma_concat_push(m1, cms@.take(i as int).map_values(|m: NamedMount| config_map_mount(m)), mnt@);
        }
        i = i + 1;
    }
    assert(cms@.take(i as int) =~= cms@);
    let ghost v2 = volumes_view(volumes@);
    let ghost m2 = mounts_view(mounts@);
    let sms = &step_spec.storage_mounts;
    let mut i: usize = 0;
    while i < sms.len()
        invariant
            i <= sms@.len(),
            pvc == opt_str_view(*sfs_pvc_name),
            volumes_view(volumes@) == v2 + sms@.take(i as int).map_values(|m: StorageMount| storage_volume(m, pvc)),
            mounts_view(mounts@) == m2 + sms@.take(i as int).map_values(
                |m: StorageMount| storage_mount(m, pvc, run_id),
            ),
        decreases sms@.len() - i,
    {
        let m = &sms[i];
        let name = normalize_resource_name(m.name.as_str(), "sfs");
        let source = match sfs_pvc_name {
            Some(p) => VolumeSource::PersistentVolumeClaim { claim_name: p.clone() },
            None => VolumeSource::EmptyDir,
        };
        let sub_path = sub_path_exec(run_id, &m.name, sfs_pvc_name);
        let vol = Volume { name: name.clone(), source };
        let mnt = VolumeMount { name, mount_path: m.mount_path.clone(), sub_path, read_only: m.read_only };
        let ghost pv = volumes@;
        let ghost pm = mounts@;
        volumes.push(vol);
        mounts.push(mnt);
        proof {
            lemma_map_push(pv, vol, |v: Volume| v@);
            lemma_map_push(pm, mnt, |v: VolumeMount| v@);
            lemma_map_take_push(sms@, i as int, |m: StorageMount| storage_volume(m, pvc));
            lemma_map_take_push(sms@, i as int, |m: StorageMount| storage_mount(m, pvc, run_id));
            lemma_concat_push(v2, sms@.take(i as int).map_values(|m: StorageMount| storage_volume(m, pvc)), vol@);
            lemma_concat_push(
                m2,
                sms@.take(i as int).map_values(|m: StorageMount| storage_mount(m, pvc, run_id)),
                mnt@,
            );
        }
        i = i + 1;
    }
    assert(sms@.take(i as int) =~= sms@);
    (volumes, mounts)
}

// ---------------------------------------------------------------- environment

pub open spec fn env(name: Seq<char>, value: Seq<char>) -> EnvVarView {
    EnvVarView { name, value }
}

pub open spec fn opt_entries(o: Option<Vec<StorageEntry>>) -> Option<Seq<StorageEntry>> {
    match o {
        Some(v) => Some(v@),
        None => None,
    }
}

/// The variables one storage mount adds: upload URL and mount path when the storage is
/// parked through URLs (no shared claim), and its artifacts when it has any.
pub open spec fn mount_env(m: StorageMount, storage: Option<Seq<StorageEntry>>, pvc_absent: bool) -> Seq<EnvVarView> {
    match storage {
        None => Seq::empty(),
        Some(es) => match storage_lookup(es, m.name@) {
            None => Seq::empty(),
            Some(u) => (if pvc_absent && u.put_url is Some {
                seq![
                    env("STORMCHASER_PUT_URL_"@ + m.name@, u.put_url->0@),
                    env("STORMCHASER_MOUNT_PATH_"@ + m.name@, m.mount_path@),
                ]
            } else {
                Seq::empty()
            }) + match u.artifacts_json {
                Some(a) => seq![env("STORMCHASER_ARTIFACTS_"@ + m.name@, a@)],
                None => Seq::empty(),
            },
        },
    }
}

pub open spec fn mount_names(ms: Seq<StorageMount>) -> Seq<Seq<char>> {
    ms.map_values(|m: StorageMount| m.name@)
}

/// The container environment: the step's own variables, the storage variables, the list
/// of storages, and the test report settings when the step collects reports.
pub open spec fn env_spec(meta: JobMetadata, spec: StepSpec, pvc_absent: bool) -> Seq<EnvVarView> {
    envs_view(spec.env@) + concat_all(
        spec.storage_mounts@.map_values(|m: StorageMount| mount_env(m, opt_entries(meta.storage), pvc_absent)),
    ) + (if spec.storage_mounts@.len() > 0 {
        seq![env("STORMCHASER_STORAGES"@, join(mount_names(spec.storage_mounts@), " "@))]
    } else {
        Seq::empty()
    }) + (if meta.step_dsl.reports_json@.len() > 0 {
        seq![env("STORMCHASER_TEST_REPORTS"@, "["@ + join(strs_view(meta.step_dsl.reports_json@), ","@)
            + "]"@)] + match meta.test_report_urls_json {
            Some(u) => seq![env("STORMCHASER_REPORT_URLS"@, u@)],
            None => Seq::empty(),
        }
    } else {
        Seq::empty()
    })
}

fn env_var(prefix: &str, name: &String, value: &String) -> (e: EnvVar)
    ensures
        e@ == env(prefix@ + name@, value@),
{
    let n = owned(prefix);
    EnvVar { name: n.concat(name.as_str()), value: value.clone() }
}

fn mount_env_exec(m: &StorageMount, storage: &Option<Vec<StorageEntry>>, pvc_absent: bool, out: &mut Vec<EnvVar>)
    ensures
        envs_view(final(out)@) == envs_view(old(out)@) + mount_env(*m, opt_entries(*storage), pvc_absent),
{
    let ghost start = envs_view(out@);
    match storage {
        None => {
            assert(envs_view(out@) =~= start + Seq::<EnvVarView>::empty());
        },
        Some(es) => match find_storage(es, &m.name) {
            None => {
                assert(envs_view(out@) =~= start + Seq::<EnvVarView>::empty());
            },
            Some(u) => {
                let ghost p1: Seq<EnvVarView> = if pvc_absent && u.put_url is Some {
                    seq![
                        env("STORMCHASER_PUT_URL_"@ + m.name@, u.put_url->0@),
                        env("STORMCHASER_MOUNT_PATH_"@ + m.name@, m.mount_path@),
                    ]
                } else {
                    Seq::empty()
                };
                if pvc_absent {
                    if let Some(put) = &u.put_url {
                        let a = env_var("STORMCHASER_PUT_URL_", &m.name, put);
                        let b = env_var("STORMCHASER_MOUNT_PATH_", &m.name, &m.mount_path);
                        let ghost pv = out@;
                        out.push(a);
                        proof { lemma_map_push(pv, a, |e: EnvVar| e@); }
                        let ghost pv2 = out@;
                        out.push(b);
                        proof { lemma_map_push(pv2, b, |e: EnvVar| e@); }
                    }
                }
                assert(envs_view(out@) =~= start + p1);
                let ghost mid = envs_view(out@);
                match &u.artifacts_json {
                    Some(a) => {
                        let e = env_var("STORMCHASER_ARTIFACTS_", &m.name, a);
                        let ghost pv = out@;
                        out.push(e);
                        proof { lemma_map_push(pv, e, |e: EnvVar| e@); }
                        assert(envs_view(out@) =~= start + (p1 + seq![env("STORMCHASER_ARTIFACTS_"@ + m.name@, a@)]));
                    },
                    None => {
                        assert(envs_view(out@) =~= start + (p1 + Seq::<EnvVarView>::empty()));
                    },
                }
            },
        },
    }
}

/// Builds the environment of the main container.
pub fn build_k8s_env_vars(metadata: &JobMetadata, step_spec: &StepSpec, sfs_pvc_name: &Option<String>) -> (r: Vec<EnvVar>)
    ensures
        envs_view(r@) == env_spec(*metadata, *step_spec, sfs_pvc_name is None),
{
    let pvc_absent = sfs_pvc_name.is_none();
    let mut out = clone_envs(&step_spec.env);
    let ghost base = envs_view(out@);
    let ghost storage = opt_entries(metadata.storage);
    let ghost f = |m: StorageMount| mount_env(m, storage, pvc_absent);
    let sms = &step_spec.storage_mounts;
    let mut names: Vec<String> = Vec::new();
    let mut i: usize = 0;
    while i < sms.len()
        invariant
            i <= sms@.len(),
            storage == opt_entries(metadata.storage),
            f == (|m: StorageMount| mount_env(m, storage, pvc_absent)),
            envs_view(out@) == base + concat_all(sms@.take(i as int).map_values(f)),
            strs_view(names@) == mount_names(sms@.take(i as int)),
        decreases sms@.len() - i,
    {
        let ghost before = envs_view(out@);
        mount_env_exec(&sms[i], &metadata.storage, pvc_absent, &mut out);
        let ghost pn = names@;
        names.push(sms[i].name.clone());
        proof {
            lemma_map_take_push(sms@, i as int, f);
            lemma_map_take_push(sms@, i as int, |m: StorageMount| m.name@);
            lemma_map_push(pn, sms@[i as int].name, |s: String| s@);
            let t = sms@.take(i + 1).map_values(f);
            assert(t.drop_last() =~= sms@.take(i as int).map_values(f));
            assert(envs_view(out@) =~= base + concat_all(t));
        }
        i = i + 1;
    }
    assert(sms@.take(i as int) =~= sms@);
    let ghost e1 = envs_view(out@);
    if sms.len() > 0 {
        let joined = join_strings(&names, " ");
        let e = EnvVar { name: owned("STORMCHASER_STORAGES"), value: joined };
        let ghost pv = out@;
        out.push(e);
        proof { lemma_map_push(pv, e, |e: EnvVar| e@); }
    }
    let ghost e2 = envs_view(out@);
    assert(e2 =~= e1 + (if sms@.len() > 0 {
        seq![env("STORMCHASER_STORAGES"@, join(mount_names(sms@), " "@))]
    } else {
        Seq::<EnvVarView>::empty()
    }));
    let reports = &metadata.step_dsl.reports_json;
    if reports.len() > 0 {
        let inner = join_strings(reports, ",");
        let v = owned("[");
        let v = v.concat(inner.as_str());
        let v = v.concat("]");
        let e = EnvVar { name: owned("STORMCHASER_TEST_REPORTS"), value: v };
        let ghost pv = out@;
        out.push(e);
        proof { lemma_map_push(pv, e, |e: EnvVar| e@); }
        let ghost e3 = envs_view(out@);
        match &metadata.test_report_urls_json {
            Some(u) => {
                let e = EnvVar { name: owned("STORMCHASER_REPORT_URLS"), value: u.clone() };
                let ghost pv = out@;
                out.push(e);
                proof { lemma_map_push(pv, e, |e: EnvVar| e@); }
                assert(envs_view(out@) =~= e2 + (seq![env("STORMCHASER_TEST_REPORTS"@, "["@ + join(strs_view(reports@), ","@)
                    + "]"@)] + seq![env("STORMCHASER_REPORT_URLS"@, u@)]));
            },
            None => {
                assert(envs_view(out@) =~= e2 + (seq![env("STORMCHASER_TEST_REPORTS"@, "["@ + join(strs_view(reports@), ","@)
                    + "]"@)] + Seq::<EnvVarView>::empty()));
            },
        }
    } else {
        assert(envs_view(out@) =~= e2 + Seq::<EnvVarView>::empty());
    }
    out
}

} // verus!

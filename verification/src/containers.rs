//! The containers of a step's pod: agent injection, storage unparking and provisioning,
//! and the main container whose command is wrapped in a reporting shell script.
use vstd::prelude::*;
use crate::job_spec::{
    agent_mount, concat_all, join, lemma_concat_push, lemma_map_push, lemma_map_take_push, normalized,
    storage_sub_path, StepSpec, StorageMount,
};
use crate::json::{json_string, json_string_text};
use crate::k8s_model::{
    clone_envs, clone_opt_strings, clone_resources, clone_strings, containers_view, envs_view, mounts_view,
    opt_str_view, opt_strs_view, pairs_view, strs_view, Container, ContainerView, EnvVar, VolumeMount,
    VolumeMountView,
};
use crate::model::{find_storage, storage_lookup, JobMetadata, ProvisionEntry, StorageEntry, StorageUrls};
use crate::naming::{normalize_resource_name, uuid_string};
use crate::ordered_map::{index_insert, insert_all, insert_pair, json_object, json_object_text, PairsView};
use crate::text::{chars_of, contains_seq, contains_str, decimal_text, owned, string_from_chars, u64_text};
use crate::version::leading_count;

verus! {

// ---------------------------------------------------------------- shell script

pub open spec fn opt_or_empty_strs(o: Option<Vec<String>>) -> Seq<Seq<char>> {
    match o {
        Some(v) => strs_view(v@),
        None => Seq::empty(),
    }
}

/// The step's command followed by its arguments.
pub open spec fn step_command_line(spec: StepSpec) -> Seq<Seq<char>> {
    opt_or_empty_strs(spec.command) + opt_or_empty_strs(spec.args)
}

pub open spec fn entries_or_empty(o: Option<Vec<StorageEntry>>) -> Seq<StorageEntry> {
    match o {
        Some(v) => v@,
        None => Seq::empty(),
    }
}

pub open spec fn parking_item(e: StorageEntry) -> PairsView {
    if e.urls.has_put_url {
        seq![(e.name@, e.urls.raw_json@)]
    } else {
        Seq::empty()
    }
}

/// The mount path of the first storage mount with the given name.
pub open spec fn first_mount_path(ms: Seq<StorageMount>, name: Seq<char>) -> Option<Seq<char>>
    decreases ms.len(),
{
    if ms.len() == 0 {
        None
    } else if ms[0].name@ == name {
        Some(ms[0].mount_path@)
    } else {
        first_mount_path(ms.drop_first(), name)
    }
}

pub open spec fn mount_path_item(e: StorageEntry, ms: Seq<StorageMount>) -> PairsView {
    match first_mount_path(ms, e.name@) {
        Some(p) => seq![(e.name@, json_string_text(p))],
        None => Seq::empty(),
    }
}

pub open spec fn artifact_item(e: StorageEntry) -> PairsView {
    match e.urls.artifact_entries {
        Some(v) => pairs_view(v@),
        None => Seq::empty(),
    }
}

/// Storages with an upload URL, by name.
pub open spec fn parking_urls(es: Seq<StorageEntry>) -> PairsView {
    insert_all(Seq::empty(), concat_all(es.map_values(|e: StorageEntry| parking_item(e))))
}

/// Mount paths (as JSON strings) of the storages the step mounts, by storage name.
pub open spec fn mount_paths(es: Seq<StorageEntry>, ms: Seq<StorageMount>) -> PairsView {
    insert_all(Seq::empty(), concat_all(es.map_values(|e: StorageEntry| mount_path_item(e, ms))))
}

/// The artifact upload settings of all storages, by artifact name.
pub open spec fn artifact_urls(es: Seq<StorageEntry>) -> PairsView {
    insert_all(Seq::empty(), concat_all(es.map_values(|e: StorageEntry| artifact_item(e))))
}

/// The agent invocation that parks storages and uploads artifacts around the command.
pub open spec fn agent_command(es: Seq<StorageEntry>, ms: Seq<StorageMount>) -> Seq<char> {
    "/stormchaser/agent/stormchaser-agent run --parking-urls '"@ + json_object(parking_urls(es))
        + "' --mount-paths '"@ + json_object(mount_paths(es, ms)) + "'"@ + if artifact_urls(es).len() > 0 {
        " --artifact-urls '"@ + json_object(artifact_urls(es)) + "'"@
    } else {
        Seq::empty()
    }
}

pub open spec fn script_head(step_name: Seq<char>) -> Seq<char> {
    "echo '========================================'; echo 'Step Metadata: "@ + step_name
        + "'; echo \"Command: $@\"; echo '========================================'; "@
}

pub open spec fn script_tail() -> Seq<char> {
    "; RET=$?; echo '========================================'; echo 'Completion Status: '$RET; echo '========================================'; exit $RET"@
}

/// Whether the agent must wrap the command: it is injected and has storages or reports to handle.
pub open spec fn needs_agent(spec: StepSpec, meta: JobMetadata, agent_present: bool) -> bool {
    agent_present && (spec.storage_mounts@.len() > 0 || meta.step_dsl.reports_json@.len() > 0)
}

/// The script that runs the command and reports its completion status.
pub open spec fn wrapped_script(spec: StepSpec, meta: JobMetadata, agent_present: bool) -> Seq<char> {
    if needs_agent(spec, meta, agent_present) {
        script_head(meta.step_dsl.name@) + agent_command(entries_or_empty(meta.storage), spec.storage_mounts@)
            + " -- \"$@\""@ + script_tail()
    } else {
        script_head(meta.step_dsl.name@) + "\"$@\""@ + script_tail()
    }
}

/// Image, command and arguments of the main container: unchanged without a command, else
/// `/bin/sh -c <script> -- <command...>`.
pub open spec fn wrap_spec(spec: StepSpec, meta: JobMetadata, agent_present: bool) -> (
    Seq<char>,
    Option<Seq<Seq<char>>>,
    Option<Seq<Seq<char>>>,
) {
    if step_command_line(spec).len() == 0 {
        (spec.image@, opt_strs_view(spec.command), opt_strs_view(spec.args))
    } else {
        (
            spec.image@,
            Some(seq!["/bin/sh"@]),
            Some(seq!["-c"@, wrapped_script(spec, meta, agent_present), "--"@] + step_command_line(spec)),
        )
    }
}

fn append_strings(out: &mut Vec<String>, src: &Option<Vec<String>>)
    ensures
        strs_view(final(out)@) == strs_view(old(out)@) + opt_or_empty_strs(*src),
{
    match src {
        None => {
            assert(strs_view(out@) =~= strs_view(out@) + Seq::<Seq<char>>::empty());
        },
        Some(v) => {
            let ghost start = strs_view(out@);
            let mut i: usize = 0;
            while i < v.len()
                invariant
                    i <= v@.len(),
                    strs_view(out@) == start + strs_view(v@.take(i as int)),
                decreases v@.len() - i,
            {
                let ghost pv = out@;
                let s = v[i].clone();
                out.push(s);
                proof {
                    lemma_map_push(pv, s, |s: String| s@);
                    lemma_map_take_push(v@, i as int, |s: String| s@);
                    lemma_concat_push(start, strs_view(v@.take(i as int)), s@);
                }
                i = i + 1;
            }
            assert(v@.take(i as int) =~= v@);
        },
    }
}

fn mount_path_of(ms: &Vec<StorageMount>, name: &String) -> (r: Option<String>)
    ensures
        opt_str_view(r) == first_mount_path(ms@, name@),
{
    let mut i: usize = 0;
    assert(ms@.skip(0) =~= ms@);
    while i < ms.len()
        invariant
            i <= ms@.len(),
            first_mount_path(ms@, name@) == first_mount_path(ms@.skip(i as int), name@),
        decreases ms@.len() - i,
    {
        assert(ms@.skip(i as int).drop_first() =~= ms@.skip(i + 1));
        if ms[i].name == *name {
            return Some(ms[i].mount_path.clone());
        }
        i = i + 1;
    }
    None
}

proof fn lemma_concat_take_push<A>(es: Seq<A>, i: int, g: spec_fn(A) -> PairsView)
    requires
        0 <= i < es.len(),
    ensures
        concat_all(es.take(i + 1).map_values(g)) == concat_all(es.take(i).map_values(g)) + g(es[i]),
{
    lemma_map_take_push(es, i, g);
    assert(es.take(i).map_values(g).push(g(es[i])).drop_last() =~= es.take(i).map_values(g));
}

proof fn lemma_insert_all_push(m: PairsView, items: PairsView, k: Seq<char>, v: Seq<char>)
    ensures
        insert_all(m, items.push((k, v))) == index_insert(insert_all(m, items), k, v),
{
    assert(items.push((k, v)).drop_last() =~= items);
}

/// Builds the three maps the agent receives: upload URLs, mount paths and artifact URLs.
fn agent_maps(storage: &Option<Vec<StorageEntry>>, ms: &Vec<StorageMount>) -> (r: (
    Vec<(String, String)>,
    Vec<(String, String)>,
    Vec<(String, String)>,
))
    ensures
        pairs_view(r.0@) == parking_urls(entries_or_empty(*storage)),
        pairs_view(r.1@) == mount_paths(entries_or_empty(*storage), ms@),
        pairs_view(r.2@) == artifact_urls(entries_or_empty(*storage)),
{
    let ghost es = entries_or_empty(*storage);
    let ghost gp = |e: StorageEntry| parking_item(e);
    let ghost gm = |e: StorageEntry| mount_path_item(e, ms@);
    let ghost ga = |e: StorageEntry| artifact_item(e);
    let mut parking: Vec<(String, String)> = Vec::new();
    let mut paths: Vec<(String, String)> = Vec::new();
    let mut arts: Vec<(String, String)> = Vec::new();
    let empty_vec: Vec<StorageEntry> = Vec::new();
    let entries: &Vec<StorageEntry> = match storage {
        Some(v) => v,
        None => &empty_vec,
    };
    assert(entries@ == es);
    assert(es.take(0).map_values(gp) =~= Seq::<PairsView>::empty());
    assert(es.take(0).map_values(gm) =~= Seq::<PairsView>::empty());
    assert(es.take(0).map_values(ga) =~= Seq::<PairsView>::empty());
    assert(pairs_view(parking@) =~= Seq::<(Seq<char>, Seq<char>)>::empty());
    assert(pairs_view(paths@) =~= Seq::<(Seq<char>, Seq<char>)>::empty());
    assert(pairs_view(arts@) =~= Seq::<(Seq<char>, Seq<char>)>::empty());
    let mut i: usize = 0;
    while i < entries.len()
        invariant
            i <= entries@.len(),
            entries@ == es,
            gp == (|e: StorageEntry| parking_item(e)),
            gm == (|e: StorageEntry| mount_path_item(e, ms@)),
            ga == (|e: StorageEntry| artifact_item(e)),
            pairs_view(parking@) == insert_all(Seq::empty(), concat_all(es.take(i as int).map_values(gp))),
            pairs_view(paths@) == insert_all(Seq::empty(), concat_all(es.take(i as int).map_values(gm))),
            pairs_view(arts@) == insert_all(Seq::empty(), concat_all(es.take(i as int).map_values(ga))),
        decreases entries@.len() - i,
    {
        let e = &entries[i];
        proof {
            lemma_concat_take_push(es, i as int, gp);
            lemma_concat_take_push(es, i as int, gm);
            lemma_concat_take_push(es, i as int, ga);
        }
        let ghost dp = concat_all(es.take(i as int).map_values(gp));
        let ghost dm = concat_all(es.take(i as int).map_values(gm));
        let ghost da = concat_all(es.take(i as int).map_values(ga));
        // upload URLs
        if e.urls.has_put_url {
            proof {
                lemma_insert_all_push(Seq::empty(), dp, e.name@, e.urls.raw_json@);
                assert(dp + parking_item(*e) =~= dp.push((e.name@, e.urls.raw_json@)));
            }
            insert_pair(&mut parking, e.name.clone(), e.urls.raw_json.clone());
        } else {
            assert(dp + parking_item(*e) =~= dp);
        }
        // mount paths
        match mount_path_of(ms, &e.name) {
            Some(p) => {
                let js = json_string(p.as_str());
                proof {
                    lemma_insert_all_push(Seq::empty(), dm, e.name@, js@);
                    assert(dm + mount_path_item(*e, ms@) =~= dm.push((e.name@, js@)));
                }
                insert_pair(&mut paths, e.name.clone(), js);
            },
            None => {
                assert(dm + mount_path_item(*e, ms@) =~= dm);
            },
        }
        // artifacts
        match &e.urls.artifact_entries {
            None => {
                assert(da + artifact_item(*e) =~= da);
            },
            Some(items) => {
                let ghost iv = pairs_view(items@);
                let mut j: usize = 0;
                assert(da + iv.take(0) =~= da);
                while j < items.len()
                    invariant
                        j <= items@.len(),
                        iv == pairs_view(items@),
                        pairs_view(arts@) == insert_all(Seq::empty(), da + iv.take(j as int)),
                    decreases items@.len() - j,
                {
                    proof {
                        assert(da + iv.take(j + 1) =~= (da + iv.take(j as int)).push(iv[j as int]));
                        lemma_insert_all_push(Seq::empty(), da + iv.take(j as int), iv[j as int].0, iv[j as int].1);
                    }
                    insert_pair(&mut arts, items[j].0.clone(), items[j].1.clone());
                    j = j + 1;
                }
                assert(iv.take(j as int) =~= iv);
            },
        }
        i = i + 1;
    }
    assert(es.take(i as int) =~= es);
    (parking, paths, arts)
}

fn agent_command_exec(storage: &Option<Vec<StorageEntry>>, ms: &Vec<StorageMount>) -> (r: String)
    ensures
        r@ == agent_command(entries_or_empty(*storage), ms@),
{
    let (parking, paths, arts) = agent_maps(storage, ms);
    let r = owned("/stormchaser/agent/stormchaser-agent run --parking-urls '");
    let r = r.concat(json_object_text(&parking).as_str());
    let r = r.concat("' --mount-paths '");
    let r = r.concat(json_object_text(&paths).as_str());
    let r = r.concat("'");
    if arts.len() > 0 {
        let r = r.concat(" --artifact-urls '");
        let r = r.concat(json_object_text(&arts).as_str());
        r.concat("'")
    } else {
        proof {
            assert(r@ + Seq::<char>::empty() =~= r@);
        }
        r
    }
}

/// Wraps the step's command in the reporting script (through the agent when storages or
/// reports need it), returning the image, command and arguments of the main container.
pub fn wrap_main_command(step_spec: &StepSpec, metadata: &JobMetadata, agent_present: bool) -> (r: (
    String,
    Option<Vec<String>>,
    Option<Vec<String>>,
))
    ensures
        (r.0@, opt_strs_view(r.1), opt_strs_view(r.2)) == wrap_spec(*step_spec, *metadata, agent_present),
{
    let mut cmd: Vec<String> = Vec::new();
    append_strings(&mut cmd, &step_spec.command);
    append_strings(&mut cmd, &step_spec.args);
    assert(strs_view(cmd@) =~= step_command_line(*step_spec));
    if cmd.len() == 0 {
        return (step_spec.image.clone(), clone_opt_strings(&step_spec.command), clone_opt_strings(&step_spec.args));
    }
    let needs = agent_present && (step_spec.storage_mounts.len() > 0 || metadata.step_dsl.reports_json.len() > 0);
    let head = owned("echo '========================================'; echo 'Step Metadata: ");
    let head = head.concat(metadata.step_dsl.name.as_str());
    let head = head.concat("'; echo \"Command: $@\"; echo '========================================'; ");
    let script = if needs {
        let s = head.concat(agent_command_exec(&metadata.storage, &step_spec.storage_mounts).as_str());
        s.concat(" -- \"$@\"")
    } else {
        head.concat("\"$@\"")
    };
    let script = script.concat(
        "; RET=$?; echo '========================================'; echo 'Completion Status: '$RET; echo '========================================'; exit $RET",
    );
    let mut args: Vec<String> = Vec::new();
    args.push(owned("-c"));
    args.push(script);
    args.push(owned("--"));
    let ghost a0 = strs_view(args@);
    let mut i: usize = 0;
    while i < cmd.len()
        invariant
            i <= cmd@.len(),
            strs_view(args@) == a0 + strs_view(cmd@.take(i as int)),
        decreases cmd@.len() - i,
    {
        let ghost pv = args@;
        let s = cmd[i].clone();
        args.push(s);
        proof {
            lemma_map_push(pv, s, |s: String| s@);
            lemma_map_take_push(cmd@, i as int, |s: String| s@);
            lemma_concat_push(a0, strs_view(cmd@.take(i as int)), s@);
        }
        i = i + 1;
    }
    assert(cmd@.take(i as int) =~= cmd@);
    let mut sh: Vec<String> = Vec::new();
    sh.push(owned("/bin/sh"));
    assert(strs_view(sh@) =~= seq!["/bin/sh"@]);
    assert(a0 =~= seq!["-c"@, wrapped_script(*step_spec, *metadata, agent_present), "--"@]);
    (step_spec.image.clone(), Some(sh), Some(args))
}

// ---------------------------------------------------------------- init and main containers

/// Images of the agent are pulled only when missing.
pub open spec fn pull_policy(image: Seq<char>) -> Option<Seq<char>> {
    if contains_seq(image, "stormchaser-agent"@) {
        Some("IfNotPresent"@)
    } else {
        None
    }
}

pub open spec fn helper_image(agent: Option<Seq<char>>) -> Seq<char> {
    match agent {
        Some(a) => a,
        None => "alpine:latest"@,
    }
}

pub open spec fn helper_pull(agent: Option<Seq<char>>) -> Option<Seq<char>> {
    match agent {
        Some(a) => pull_policy(a),
        None => None,
    }
}

pub open spec fn copy_agent_script() -> Seq<char> {
    "cp /usr/local/bin/stormchaser-agent /stormchaser/agent/stormchaser-agent && chmod +x /stormchaser/agent/stormchaser-agent"@
}

/// The init container that copies the agent binary into the shared scratch volume.
pub open spec fn inject_container(image: Seq<char>) -> ContainerView {
    ContainerView {
        name: "inject-agent"@,
        image,
        image_pull_policy: pull_policy(image),
        command: Some(seq!["/bin/sh"@, "-c"@, copy_agent_script()]),
        args: None,
        env: None,
        resources: None,
        volume_mounts: Some(seq![agent_mount()]),
        privileged: None,
    }
}

pub open spec fn storage_volume_mount(m: StorageMount, run_id: u128, pvc: Option<Seq<char>>) -> VolumeMountView {
    VolumeMountView {
        name: normalized("sfs"@, m.name@),
        mount_path: m.mount_path@,
        sub_path: storage_sub_path(run_id, m.name@, pvc),
        read_only: None,
    }
}

/// The init container that restores a parked storage from its download URL.
pub open spec fn unpark_container(
    m: StorageMount,
    get_url: Seq<char>,
    agent: Option<Seq<char>>,
    run_id: u128,
    pvc: Option<Seq<char>>,
) -> ContainerView {
    let mp = m.mount_path@;
    ContainerView {
        name: normalized("unpark"@, m.name@),
        image: helper_image(agent),
        image_pull_policy: helper_pull(agent),
        command: Some(seq!["/bin/sh"@]),
        args: Some(
            seq![
                "-c"@,
                "mkdir -p \""@ + mp + "\" && curl -sL \""@ + get_url + "\" | tar -xz -C \""@ + mp + "\" || true"@,
            ],
        ),
        env: None,
        resources: None,
        volume_mounts: Some(seq![storage_volume_mount(m, run_id, pvc)]),
        privileged: None,
    }
}

/// Every `c` removed.
pub open spec fn remove_char(s: Seq<char>, c: char) -> Seq<char>
    decreases s.len(),
{
    if s.len() == 0 {
        s
    } else if s.last() == c {
        remove_char(s.drop_last(), c)
    } else {
        remove_char(s.drop_last(), c).push(s.last())
    }
}

/// A relative path component appended to a base path, with a separator when the base
/// does not already end in one (Unix path joining).
pub open spec fn path_join(base: Seq<char>, rel: Seq<char>) -> Seq<char> {
    if base.len() > 0 && base.last() != '/' {
        base + seq!['/'] + rel
    } else {
        base + rel
    }
}

/// Where a provisioning archive is unpacked: the mount path, or the mount path joined with
/// the destination stripped of its slashes.
pub open spec fn dest_path(mount_path: Seq<char>, dest: Seq<char>) -> Seq<char> {
    if dest == "/"@ || dest.len() == 0 {
        mount_path
    } else {
        path_join(mount_path, remove_char(dest.skip(leading_count(dest, '/') as int), '/'))
    }
}

/// The init container that unpacks one provisioning archive into an empty destination.
pub open spec fn provision_container(
    m: StorageMount,
    index: nat,
    url: Seq<char>,
    dest: Seq<char>,
    agent: Option<Seq<char>>,
    run_id: u128,
    pvc: Option<Seq<char>>,
) -> ContainerView {
    let d = dest_path(m.mount_path@, dest);
    ContainerView {
        name: normalized("prov"@, m.name@) + seq!['-'] + decimal_text(index),
        image: helper_image(agent),
        image_pull_policy: helper_pull(agent),
        command: Some(seq!["/bin/sh"@]),
        args: Some(
            seq![
                "-c"@,
                "if [ -z \"$(ls -A \\\""@ + d + "\\\" 2>/dev/null)\" ]; then mkdir -p \""@ + d
                    + "\" && curl -sL \""@ + url + "\" | tar -xz -C \""@ + d + "\" || true; fi"@,
            ],
        ),
        env: None,
        resources: None,
        volume_mounts: Some(seq![storage_volume_mount(m, run_id, pvc)]),
        privileged: None,
    }
}

pub open spec fn provision_item(
    m: StorageMount,
    p: ProvisionEntry,
    index: nat,
    agent: Option<Seq<char>>,
    run_id: u128,
    pvc: Option<Seq<char>>,
) -> Seq<ContainerView> {
    match (p.url, p.destination) {
        (Some(u), Some(d)) => seq![provision_container(m, index, u@, d@, agent, run_id, pvc)],
        _ => Seq::empty(),
    }
}

pub open spec fn provision_items(
    m: StorageMount,
    ps: Seq<ProvisionEntry>,
    agent: Option<Seq<char>>,
    run_id: u128,
    pvc: Option<Seq<char>>,
) -> Seq<Seq<ContainerView>> {
    Seq::new(ps.len(), |k: int| provision_item(m, ps[k], k as nat, agent, run_id, pvc))
}

/// The init containers one storage mount needs: unparking its saved state (URL storage
/// only), or else provisioning it from its archives.
pub open spec fn mount_init(
    m: StorageMount,
    storage: Option<Seq<StorageEntry>>,
    agent: Option<Seq<char>>,
    run_id: u128,
    pvc: Option<Seq<char>>,
) -> Seq<ContainerView> {
    match storage {
        None => Seq::empty(),
        Some(es) => match storage_lookup(es, m.name@) {
            None => Seq::empty(),
            Some(u) => if u.has_expected_hash && pvc is None {
                match u.get_url {
                    Some(g) => seq![unpark_container(m, g@, agent, run_id, pvc)],
                    None => Seq::empty(),
                }
            } else {
                match u.provision {
                    Some(ps) => concat_all(provision_items(m, ps@, agent, run_id, pvc)),
                    None => Seq::empty(),
                }
            },
        },
    }
}

pub open spec fn opt_entries_view(o: Option<Vec<StorageEntry>>) -> Option<Seq<StorageEntry>> {
    match o {
        Some(v) => Some(v@),
        None => None,
    }
}

/// All init containers: the agent injector, then the storage containers in mount order.
pub open spec fn init_containers_spec(
    agent: Option<Seq<char>>,
    pvc: Option<Seq<char>>,
    meta: JobMetadata,
    spec: StepSpec,
) -> Seq<ContainerView> {
    (match agent {
        Some(a) => seq![inject_container(a)],
        None => Seq::empty(),
    }) + concat_all(
        spec.storage_mounts@.map_values(
            |m: StorageMount| mount_init(m, opt_entries_view(meta.storage), agent, meta.run_id, pvc),
        ),
    )
}

/// The main container's mounts: the given ones, plus the agent's scratch volume when the
/// agent handles storages and it is not mounted yet.
pub open spec fn main_mounts(agent_present: bool, spec: StepSpec, mounts: Seq<VolumeMountView>) -> Seq<VolumeMountView> {
    if agent_present && spec.storage_mounts@.len() > 0 && !(exists|k: int|
        0 <= k < mounts.len() && mounts[k].mount_path == "/stormchaser/agent"@) {
        mounts.push(agent_mount())
    } else {
        mounts
    }
}

/// The container that runs the step.
pub open spec fn main_container_spec(
    agent: Option<Seq<char>>,
    meta: JobMetadata,
    spec: StepSpec,
    env: Seq<crate::k8s_model::EnvVarView>,
    mounts: Seq<VolumeMountView>,
) -> ContainerView {
    let w = wrap_spec(spec, meta, agent is Some);
    ContainerView {
        name: "worker"@,
        image: w.0,
        image_pull_policy: pull_policy(w.0),
        command: w.1,
        args: w.2,
        env: Some(env),
        resources: Some(spec.resources@),
        volume_mounts: Some(main_mounts(agent is Some, spec, mounts)),
        privileged: spec.privileged,
    }
}

fn pull_policy_exec(image: &String) -> (r: Option<String>)
    ensures
        opt_str_view(r) == pull_policy(image@),
{
    let cs = chars_of(image.as_str());
    let pat = chars_of("stormchaser-agent");
    if contains_str(&cs, &pat) {
        Some(owned("IfNotPresent"))
    } else {
        None
    }
}

fn helper_image_exec(agent: &Option<String>) -> (r: (String, Option<String>))
    ensures
        r.0@ == helper_image(opt_str_view(*agent)),
        opt_str_view(r.1) == helper_pull(opt_str_view(*agent)),
{
    match agent {
        Some(a) => (a.clone(), pull_policy_exec(a)),
        None => (owned("alpine:latest"), None),
    }
}

fn storage_volume_mount_exec(m: &StorageMount, run_id: u128, pvc: &Option<String>) -> (r: VolumeMount)
    ensures
        r@ == storage_volume_mount(*m, run_id, opt_str_view(*pvc)),
{
    let sub_path = match pvc {
        Some(_) => {
            let id = uuid_string(run_id);
            let s = id.concat("/");
            proof {
                reveal_strlit("/");
                assert("/"@ =~= seq!['/']);
            }
            Some(s.concat(m.name.as_str()))
        },
        None => None,
    };
    VolumeMount {
        name: normalize_resource_name(m.name.as_str(), "sfs"),
        mount_path: m.mount_path.clone(),
        sub_path,
        read_only: None,
    }
}

fn one_mount(m: VolumeMount) -> (r: Vec<VolumeMount>)
    ensures
        mounts_view(r@) == seq![m@],
{
    let mut v: Vec<VolumeMount> = Vec::new();
    v.push(m);
    assert(mounts_view(v@) =~= seq![m@]);
    v
}

fn sh_dash_c(script: String) -> (r: Vec<String>)
    ensures
        strs_view(r@) == seq!["-c"@, script@],
{
    let mut v: Vec<String> = Vec::new();
    v.push(owned("-c"));
    v.push(script);
    assert(strs_view(v@) =~= seq!["-c"@, script@]);
    v
}

fn bin_sh() -> (r: Vec<String>)
    ensures
        strs_view(r@) == seq!["/bin/sh"@],
{
    let mut v: Vec<String> = Vec::new();
    v.push(owned("/bin/sh"));
    assert(strs_view(v@) =~= seq!["/bin/sh"@]);
    v
}

fn unpark_exec(m: &StorageMount, get_url: &String, agent: &Option<String>, run_id: u128, pvc: &Option<String>) -> (r: Container)
    ensures
        r@ == unpark_container(*m, get_url@, opt_str_view(*agent), run_id, opt_str_view(*pvc)),
{
    let (image, pull) = helper_image_exec(agent);
    let mp = m.mount_path.as_str();
    let script = owned("mkdir -p \"");
    let script = script.concat(mp);
    let script = script.concat("\" && curl -sL \"");
    let script = script.concat(get_url.as_str());
    let script = script.concat("\" | tar -xz -C \"");
    let script = script.concat(mp);
    let script = script.concat("\" || true");
    Container {
        name: normalize_resource_name(m.name.as_str(), "unpark"),
        image,
        image_pull_policy: pull,
        command: Some(bin_sh()),
        args: Some(sh_dash_c(script)),
        env: None,
        resources: None,
        volume_mounts: Some(one_mount(storage_volume_mount_exec(m, run_id, pvc))),
        privileged: None,
    }
}

pub(crate) fn remove_char_exec(s: &Vec<char>, start: usize, c: char) -> (r: Vec<char>)
    requires
        start <= s@.len(),
    ensures
        r@ == remove_char(s@.skip(start as int), c),
{
    let mut out: Vec<char> = Vec::new();
    let mut i: usize = start;
    assert(s@.skip(start as int).take(0) =~= Seq::<char>::empty());
    while i < s.len()
        invariant
            start <= i <= s@.len(),
            out@ == remove_char(s@.skip(start as int).take(i - start), c),
        decreases s@.len() - i,
    {
        let ghost t = s@.skip(start as int).take(i + 1 - start);
        assert(t.drop_last() =~= s@.skip(start as int).take(i - start));
        assert(t.last() == s@[i as int]);
        if s[i] != c {
            out.push(s[i]);
        }
        i = i + 1;
    }
    assert(s@.skip(start as int).take(i - start) =~= s@.skip(start as int));
    out
}

fn dest_path_exec(mount_path: &String, dest: &String) -> (r: String)
    ensures
        r@ == dest_path(mount_path@, dest@),
{
    let d = chars_of(dest.as_str());
    proof {
        reveal_strlit("/");
    }
    if d.len() == 0 || (d.len() == 1 && d[0] == '/') {
        assert(d.len() == 1 && d[0] == '/' ==> dest@ =~= "/"@);
        return mount_path.clone();
    }
    assert(dest@ != "/"@) by {
        if dest@ == "/"@ {
            assert(dest@.len() == 1);
        }
    }
    let n = d.len();
    let mut a: usize = 0;
    while a < n && d[a] == '/'
        invariant
            a <= n,
            n == d@.len(),
            forall|j: int| 0 <= j < a ==> d@[j] == '/',
        decreases n - a,
    {
        a = a + 1;
    }
    proof {
        crate::version::lemma_leading_count_pub(d@, '/', a as int);
    }
    let rel = remove_char_exec(&d, a, '/');
    let base = chars_of(mount_path.as_str());
    let mut out = base;
    if out.len() > 0 && out[out.len() - 1] != '/' {
        out.push('/');
    }
    let mut i: usize = 0;
    let ghost b = out@;
    while i < rel.len()
        invariant
            i <= rel@.len(),
            out@ == b + rel@.take(i as int),
        decreases rel@.len() - i,
    {
        out.push(rel[i]);
        i = i + 1;
        assert(out@ =~= b + rel@.take(i as int));
    }
    assert(rel@.take(i as int) =~= rel@);
    string_from_chars(&out)
}

fn provision_exec(
    m: &StorageMount,
    index: usize,
    url: &String,
    dest: &String,
    agent: &Option<String>,
    run_id: u128,
    pvc: &Option<String>,
) -> (r: Container)
    ensures
        r@ == provision_container(*m, index as nat, url@, dest@, opt_str_view(*agent), run_id, opt_str_view(*pvc)),
{
    let (image, pull) = helper_image_exec(agent);
    let d = dest_path_exec(&m.mount_path, dest);
    let ds = d.as_str();
    let script = owned("if [ -z \"$(ls -A \\\"");
    let script = script.concat(ds);
    let script = script.concat("\\\" 2>/dev/null)\" ]; then mkdir -p \"");
    let script = script.concat(ds);
    let script = script.concat("\" && curl -sL \"");
    let script = script.concat(url.as_str());
    let script = script.concat("\" | tar -xz -C \"");
    let script = script.concat(ds);
    let script = script.concat("\" || true; fi");
    let name = normalize_resource_name(m.name.as_str(), "prov");
    let name = name.concat("-");
    proof {
        reveal_strlit("-");
        assert("-"@ =~= seq!['-']);
    }
    let name = name.concat(u64_text(index as u64).as_str());
    Container {
        name,
        image,
        image_pull_policy: pull,
        command: Some(bin_sh()),
        args: Some(sh_dash_c(script)),
        env: None,
        resources: None,
        volume_mounts: Some(one_mount(storage_volume_mount_exec(m, run_id, pvc))),
        privileged: None,
    }
}

fn push_container(out: &mut Vec<Container>, c: Container)
    ensures
        containers_view(final(out)@) == containers_view(old(out)@).push(c@),
{
    let ghost pv = out@;
    out.push(c);
    proof {
        lemma_map_push(pv, c, |c: Container| c@);
    }
}

fn mount_init_exec(
    m: &StorageMount,
    metadata: &JobMetadata,
    agent: &Option<String>,
    pvc: &Option<String>,
    out: &mut Vec<Container>,
)
    ensures
        containers_view(final(out)@) == containers_view(old(out)@) + mount_init(
            *m,
            opt_entries_view(metadata.storage),
            opt_str_view(*agent),
            metadata.run_id,
            opt_str_view(*pvc),
        ),
{
    let ghost start = containers_view(out@);
    let ghost ag = opt_str_view(*agent);
    let ghost pv = opt_str_view(*pvc);
    let run_id = metadata.run_id;
    match &metadata.storage {
        None => {
            assert(containers_view(out@) =~= start + Seq::<ContainerView>::empty());
        },
        Some(es) => match find_storage(es, &m.name) {
            None => {
                assert(containers_view(out@) =~= start + Seq::<ContainerView>::empty());
            },
            Some(u) => {
                if u.has_expected_hash && pvc.is_none() {
                    match &u.get_url {
                        Some(g) => {
                            let c = unpark_exec(m, g, agent, run_id, pvc);
                            push_container(out, c);
                            assert(containers_view(out@) =~= start + seq![c@]);
                        },
                        None => {
                            assert(containers_view(out@) =~= start + Seq::<ContainerView>::empty());
                        },
                    }
                } else {
                    match &u.provision {
                        None => {
                            assert(containers_view(out@) =~= start + Seq::<ContainerView>::empty());
                        },
                        Some(ps) => {
                            let ghost items = provision_items(*m, ps@, ag, run_id, pv);
                            let mut k: usize = 0;
                            assert(items.take(0) =~= Seq::<Seq<ContainerView>>::empty());
                            assert(containers_view(out@) =~= start + concat_all(items.take(0)));
                            while k < ps.len()
                                invariant
                                    k <= ps@.len(),
                                    items == provision_items(*m, ps@, ag, run_id, pv),
                                    ag == opt_str_view(*agent),
                                    pv == opt_str_view(*pvc),
                                    run_id == metadata.run_id,
                                    containers_view(out@) == start + concat_all(items.take(k as int)),
                                decreases ps@.len() - k,
                            {
                                assert(items.take(k + 1).drop_last() =~= items.take(k as int));
                                let p = &ps[k];
                                match (&p.url, &p.destination) {
                                    (Some(url), Some(dest)) => {
                                        let c = provision_exec(m, k, url, dest, agent, run_id, pvc);
                                        push_container(out, c);
                                        assert(items[k as int] == seq![c@]);
                                        assert(containers_view(out@) =~= start + concat_all(items.take(k + 1)));
                                    },
                                    _ => {
                                        assert(items[k as int] =~= Seq::<ContainerView>::empty());
                                        assert(containers_view(out@) =~= start + concat_all(items.take(k + 1)));
                                    },
                                }
                                k = k + 1;
                            }
                            assert(items.take(k as int) =~= items);
                        },
                    }
                }
            },
        },
    }
}

fn has_agent_mount(mounts: &Vec<VolumeMount>) -> (r: bool)
    ensures
        r == exists|k: int| 0 <= k < mounts@.len() && mounts_view(mounts@)[k].mount_path == "/stormchaser/agent"@,
{
    let target = owned("/stormchaser/agent");
    let mut i: usize = 0;
    while i < mounts.len()
        invariant
            i <= mounts@.len(),
            target@ == "/stormchaser/agent"@,
            forall|k: int| 0 <= k < i ==> mounts_view(mounts@)[k].mount_path != "/stormchaser/agent"@,
        decreases mounts@.len() - i,
    {
        if mounts[i].mount_path == target {
            assert(mounts_view(mounts@)[i as int].mount_path == "/stormchaser/agent"@);
            return true;
        }
        i = i + 1;
    }
    false
}

/// Builds the main container and the init containers of a step's pod.
pub fn build_k8s_containers(
    agent_image: &Option<String>,
    sfs_pvc_name: &Option<String>,
    metadata: &JobMetadata,
    step_spec: &StepSpec,
    k8s_env: Vec<EnvVar>,
    volume_mounts: Vec<VolumeMount>,
) -> (r: (Container, Vec<Container>))
    ensures
        r.0@ == main_container_spec(opt_str_view(*agent_image), *metadata, *step_spec, envs_view(k8s_env@), mounts_view(volume_mounts@)),
        containers_view(r.1@) == init_containers_spec(opt_str_view(*agent_image), opt_str_view(*sfs_pvc_name), *metadata, *step_spec),
{
    let ghost ag = opt_str_view(*agent_image);
    let ghost pv = opt_str_view(*sfs_pvc_name);
    let mut init: Vec<Container> = Vec::new();
    if let Some(img) = agent_image {
        let mut mounts: Vec<VolumeMount> = Vec::new();
        mounts.push(VolumeMount {
            name: owned("storm-agent"),
            mount_path: owned("/stormchaser/agent"),
            sub_path: None,
            read_only: None,
        });
        assert(mounts_view(mounts@) =~= seq![agent_mount()]);
        let mut cmd: Vec<String> = Vec::new();
        cmd.push(owned("/bin/sh"));
        cmd.push(owned("-c"));
        cmd.push(owned(
            "cp /usr/local/bin/stormchaser-agent /stormchaser/agent/stormchaser-agent && chmod +x /stormchaser/agent/stormchaser-agent",
        ));
        assert(strs_view(cmd@) =~= seq!["/bin/sh"@, "-c"@, copy_agent_script()]);
        let c = Container {
            name: owned("inject-agent"),
            image: img.clone(),
            image_pull_policy: pull_policy_exec(img),
            command: Some(cmd),
            args: None,
            env: None,
            resources: None,
            volume_mounts: Some(mounts),
            privileged: None,
        };
        push_container(&mut init, c);
    }
    let ghost c0 = containers_view(init@);
    assert(c0 =~= (match ag {
        Some(a) => seq![inject_container(a)],
        None => Seq::<ContainerView>::empty(),
    }));
    let ghost f = |m: StorageMount| mount_init(m, opt_entries_view(metadata.storage), ag, metadata.run_id, pv);
    let sms = &step_spec.storage_mounts;
    let mut i: usize = 0;
    assert(sms@.take(0).map_values(f) =~= Seq::<Seq<ContainerView>>::empty());
    assert(containers_view(init@) =~= c0 + concat_all(sms@.take(0).map_values(f)));
    while i < sms.len()
        invariant
            i <= sms@.len(),
            ag == opt_str_view(*agent_image),
            pv == opt_str_view(*sfs_pvc_name),
            f == (|m: StorageMount| mount_init(m, opt_entries_view(metadata.storage), ag, metadata.run_id, pv)),
            containers_view(init@) == c0 + concat_all(sms@.take(i as int).map_values(f)),
        decreases sms@.len() - i,
    {
        let ghost before = concat_all(sms@.take(i as int).map_values(f));
        mount_init_exec(&sms[i], metadata, agent_image, sfs_pvc_name, &mut init);
        proof {
            lemma_map_take_push(sms@, i as int, f);
            let t = sms@.take(i + 1).map_values(f);
            assert(t.drop_last() =~= sms@.take(i as int).map_values(f));
            assert(containers_view(init@) =~= c0 + concat_all(t));
        }
        i = i + 1;
    }
    assert(sms@.take(i as int) =~= sms@);
    // main container
    let (image, command, args) = wrap_main_command(step_spec, metadata, agent_image.is_some());
    let mut mounts = volume_mounts;
    let ghost m0 = mounts_view(mounts@);
    if agent_image.is_some() && step_spec.storage_mounts.len() > 0 && !has_agent_mount(&mounts) {
        let am = VolumeMount {
            name: owned("storm-agent"),
            mount_path: owned("/stormchaser/agent"),
            sub_path: None,
            read_only: None,
        };
        let ghost pm = mounts@;
        mounts.push(am);
        proof {
            lemma_map_push(pm, am, |m: VolumeMount| m@);
        }
    }
    assert(mounts_view(mounts@) == main_mounts(agent_image is Some, *step_spec, m0));
    let pull = pull_policy_exec(&image);
    let main = Container {
        name: owned("worker"),
        image,
        image_pull_policy: pull,
        command,
        args,
        env: Some(k8s_env),
        resources: Some(clone_resources(&step_spec.resources)),
        volume_mounts: Some(mounts),
        privileged: step_spec.privileged,
    };
    (main, init)
}

} // verus!

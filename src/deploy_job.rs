//! The deploy job that a Gordo is launched with.

use vstd::prelude::*;
use crate::config::Config;
use crate::gordo::Gordo;
use crate::json::{json_object, json_quoted, quote_json};
use crate::labels::{object_to_owner_reference, opt_view, pairs_view, set_entries, set_pairs, ObjectMeta, OwnerReference};
use crate::text::{i64_text, int_text};
use vstd::utf8::{decode_utf8, encode_utf8, is_char_boundary};
use vstd::string::StringSliceAdditionalSpecFns;

verus! {

/// Longest name that Kubernetes takes for a Job.
pub const MAX_NAME_LEN: usize = 63;

/// The first character boundary of `bytes` at or after `i`.
pub open spec fn boundary_from(bytes: Seq<u8>, i: int) -> int
    decreases bytes.len() - i,
{
    if i >= bytes.len() || is_char_boundary(bytes, i) {
        i
    } else {
        boundary_from(bytes, i + 1)
    }
}

/// The octets of a deploy job's name: all of `prefix`, then the longest end of
/// `suffix` that starts on a character and fits in the length limit.
pub open spec fn job_name_bytes(prefix: Seq<u8>, suffix: Seq<u8>) -> Seq<u8> {
    let budget = MAX_NAME_LEN - prefix.len();
    let first = if suffix.len() > budget { suffix.len() - budget } else { 0 };
    prefix + suffix.subrange(boundary_from(suffix, first), suffix.len() as int)
}

/// The name of a deploy job: all of `prefix`, then as much of the end of `suffix`
/// as fits in the length limit, counted in UTF-8 octets.
pub open spec fn job_name_of(prefix: Seq<char>, suffix: Seq<char>) -> Seq<char> {
    decode_utf8(job_name_bytes(encode_utf8(prefix), encode_utf8(suffix)))
}

/// The UTF-8 encoding of two strings one after the other.
pub proof fn lemma_encode_concat(a: Seq<char>, b: Seq<char>)
    ensures
        encode_utf8(a + b) == encode_utf8(a) + encode_utf8(b),
    decreases a.len(),
{
    if a.len() == 0 {
        assert(a + b =~= b);
        assert(encode_utf8(a) + encode_utf8(b) =~= encode_utf8(b));
    } else {
        assert((a + b).drop_first() =~= a.drop_first() + b);
        assert((a + b)[0] == a[0]);
        lemma_encode_concat(a.drop_first(), b);
        assert(encode_utf8(a + b) =~= encode_utf8(a) + encode_utf8(b));
    }
}

/// A name no longer than the limit in octets, keeping `prefix` whole and the end of
/// `suffix`; the whole of both where they fit.
pub fn deploy_job_name(prefix: &str, suffix: &str) -> (r: String)
    requires
        encode_utf8(prefix@).len() <= MAX_NAME_LEN,
    ensures
        encode_utf8(r@) == job_name_bytes(encode_utf8(prefix@), encode_utf8(suffix@)),
        r@ == job_name_of(prefix@, suffix@),
        encode_utf8(r@).len() <= MAX_NAME_LEN,
        r@.subrange(0, prefix@.len() as int) == prefix@,
        encode_utf8(prefix@).len() + encode_utf8(suffix@).len() <= MAX_NAME_LEN ==> r@ == prefix@ + suffix@,
{
    broadcast use vstd::utf8::encode_utf8_decode_utf8, vstd::utf8::encode_utf8_valid_utf8,
        vstd::utf8::is_char_boundary_start_end_of_seq;

    let ghost pb = encode_utf8(prefix@);
    let ghost sb = encode_utf8(suffix@);
    let plen = prefix.as_bytes().len();
    let slen = suffix.as_bytes().len();
    assert(sb.len() == slen);
    let budget = MAX_NAME_LEN - plen;
    let first = if slen > budget { slen - budget } else { 0 };
    let mut start = first;
    assert(is_char_boundary(sb, slen as int));
    while !suffix.is_char_boundary(start)
        invariant
            first <= start <= slen,
            sb == encode_utf8(suffix@),
            slen == sb.len(),
            is_char_boundary(sb, slen as int),
            boundary_from(sb, first as int) == boundary_from(sb, start as int),
        decreases slen - start,
    {
        start = start + 1;
    }
    let parts = suffix.split_at(start);
    let tail = parts.1;
    let mut r = String::from_str(prefix);
    r.append(tail);
    proof {
        lemma_encode_concat(prefix@, tail@);
        assert(encode_utf8(tail@) == sb.subrange(start as int, slen as int));
        assert(encode_utf8(r@) =~= job_name_bytes(pb, sb));
        assert(r@.subrange(0, prefix@.len() as int) =~= prefix@);
        if pb.len() + sb.len() <= MAX_NAME_LEN {
            assert(sb.subrange(0, slen as int) =~= sb);
            assert(tail@ == decode_utf8(encode_utf8(tail@)));
        }
    }
    r
}

/// The octets of the name prefix of every deploy job.
proof fn lemma_prefix_octets()
    ensures
        encode_utf8(JOB_NAME_PREFIX@).len() == 10,
{
    broadcast use vstd::utf8::is_ascii_chars_encode_utf8;

    reveal_strlit("gordo-dpl-");
    assert(vstd::utf8::is_ascii_chars(JOB_NAME_PREFIX@));
}

/// Prefix of the name of every deploy job.
pub const JOB_NAME_PREFIX: &'static str = "gordo-dpl-";

/// Label that ties a deploy job to its Gordo.
pub const PROJECT_LABEL: &'static str = "gordoProjectName";

/// How long a finished deploy job is kept: a week, in seconds.
pub const TTL_SECONDS_AFTER_FINISHED: i32 = 604800;

/// An environment variable of a container.
#[derive(Debug)]
pub struct EnvVar {
    pub name: String,
    pub value: Option<String>,
}

/// An environment variable with a value.
pub fn env_var(name: &str, value: &str) -> (r: EnvVar)
    ensures
        r.name@ == name@,
        opt_view(r.value) == Some(value@),
{
    EnvVar { name: String::from_str(name), value: Some(String::from_str(value)) }
}

/// Compute resources of a container, by resource name.
#[derive(Debug)]
pub struct ResourceRequirements {
    pub limits: Vec<(String, String)>,
    pub requests: Vec<(String, String)>,
}

/// Where a volume is mounted in a container.
#[derive(Debug)]
pub struct VolumeMount {
    pub name: String,
    pub mount_path: String,
}

/// The security settings of a container.
#[derive(Debug)]
pub struct SecurityContext {
    pub run_as_non_root: Option<bool>,
    pub read_only_root_filesystem: Option<bool>,
}

/// A container of the deploy job.
#[derive(Debug)]
pub struct Container {
    pub name: String,
    pub image: String,
    pub command: Vec<String>,
    pub image_pull_policy: String,
    pub env: Vec<EnvVar>,
    pub resources: ResourceRequirements,
    pub security_context: SecurityContext,
    pub volume_mounts: Vec<VolumeMount>,
}

/// An empty scratch volume of a pod.
#[derive(Debug)]
pub struct Volume {
    pub name: String,
}

/// The pod that the deploy job runs.
#[derive(Debug)]
pub struct PodSpec {
    pub containers: Vec<Container>,
    pub restart_policy: String,
    pub volumes: Vec<Volume>,
    pub service_account: Option<String>,
}

/// The template of the deploy job's pod.
#[derive(Debug)]
pub struct PodTemplateSpec {
    pub metadata: ObjectMeta,
    pub spec: PodSpec,
}

/// A deploy job.
#[derive(Debug)]
pub struct DeployJob {
    pub metadata: ObjectMeta,
    pub ttl_seconds_after_finished: i32,
    pub template: PodTemplateSpec,
}

/// The image repository of a deploy: the Gordo's own registry and repository where
/// it sets them, else the configured ones; the configured image where no repository
/// is set at all.
pub open spec fn deploy_image_of(g: Gordo, c: Config) -> Seq<char> {
    let registry = match g.spec.docker_registry {
        Some(r) => r@,
        None => c.docker_registry@,
    };
    match g.spec.deploy_repository {
        Some(repo) => registry + "/"@ + repo@,
        None => if c.deploy_repository@.len() > 0 {
            registry + "/"@ + c.deploy_repository@
        } else {
            c.deploy_image@
        },
    }
}

/// The image repository of the deploy of `gordo`.
pub fn deploy_image(gordo: &Gordo, config: &Config) -> (r: String)
    ensures
        r@ == deploy_image_of(*gordo, *config),
{
    let registry = match &gordo.spec.docker_registry {
        Some(r) => r,
        None => &config.docker_registry,
    };
    match &gordo.spec.deploy_repository {
        Some(repo) => {
            let mut r = registry.clone();
            r.append("/");
            r.append(repo.as_str());
            r
        },
        None => {
            if config.deploy_repository.as_str().unicode_len() > 0 {
                let mut r = registry.clone();
                r.append("/");
                r.append(config.deploy_repository.as_str());
                r
            } else {
                config.deploy_image.clone()
            }
        },
    }
}

/// The resource labels, with later entries overriding earlier ones, and none under
/// the key of the label that ties a job to its Gordo.
pub open spec fn resource_labels_of(resources_labels: Option<Vec<(String, String)>>) -> Seq<(Seq<char>, Seq<char>)> {
    match resources_labels {
        Some(l) => set_entries(Seq::empty(), pairs_view(l@)).filter(|e: (Seq<char>, Seq<char>)| e.0 != PROJECT_LABEL@),
        None => Seq::empty(),
    }
}

/// The labels of a deploy job and its pod: the resource labels, then the Gordo's name,
/// which no resource label can replace.
pub open spec fn deploy_labels_of(name: Seq<char>, resources_labels: Option<Vec<(String, String)>>) -> Seq<(Seq<char>, Seq<char>)> {
    resource_labels_of(resources_labels).push((PROJECT_LABEL@, name))
}

/// The labels of the deploy job of `gordo`; none where it has no name.
pub fn deploy_labels(gordo: &Gordo, resources_labels: &Option<Vec<(String, String)>>) -> (r: Vec<(String, String)>)
    ensures
        match gordo.metadata.name {
            Some(name) => pairs_view(r@) == deploy_labels_of(name@, *resources_labels),
            None => r@.len() == 0,
        },
{
    let name = match &gordo.metadata.name {
        Some(name) => name,
        None => {
            return Vec::new();
        },
    };
    let mut merged: Vec<(String, String)> = Vec::new();
    assert(pairs_view(merged@) =~= Seq::empty());
    match resources_labels {
        Some(extra) => set_pairs(&mut merged, extra),
        None => {},
    }
    let ghost all = pairs_view(merged@);
    let ghost keep = |e: (Seq<char>, Seq<char>)| e.0 != PROJECT_LABEL@;
    let project = String::from_str(PROJECT_LABEL);
    let mut labels: Vec<(String, String)> = Vec::new();
    let mut i: usize = 0;
    while i < merged.len()
        invariant
            i <= merged@.len(),
            all == pairs_view(merged@),
            project@ == PROJECT_LABEL@,
            keep == (|e: (Seq<char>, Seq<char>)| e.0 != PROJECT_LABEL@),
            pairs_view(labels@) == all.subrange(0, i as int).filter(keep),
        decreases merged.len() - i,
    {
        let ghost before = labels@;
        proof {
            let sub = all.subrange(0, i + 1);
            assert(sub.drop_last() =~= all.subrange(0, i as int));
            assert(sub.last() == (merged@[i as int].0@, merged@[i as int].1@));
            reveal(Seq::filter);
        }
        if merged[i].0 != project {
            labels.push((merged[i].0.clone(), merged[i].1.clone()));
            assert(pairs_view(labels@) =~= pairs_view(before).push((merged@[i as int].0@, merged@[i as int].1@)));
        }
        assert(pairs_view(labels@) =~= all.subrange(0, i + 1).filter(keep));
        i = i + 1;
    }
    assert(all.subrange(0, all.len() as int) =~= all);
    let ghost filtered = pairs_view(labels@);
    labels.push((project, name.clone()));
    assert(pairs_view(labels@) =~= filtered.push((PROJECT_LABEL@, name@)));
    proof {
        if resources_labels is None {
            assert(all =~= Seq::empty());
            reveal(Seq::filter);
        }
    }
    labels
}

/// The JSON list of owner references that ties what the deploy job makes to the
/// Gordo called `name` with `uid`.
pub open spec fn owner_references_json(name: Seq<char>, uid: Seq<char>) -> Seq<char> {
    "[{\"apiVersion\":\"v1\",\"blockOwnerDeletion\":true,\"controller\":true,\"kind\":\"Gordo\",\"name\":"@
        + json_quoted(name) + ",\"uid\":"@ + json_quoted(uid) + "}]"@
}

/// The settings handed to the deploy job, before later ones override earlier ones
/// under the same name: the workflow generator's variables, the fixed set, the
/// configured defaults, the argo settings where set, then the Gordo's own.
pub open spec fn deploy_env_entries(
    g: Gordo,
    c: Config,
    name: Seq<char>,
    revision: Seq<char>,
    owner_json: Seq<char>,
    labels_json: Seq<char>,
) -> Seq<(Seq<char>, Seq<char>)> {
    pairs_view(c.workflow_generator_envs@) + fixed_env_entries(g, c, name, revision, owner_json, labels_json)
        + default_env_entries(c) + service_account_entries(c) + version_entries(c) + gordo_env_entries(g)
}

/// The configured default settings.
pub open spec fn default_env_entries(c: Config) -> Seq<(Seq<char>, Seq<char>)> {
    match c.default_deploy_environment {
        Some(d) => pairs_view(d@),
        None => Seq::empty(),
    }
}

/// The argo service account, where set.
pub open spec fn service_account_entries(c: Config) -> Seq<(Seq<char>, Seq<char>)> {
    match c.argo_service_account {
        Some(a) => seq![("ARGO_SERVICE_ACCOUNT"@, a@)],
        None => Seq::empty(),
    }
}

/// The argo version, where set.
pub open spec fn version_entries(c: Config) -> Seq<(Seq<char>, Seq<char>)> {
    match c.argo_version_number {
        Some(v) => seq![("ARGO_VERSION_NUMBER"@, int_text(v as int))],
        None => Seq::empty(),
    }
}

/// The Gordo's own settings.
pub open spec fn gordo_env_entries(g: Gordo) -> Seq<(Seq<char>, Seq<char>)> {
    match g.spec.deploy_environment {
        Some(e) => pairs_view(e@),
        None => Seq::empty(),
    }
}

/// The settings that every deploy job gets.
pub open spec fn fixed_env_entries(
    g: Gordo,
    c: Config,
    name: Seq<char>,
    revision: Seq<char>,
    owner_json: Seq<char>,
    labels_json: Seq<char>,
) -> Seq<(Seq<char>, Seq<char>)> {
    seq![
        ("GORDO_NAME"@, name),
        ("ARGO_SUBMIT"@, "true"@),
        ("WORKFLOW_GENERATOR_PROJECT_NAME"@, name),
        ("WORKFLOW_GENERATOR_OWNER_REFERENCES"@, owner_json),
        ("WORKFLOW_GENERATOR_PROJECT_REVISION"@, revision),
        ("WORKFLOW_GENERATOR_PROJECT_VERSION"@, revision),
        ("WORKFLOW_GENERATOR_DOCKER_REGISTRY"@, c.docker_registry@),
        ("WORKFLOW_GENERATOR_GORDO_VERSION"@, g.spec.deploy_version@),
        ("WORKFLOW_GENERATOR_RESOURCE_LABELS"@, labels_json),
        ("DEBUG_SHOW_WORKFLOW"@, if g.spec.debug_show_workflow == Some(true) { "true"@ } else { ""@ }),
    ]
}

/// An environment variable as a name and a value.
pub open spec fn env_entry(e: EnvVar) -> (Seq<char>, Seq<char>) {
    (e.name@, match e.value {
        Some(v) => v@,
        None => Seq::empty(),
    })
}

/// Whether every variable of `env` has a value.
pub open spec fn all_valued(env: Seq<EnvVar>) -> bool {
    forall|i: int| 0 <= i < env.len() ==> (#[trigger] env[i]).value is Some
}

fn push_all(entries: &mut Vec<(String, String)>, more: &Vec<(String, String)>)
    ensures
        pairs_view(final(entries)@) == pairs_view(old(entries)@) + pairs_view(more@),
{
    let ghost start = pairs_view(entries@);
    let mut i: usize = 0;
    while i < more.len()
        invariant
            i <= more@.len(),
            pairs_view(entries@) == start + pairs_view(more@.subrange(0, i as int)),
        decreases more.len() - i,
    {
        let ghost before = entries@;
        let k = more[i].0.clone();
        let v = more[i].1.clone();
        entries.push((k, v));
        assert(pairs_view(entries@) =~= pairs_view(before).push((more@[i as int].0@, more@[i as int].1@)));
        assert(pairs_view(more@.subrange(0, i + 1)) =~= pairs_view(more@.subrange(0, i as int)).push((more@[i as int].0@, more@[i as int].1@)));
        assert(pairs_view(entries@) =~= start + pairs_view(more@.subrange(0, i + 1)));
        i = i + 1;
    }
    assert(more@.subrange(0, more@.len() as int) =~= more@);
}

fn push_entry(entries: &mut Vec<(String, String)>, k: &str, v: String)
    ensures
        pairs_view(final(entries)@) == pairs_view(old(entries)@).push((k@, v@)),
{
    entries.push((String::from_str(k), v));
    assert(pairs_view(entries@) =~= pairs_view(old(entries)@).push((k@, v@)));
}

/// The environment of the deploy job of the Gordo called `name`.
pub fn deploy_environment(
    gordo: &Gordo,
    config: &Config,
    name: &String,
    revision: &str,
    owner_json: &str,
    labels_json: &str,
) -> (r: Vec<EnvVar>)
    ensures
        r@.map_values(|e: EnvVar| env_entry(e))
            == set_entries(Seq::empty(), deploy_env_entries(*gordo, *config, name@, revision@, owner_json@, labels_json@)),
        all_valued(r@),
{
    let mut entries: Vec<(String, String)> = Vec::new();
    assert(pairs_view(entries@) =~= Seq::empty());
    push_all(&mut entries, &config.workflow_generator_envs);
    let ghost generator = pairs_view(entries@);
    push_entry(&mut entries, "GORDO_NAME", name.clone());
    push_entry(&mut entries, "ARGO_SUBMIT", String::from_str("true"));
    push_entry(&mut entries, "WORKFLOW_GENERATOR_PROJECT_NAME", name.clone());
    push_entry(&mut entries, "WORKFLOW_GENERATOR_OWNER_REFERENCES", String::from_str(owner_json));
    push_entry(&mut entries, "WORKFLOW_GENERATOR_PROJECT_REVISION", String::from_str(revision));
    push_entry(&mut entries, "WORKFLOW_GENERATOR_PROJECT_VERSION", String::from_str(revision));
    push_entry(&mut entries, "WORKFLOW_GENERATOR_DOCKER_REGISTRY", config.docker_registry.clone());
    push_entry(&mut entries, "WORKFLOW_GENERATOR_GORDO_VERSION", gordo.spec.deploy_version.clone());
    push_entry(&mut entries, "WORKFLOW_GENERATOR_RESOURCE_LABELS", String::from_str(labels_json));
    proof {
        reveal_strlit("");
    }
    let show = match gordo.spec.debug_show_workflow {
        Some(true) => String::from_str("true"),
        _ => String::new(),
    };
    assert(show@ == (if gordo.spec.debug_show_workflow == Some(true) { "true"@ } else { ""@ }));
    push_entry(&mut entries, "DEBUG_SHOW_WORKFLOW", show);
    assert(pairs_view(entries@).len() == generator.len() + 10);
    assert(pairs_view(entries@) =~= generator + fixed_env_entries(*gordo, *config, name@, revision@, owner_json@, labels_json@));
    let ghost upto_fixed = pairs_view(entries@);
    match &config.default_deploy_environment {
        Some(d) => push_all(&mut entries, d),
        None => {},
    }
    let ghost upto_defaults = pairs_view(entries@);
    match &config.argo_service_account {
        Some(a) => push_entry(&mut entries, "ARGO_SERVICE_ACCOUNT", a.clone()),
        None => {},
    }
    let ghost upto_account = pairs_view(entries@);
    match config.argo_version_number {
        Some(v) => push_entry(&mut entries, "ARGO_VERSION_NUMBER", i64_text(v as i64)),
        None => {},
    }
    let ghost upto_version = pairs_view(entries@);
    match &gordo.spec.deploy_environment {
        Some(e) => push_all(&mut entries, e),
        None => {},
    }
    proof {
        let defaults = default_env_entries(*config);
        let service_account = service_account_entries(*config);
        let version = version_entries(*config);
        let own = gordo_env_entries(*gordo);
        assert(upto_defaults =~= upto_fixed + defaults);
        assert(upto_account =~= upto_defaults + service_account);
        assert(upto_version =~= upto_account + version);
        assert(pairs_view(entries@) =~= upto_version + own);
    }
    assert(pairs_view(entries@) =~= deploy_env_entries(*gordo, *config, name@, revision@, owner_json@, labels_json@));
    let mut merged: Vec<(String, String)> = Vec::new();
    assert(pairs_view(merged@) =~= Seq::empty());
    set_pairs(&mut merged, &entries);
    let mut env: Vec<EnvVar> = Vec::new();
    let mut i: usize = 0;
    while i < merged.len()
        invariant
            i <= merged@.len(),
            env@.map_values(|e: EnvVar| env_entry(e)) == pairs_view(merged@).subrange(0, i as int),
            all_valued(env@),
        decreases merged.len() - i,
    {
        let ghost before = env@;
        let e = EnvVar { name: merged[i].0.clone(), value: Some(merged[i].1.clone()) };
        assert(env_entry(e) == pairs_view(merged@)[i as int]);
        env.push(e);
        assert(env@ == before.push(e));
        assert(env@.map_values(|e: EnvVar| env_entry(e)) =~= before.map_values(|e: EnvVar| env_entry(e)).push(env_entry(e)));
        assert(env@.map_values(|e: EnvVar| env_entry(e)) =~= pairs_view(merged@).subrange(0, i + 1));
        i = i + 1;
    }
    assert(pairs_view(merged@).subrange(0, merged@.len() as int) =~= pairs_view(merged@));
    env
}

/// Strings as sequences of characters.
pub open spec fn strings_view(v: Seq<String>) -> Seq<Seq<char>> {
    v.map_values(|s: String| s@)
}

/// Volume mounts as names and paths.
pub open spec fn mounts_view(v: Seq<VolumeMount>) -> Seq<(Seq<char>, Seq<char>)> {
    v.map_values(|m: VolumeMount| (m.name@, m.mount_path@))
}

/// Volumes by name.
pub open spec fn volumes_view(v: Seq<Volume>) -> Seq<Seq<char>> {
    v.map_values(|m: Volume| m.name@)
}

/// Whether `cn` is the container of a deploy of `g` under `c`, with environment `env`.
pub open spec fn is_deploy_container(cn: Container, g: Gordo, c: Config, env: Seq<EnvVar>) -> bool {
    &&& cn.name@ == "gordo-deploy"@
    &&& cn.image@ == deploy_image_of(g, c) + ":"@ + g.spec.deploy_version@
    &&& strings_view(cn.command@) == seq!["bash"@, "./run_workflow_and_argo.sh"@]
    &&& cn.image_pull_policy@ == "Always"@
    &&& cn.env@ == env
    &&& pairs_view(cn.resources.limits@) == seq![("memory"@, "1000Mi"@), ("cpu"@, "2000m"@)]
    &&& pairs_view(cn.resources.requests@) == seq![("memory"@, "500Mi"@), ("cpu"@, "250m"@)]
    &&& cn.security_context.run_as_non_root == Some(true)
    &&& cn.security_context.read_only_root_filesystem == (if c.deploy_job_ro_fs { Some(true) } else { None })
    &&& mounts_view(cn.volume_mounts@) == (if c.deploy_job_ro_fs { seq![("tmp"@, "/tmp"@)] } else { Seq::empty() })
}

/// The container that runs the workflow generator, with `environment`.
pub fn deploy_container(gordo: &Gordo, environment: Vec<EnvVar>, config: &Config) -> (r: Container)
    ensures
        is_deploy_container(r, *gordo, *config, environment@),
{
    let mut image = deploy_image(gordo, config);
    image.append(":");
    image.append(gordo.spec.deploy_version.as_str());
    let mut command: Vec<String> = Vec::new();
    command.push(String::from_str("bash"));
    command.push(String::from_str("./run_workflow_and_argo.sh"));
    assert(strings_view(command@) =~= seq!["bash"@, "./run_workflow_and_argo.sh"@]);
    let mut limits: Vec<(String, String)> = Vec::new();
    limits.push((String::from_str("memory"), String::from_str("1000Mi")));
    limits.push((String::from_str("cpu"), String::from_str("2000m")));
    assert(pairs_view(limits@) =~= seq![("memory"@, "1000Mi"@), ("cpu"@, "2000m"@)]);
    let mut requests: Vec<(String, String)> = Vec::new();
    requests.push((String::from_str("memory"), String::from_str("500Mi")));
    requests.push((String::from_str("cpu"), String::from_str("250m")));
    assert(pairs_view(requests@) =~= seq![("memory"@, "500Mi"@), ("cpu"@, "250m"@)]);
    let mut volume_mounts: Vec<VolumeMount> = Vec::new();
    let read_only = if config.deploy_job_ro_fs {
        volume_mounts.push(VolumeMount { name: String::from_str("tmp"), mount_path: String::from_str("/tmp") });
        Some(true)
    } else {
        None
    };
    assert(mounts_view(volume_mounts@) =~= (if config.deploy_job_ro_fs { seq![("tmp"@, "/tmp"@)] } else { Seq::empty() }));
    Container {
        name: String::from_str("gordo-deploy"),
        image,
        command,
        image_pull_policy: String::from_str("Always"),
        env: environment,
        resources: ResourceRequirements { limits, requests },
        security_context: SecurityContext { run_as_non_root: Some(true), read_only_root_filesystem: read_only },
        volume_mounts,
    }
}

/// Whether `p` is the pod of a deploy under `c`, running `containers`.
pub open spec fn is_deploy_pod_spec(p: PodSpec, c: Config, containers: Seq<Container>) -> bool {
    &&& p.containers@ == containers
    &&& p.restart_policy@ == "Never"@
    &&& volumes_view(p.volumes@) == (if c.deploy_job_ro_fs { seq!["tmp"@] } else { Seq::empty() })
    &&& opt_view(p.service_account) == opt_view(c.argo_service_account)
}

/// The pod of the deploy job, running `containers`.
pub fn deploy_pod_spec(containers: Vec<Container>, config: &Config) -> (r: PodSpec)
    ensures
        is_deploy_pod_spec(r, *config, containers@),
{
    let mut volumes: Vec<Volume> = Vec::new();
    if config.deploy_job_ro_fs {
        volumes.push(Volume { name: String::from_str("tmp") });
    }
    assert(volumes_view(volumes@) =~= (if config.deploy_job_ro_fs { seq!["tmp"@] } else { Seq::empty() }));
    let service_account = match &config.argo_service_account {
        Some(a) => Some(a.clone()),
        None => None,
    };
    PodSpec { containers, restart_policy: String::from_str("Never"), volumes, service_account }
}

/// Metadata with only a name and labels.
pub open spec fn is_named_meta(m: ObjectMeta, name: Seq<char>, labels: Seq<(Seq<char>, Seq<char>)>) -> bool {
    &&& opt_view(m.name) == Some(name)
    &&& pairs_view(m.labels@) == labels
    &&& m.namespace is None
    &&& m.uid is None
    &&& m.generation is None
}

/// The metadata of the deploy job's pod.
pub fn deploy_pod_spec_metadata(name: &str, labels: Vec<(String, String)>) -> (r: ObjectMeta)
    ensures
        is_named_meta(r, name@, pairs_view(labels@)),
        r.owner_references@.len() == 0,
{
    ObjectMeta {
        name: Some(String::from_str(name)),
        namespace: None,
        uid: None,
        generation: None,
        labels,
        owner_references: Vec::new(),
    }
}

/// The name of the deploy job of the Gordo called `name` at `generation`.
pub open spec fn job_name_for(name: Seq<char>, generation: Option<i64>) -> Seq<char> {
    job_name_of(JOB_NAME_PREFIX@, name + "-"@ + int_text(match generation {
        Some(v) => v as int,
        None => 0,
    }))
}

/// Whether `j` is the deploy job of `g` under `c`, for `revision`, with the given
/// JSON texts of its owner references and resource labels.
pub open spec fn is_deploy_job_for(j: DeployJob, g: Gordo, c: Config, revision: Seq<char>, owner_json: Seq<char>, labels_json: Seq<char>) -> bool {
    let name = g.metadata.name->0@;
    let job_name = job_name_for(name, g.metadata.generation);
    let labels = deploy_labels_of(name, c.resources_labels);
    let env = set_entries(Seq::empty(), deploy_env_entries(g, c, name, revision, owner_json, labels_json));
    &&& g.metadata.name is Some && g.metadata.uid is Some
    &&& is_named_meta(j.metadata, job_name, labels)
    &&& encode_utf8(job_name).len() <= MAX_NAME_LEN
    &&& job_name.subrange(0, JOB_NAME_PREFIX@.len() as int) == JOB_NAME_PREFIX@
    &&& j.metadata.owner_references@.len() == 1
    &&& j.metadata.owner_references@[0].api_version@ == "v1"@
    &&& j.metadata.owner_references@[0].kind@ == "Gordo"@
    &&& j.metadata.owner_references@[0].name@ == name
    &&& j.metadata.owner_references@[0].uid@ == g.metadata.uid->0@
    &&& j.metadata.owner_references@[0].controller == Some(true)
    &&& j.metadata.owner_references@[0].block_owner_deletion == Some(true)
    &&& j.ttl_seconds_after_finished == TTL_SECONDS_AFTER_FINISHED
    &&& is_named_meta(j.template.metadata, job_name, labels)
    &&& j.template.spec.containers@.len() == 1
    &&& is_deploy_pod_spec(j.template.spec, c, j.template.spec.containers@)
    &&& is_deploy_container(j.template.spec.containers@[0], g, c, j.template.spec.containers@[0].env@)
    &&& j.template.spec.containers@[0].env@.map_values(|e: EnvVar| env_entry(e)) == env
    &&& all_valued(j.template.spec.containers@[0].env@)
}

/// The deploy job of `gordo` for `revision`, given the JSON texts of its owner
/// references and of the resource labels; none where the Gordo lacks a name or uid.
pub fn build_deploy_job(gordo: &Gordo, config: &Config, revision: &str, owner_json: &str, labels_json: &str) -> (r: Option<DeployJob>)
    ensures
        match r {
            Some(j) => is_deploy_job_for(j, *gordo, *config, revision@, owner_json@, labels_json@),
            None => gordo.metadata.name is None || gordo.metadata.uid is None,
        },
{
    let mut owner = match object_to_owner_reference(&gordo.metadata, "v1", "Gordo") {
        Ok(o) => o,
        Err(_) => {
            return None;
        },
    };
    owner.controller = Some(true);
    owner.block_owner_deletion = Some(true);
    let name = match &gordo.metadata.name {
        Some(n) => n,
        None => {
            return None;
        },
    };
    let mut suffix = name.clone();
    suffix.append("-");
    let generation = match gordo.metadata.generation {
        Some(v) => v,
        None => 0,
    };
    let number = i64_text(generation);
    suffix.append(number.as_str());
    proof {
        lemma_prefix_octets();
    }
    let job_name = deploy_job_name(JOB_NAME_PREFIX, suffix.as_str());
    let env = deploy_environment(gordo, config, name, revision, owner_json, labels_json);
    let ghost env_view = env@;
    let container = deploy_container(gordo, env, config);
    let mut containers: Vec<Container> = Vec::new();
    containers.push(container);
    let pod_spec = deploy_pod_spec(containers, config);
    let template_meta = deploy_pod_spec_metadata(job_name.as_str(), deploy_labels(gordo, &config.resources_labels));
    let mut owner_references: Vec<OwnerReference> = Vec::new();
    owner_references.push(owner);
    let metadata = ObjectMeta {
        name: Some(job_name),
        namespace: None,
        uid: None,
        generation: None,
        labels: deploy_labels(gordo, &config.resources_labels),
        owner_references,
    };
    Some(DeployJob {
        metadata,
        ttl_seconds_after_finished: TTL_SECONDS_AFTER_FINISHED,
        template: PodTemplateSpec { metadata: template_meta, spec: pod_spec },
    })
}

/// The JSON text of the resource labels, empty where there are none.
pub open spec fn resource_labels_text(c: Config) -> Seq<char> {
    match c.resources_labels {
        Some(l) => json_object(pairs_view(l@)),
        None => Seq::empty(),
    }
}

/// The deploy job of `gordo` for `revision`; none exactly where the Gordo lacks a
/// name or a uid.
pub fn create_deploy_job(gordo: &Gordo, config: &Config, revision: &str) -> (r: Option<DeployJob>)
    ensures
        r is None <==> (gordo.metadata.name is None || gordo.metadata.uid is None),
        match r {
            Some(j) => is_deploy_job_for(
                j,
                *gordo,
                *config,
                revision@,
                owner_references_json(gordo.metadata.name->0@, gordo.metadata.uid->0@),
                resource_labels_text(*config),
            ),
            None => true,
        },
{
    let (name, uid) = match (&gordo.metadata.name, &gordo.metadata.uid) {
        (Some(n), Some(u)) => (n, u),
        _ => {
            return None;
        },
    };
    let quoted_name = quote_json(name.as_str());
    let quoted_uid = quote_json(uid.as_str());
    let mut owner_json = String::from_str("[{\"apiVersion\":\"v1\",\"blockOwnerDeletion\":true,\"controller\":true,\"kind\":\"Gordo\",\"name\":");
    owner_json.append(quoted_name.as_str());
    owner_json.append(",\"uid\":");
    owner_json.append(quoted_uid.as_str());
    owner_json.append("}]");
    let labels_json = config.get_resources_labels_json().unwrap();
    build_deploy_job(gordo, config, revision, owner_json.as_str(), labels_json.as_str())
}

/// The deploy job of any Gordo has a name that fits the length limit in octets and
/// begins with the whole prefix.
pub proof fn lemma_deploy_job_name_fits(
    j: DeployJob,
    g: Gordo,
    c: Config,
    revision: Seq<char>,
    owner_json: Seq<char>,
    labels_json: Seq<char>,
)
    requires
        is_deploy_job_for(j, g, c, revision, owner_json, labels_json),
    ensures
        encode_utf8(j.metadata.name->0@).len() <= MAX_NAME_LEN,
        j.metadata.name->0@.subrange(0, JOB_NAME_PREFIX@.len() as int) == JOB_NAME_PREFIX@,
{
}

} // verus!

use gordo_controller::config::{Config, GordoEnvironmentConfig};
use gordo_controller::deploy_job::{build_deploy_job, create_deploy_job, deploy_image, deploy_labels, env_var};
use gordo_controller::gordo::{
    deployed_status, should_deploy, ConfigMapGeneratorSpec, Gordo, GordoConfig, GordoStatus, GordoSubmissionStatus,
};
use gordo_controller::jobs::{jobs_to_remove, may_create_job, next_replace_step, ReplaceEvent, ReplaceStep};
use gordo_controller::labels::ObjectMeta;
use gordo_controller::utils::get_revision;
use gordo_controller::deploy_job::deploy_job_name;
use gordo_controller::reconcile::status_after_deploy;

fn gordo(n_models: usize, generation: i64) -> Gordo {
    Gordo {
        metadata: ObjectMeta {
            name: Some("my-gordo".to_string()),
            namespace: Some("default".to_string()),
            uid: Some("uid-42".to_string()),
            generation: Some(generation),
            labels: vec![],
            owner_references: vec![],
        },
        spec: ConfigMapGeneratorSpec {
            deploy_version: "1.2.3".to_string(),
            deploy_environment: None,
            deploy_repository: None,
            docker_registry: None,
            debug_show_workflow: None,
            config: GordoConfig { models: vec![serde_json::Value::Null; n_models], globals: None },
        },
        status: None,
    }
}

fn config() -> Config {
    let mut env = GordoEnvironmentConfig::default();
    env.deploy_image = "ghcr.io/equinor/gordo-base".to_string();
    env.docker_registry = "ghcr.io".to_string();
    Config::from_environment(env, vec![]).unwrap()
}

fn env_value(job: &gordo_controller::deploy_job::DeployJob, name: &str) -> Option<String> {
    job.template.spec.containers[0]
        .env
        .iter()
        .find(|e| e.name == name)
        .and_then(|e| e.value.clone())
}

#[test]
fn new_gordo_is_submitted_once() {
    let mut g = gordo(9, 1);
    assert!(should_deploy(&g));
    let revision = get_revision();
    assert_eq!(revision.len(), 13);
    assert!(revision.chars().all(|c| c.is_ascii_digit()));
    let existing: Vec<ObjectMeta> = vec![];
    assert!(may_create_job(&"my-gordo".to_string(), &existing));
    let job = create_deploy_job(&g, &config(), &revision).expect("job");
    let after = vec![job.metadata];
    assert_eq!(jobs_to_remove(&"my-gordo".to_string(), &after), vec!["gordo-dpl-my-gordo-1".to_string()]);
    let status = deployed_status(&g, revision.clone());
    assert_eq!(status.n_models, 9);
    assert_eq!(status.n_models_built, 0);
    assert_eq!(status.submission_status, GordoSubmissionStatus::Submitted(Some(1)));
    assert_eq!(status.project_revision, revision);
    g.status = Some(status);
    assert!(!should_deploy(&g));
}

#[test]
fn changed_spec_replaces_job() {
    let mut g = gordo(2, 2);
    g.status = Some(GordoStatus {
        n_models: 2,
        submission_status: GordoSubmissionStatus::Submitted(Some(1)),
        n_models_built: 1,
        project_revision: "1600000000000".to_string(),
    });
    assert!(should_deploy(&g));
    let old = create_deploy_job(&gordo(2, 1), &config(), "1600000000000").unwrap();
    let mut unrelated = ObjectMeta {
        name: Some("other".to_string()),
        namespace: None,
        uid: None,
        generation: None,
        labels: vec![("gordoProjectName".to_string(), "another-gordo".to_string())],
        owner_references: vec![],
    };
    let listed = vec![old.metadata, unrelated];
    assert_eq!(jobs_to_remove(&"my-gordo".to_string(), &listed), vec!["gordo-dpl-my-gordo-1".to_string()]);
    assert!(!may_create_job(&"my-gordo".to_string(), &listed));
    unrelated = ObjectMeta {
        name: Some("other".to_string()),
        namespace: None,
        uid: None,
        generation: None,
        labels: vec![("gordoProjectName".to_string(), "another-gordo".to_string())],
        owner_references: vec![],
    };
    assert!(may_create_job(&"my-gordo".to_string(), &vec![unrelated]));
    let new_job = create_deploy_job(&g, &config(), "1700000000000").unwrap();
    assert_eq!(new_job.metadata.name, Some("gordo-dpl-my-gordo-2".to_string()));
    let status = deployed_status(&g, "1700000000000".to_string());
    assert_eq!(status.submission_status, GordoSubmissionStatus::Submitted(Some(2)));
    assert_eq!(status.n_models_built, 1);
    assert_eq!(status.project_revision, "1700000000000".to_string());
}

#[test]
fn deploy_job_manifest() {
    let g = gordo(1, 3);
    let job = create_deploy_job(&g, &config(), "1600000000000").unwrap();
    assert_eq!(job.metadata.name, Some("gordo-dpl-my-gordo-3".to_string()));
    assert_eq!(job.metadata.labels, vec![("gordoProjectName".to_string(), "my-gordo".to_string())]);
    assert_eq!(job.ttl_seconds_after_finished, 604800);
    let owner = &job.metadata.owner_references[0];
    assert_eq!(owner.kind, "Gordo");
    assert_eq!(owner.api_version, "v1");
    assert_eq!(owner.name, "my-gordo");
    assert_eq!(owner.uid, "uid-42");
    assert_eq!(owner.controller, Some(true));
    assert_eq!(owner.block_owner_deletion, Some(true));
    let container = &job.template.spec.containers[0];
    assert_eq!(container.image, "ghcr.io/equinor/gordo-base:1.2.3");
    assert_eq!(container.command, vec!["bash".to_string(), "./run_workflow_and_argo.sh".to_string()]);
    assert_eq!(job.template.spec.restart_policy, "Never");
    assert!(job.template.spec.volumes.is_empty());
    assert_eq!(container.security_context.read_only_root_filesystem, None);
    assert_eq!(
        env_value(&job, "WORKFLOW_GENERATOR_OWNER_REFERENCES"),
        Some("[{\"apiVersion\":\"v1\",\"blockOwnerDeletion\":true,\"controller\":true,\"kind\":\"Gordo\",\"name\":\"my-gordo\",\"uid\":\"uid-42\"}]".to_string())
    );
    assert_eq!(env_value(&job, "WORKFLOW_GENERATOR_PROJECT_REVISION"), Some("1600000000000".to_string()));
    assert_eq!(env_value(&job, "WORKFLOW_GENERATOR_PROJECT_VERSION"), Some("1600000000000".to_string()));
    assert_eq!(env_value(&job, "WORKFLOW_GENERATOR_RESOURCE_LABELS"), Some("".to_string()));
    assert_eq!(env_value(&job, "DEBUG_SHOW_WORKFLOW"), Some("".to_string()));
    assert_eq!(env_value(&job, "ARGO_SUBMIT"), Some("true".to_string()));
    assert_eq!(env_value(&job, "GORDO_NAME"), Some("my-gordo".to_string()));
    assert_eq!(env_value(&job, "ARGO_VERSION_NUMBER"), None);
}

#[test]
fn environment_order_and_overrides() {
    let mut g = gordo(1, 1);
    g.spec.deploy_environment = Some(vec![("EXTRA".to_string(), "gordo".to_string()), ("ARGO_SUBMIT".to_string(), "false".to_string())]);
    g.spec.debug_show_workflow = Some(true);
    let mut env = GordoEnvironmentConfig::default();
    env.default_deploy_environment = "{\"EXTRA\":\"default\",\"OTHER\":\"x\"}".to_string();
    env.resources_labels = "{\"team\":\"a\\\"b\"}".to_string();
    env.argo_service_account = Some("argo".to_string());
    env.argo_version_number = Some("3".to_string());
    env.deploy_job_ro_fs = true;
    let generator = vec![("WORKFLOW_GENERATOR_FOO".to_string(), "1".to_string()), ("WORKFLOW_GENERATOR_PROJECT_NAME".to_string(), "stale".to_string())];
    let c = Config::from_environment(env, generator).unwrap();
    let job = create_deploy_job(&g, &c, "5").unwrap();
    let names: Vec<String> = job.template.spec.containers[0].env.iter().map(|e| e.name.clone()).collect();
    assert_eq!(names[0], "WORKFLOW_GENERATOR_FOO");
    assert_eq!(names[1], "WORKFLOW_GENERATOR_PROJECT_NAME");
    assert_eq!(names[2], "GORDO_NAME");
    assert_eq!(env_value(&job, "WORKFLOW_GENERATOR_PROJECT_NAME"), Some("my-gordo".to_string()));
    assert_eq!(env_value(&job, "EXTRA"), Some("gordo".to_string()));
    assert_eq!(env_value(&job, "OTHER"), Some("x".to_string()));
    assert_eq!(env_value(&job, "ARGO_SUBMIT"), Some("false".to_string()));
    assert_eq!(env_value(&job, "ARGO_SERVICE_ACCOUNT"), Some("argo".to_string()));
    assert_eq!(env_value(&job, "ARGO_VERSION_NUMBER"), Some("3".to_string()));
    assert_eq!(env_value(&job, "DEBUG_SHOW_WORKFLOW"), Some("true".to_string()));
    assert_eq!(env_value(&job, "WORKFLOW_GENERATOR_RESOURCE_LABELS"), Some("{\"team\":\"a\\\"b\"}".to_string()));
    assert_eq!(
        job.metadata.labels,
        vec![("team".to_string(), "a\"b".to_string()), ("gordoProjectName".to_string(), "my-gordo".to_string())]
    );
    assert_eq!(job.template.metadata.labels, job.metadata.labels);
    assert_eq!(job.template.spec.volumes[0].name, "tmp");
    let container = &job.template.spec.containers[0];
    assert_eq!(container.volume_mounts[0].mount_path, "/tmp");
    assert_eq!(container.security_context.read_only_root_filesystem, Some(true));
    assert_eq!(container.security_context.run_as_non_root, Some(true));
    assert_eq!(job.template.spec.service_account, Some("argo".to_string()));
    let unique: std::collections::BTreeSet<&String> = names.iter().collect();
    assert_eq!(unique.len(), names.len());
}

#[test]
fn image_follows_overrides() {
    let mut g = gordo(1, 1);
    let mut c = config();
    assert_eq!(deploy_image(&g, &c), "ghcr.io/equinor/gordo-base");
    c.deploy_repository = "equinor/gordo-deploy".to_string();
    assert_eq!(deploy_image(&g, &c), "ghcr.io/equinor/gordo-deploy");
    g.spec.docker_registry = Some("docker.io".to_string());
    assert_eq!(deploy_image(&g, &c), "docker.io/equinor/gordo-deploy");
    g.spec.deploy_repository = Some("me/deploy".to_string());
    assert_eq!(deploy_image(&g, &c), "docker.io/me/deploy");
}

#[test]
fn missing_name_or_uid_gives_no_job() {
    let mut g = gordo(1, 1);
    g.metadata.uid = None;
    assert!(create_deploy_job(&g, &config(), "1").is_none());
    assert!(build_deploy_job(&g, &config(), "1", "[]", "").is_none());
    g.metadata.uid = Some("u".to_string());
    g.metadata.name = None;
    assert!(create_deploy_job(&g, &config(), "1").is_none());
    assert!(deploy_labels(&g, &None).is_empty());
}

#[test]
fn long_gordo_name_fits() {
    let mut g = gordo(1, 12);
    g.metadata.name = Some("x".repeat(80));
    let job = create_deploy_job(&g, &config(), "1").unwrap();
    let name = job.metadata.name.unwrap();
    assert_eq!(name.len(), 63);
    assert!(name.starts_with("gordo-dpl-"));
    assert!(name.ends_with("x-12"));
    assert_eq!(job.template.metadata.name, Some(name));
}

#[test]
fn env_var_has_value() {
    let e = env_var("A", "b");
    assert_eq!(e.name, "A");
    assert_eq!(e.value, Some("b".to_string()));
}

#[test]
fn replacement_creates_only_after_old_jobs_are_gone() {
    let name = "my-gordo".to_string();
    assert!(matches!(next_replace_step(&name, &ReplaceEvent::Start), ReplaceStep::List));
    let old = create_deploy_job(&gordo(1, 1), &config(), "1").unwrap();
    let listed = ReplaceEvent::Listed(vec![old.metadata]);
    match next_replace_step(&name, &listed) {
        ReplaceStep::Delete(names) => assert_eq!(names, vec!["gordo-dpl-my-gordo-1".to_string()]),
        other => panic!("unexpected step {:?}", other),
    }
    let still = create_deploy_job(&gordo(1, 1), &config(), "1").unwrap();
    assert!(matches!(next_replace_step(&name, &ReplaceEvent::Remaining(vec![still.metadata])), ReplaceStep::Wait));
    assert!(matches!(next_replace_step(&name, &ReplaceEvent::Remaining(vec![])), ReplaceStep::Create));
    assert!(matches!(next_replace_step(&name, &ReplaceEvent::Created), ReplaceStep::Done));
}

#[test]
fn job_name_counts_octets() {
    let name = deploy_job_name("\u{e9}", &"a".repeat(100));
    assert_eq!(name.len(), 63);
    assert_eq!(name, format!("\u{e9}{}", "a".repeat(61)));
    let wide = deploy_job_name("gordo-dpl-", &"\u{e9}".repeat(40));
    assert!(wide.len() <= 63);
    assert_eq!(wide, format!("gordo-dpl-{}", "\u{e9}".repeat(26)));
    assert_eq!(deploy_job_name("p-", "short"), "p-short");
}

#[test]
fn project_label_is_not_replaced() {
    let g = gordo(1, 1);
    let mut c = config();
    c.resources_labels = Some(vec![("gordoProjectName".to_string(), "other".to_string()), ("a".to_string(), "1".to_string())]);
    let labels = deploy_labels(&g, &c.resources_labels);
    assert_eq!(labels, vec![("a".to_string(), "1".to_string()), ("gordoProjectName".to_string(), "my-gordo".to_string())]);
    let job = create_deploy_job(&g, &c, "1").unwrap();
    assert_eq!(jobs_to_remove(&"my-gordo".to_string(), &vec![job.metadata]), vec!["gordo-dpl-my-gordo-1".to_string()]);
}

#[test]
fn status_is_written_only_after_creation() {
    let g = gordo(4, 3);
    assert!(status_after_deploy(&g, None).is_none());
    let status = status_after_deploy(&g, Some("77".to_string())).unwrap();
    assert_eq!(status.submission_status, GordoSubmissionStatus::Submitted(Some(3)));
    assert_eq!(status.n_models, 4);
    assert_eq!(status.project_revision, "77");
}

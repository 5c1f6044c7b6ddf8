use gordo_controller::argo::{
    all_of_workflows_in_phases, find_model_workflows, some_of_workflows_in_phases, ArgoWorkflowPhase, ArgoWorkflowSpec,
    ArgoWorkflowStatus, Workflow,
};
use gordo_controller::gordo::{
    filter_models_on_gordo, get_model_project, gordo_built_update, ConfigMapGeneratorSpec, Gordo, GordoConfig,
    GordoStatus, GordoSubmissionStatus,
};
use gordo_controller::labels::{ObjectMeta, OwnerReference};
use gordo_controller::model::{
    failure_message, model_update, model_updates, with_failure_details, Model, ModelPhase, ModelPodTerminatedStatus, ModelSpec,
    ModelStatus, ModelUpdate,
};
use gordo_controller::pod::{
    failed_pods_terminated_statuses, last_container_terminated_status, ContainerStateTerminated, ContainerStatus,
    Pod, PodStatus,
};

const NAME: &str = "applications.gordo.equinor.com/project-name";
const REVISION: &str = "applications.gordo.equinor.com/project-revision";
const VERSION: &str = "applications.gordo.equinor.com/project-version";
const MODEL: &str = "applications.gordo.equinor.com/model-name";
const WORKFLOW: &str = "applications.gordo.equinor.com/project-workflow";

fn meta(name: &str, labels: &[(&str, &str)]) -> ObjectMeta {
    ObjectMeta {
        name: Some(name.to_string()),
        namespace: Some("default".to_string()),
        uid: None,
        generation: None,
        labels: labels.iter().map(|(k, v)| (k.to_string(), v.to_string())).collect(),
        owner_references: vec![],
    }
}

fn gordo_owner(name: &str) -> OwnerReference {
    OwnerReference {
        api_version: "equinor.com/v1".to_string(),
        kind: "Gordo".to_string(),
        name: name.to_string(),
        uid: "uid-1".to_string(),
        controller: None,
        block_owner_deletion: None,
    }
}

fn status(phase: ModelPhase, revision: Option<&str>) -> ModelStatus {
    ModelStatus {
        phase,
        code: None,
        error_type: None,
        message: None,
        traceback: None,
        revision: revision.map(|r| r.to_string()),
    }
}

fn model(labels: &[(&str, &str)], status: Option<ModelStatus>) -> Model {
    let mut metadata = meta("model-a", labels);
    metadata.owner_references.push(gordo_owner("project"));
    Model {
        metadata,
        spec: ModelSpec { gordo_version: "1.0.0".to_string(), config: serde_json::Value::Null },
        status,
    }
}

fn workflow(labels: &[(&str, &str)], phase: Option<ArgoWorkflowPhase>) -> Workflow {
    Workflow { metadata: meta("wf", labels), spec: ArgoWorkflowSpec {}, status: Some(ArgoWorkflowStatus { phase }) }
}

fn pod(labels: &[(&str, &str)], phase: &str, containers: Vec<ContainerStatus>) -> Pod {
    Pod {
        metadata: meta("pod", labels),
        status: Some(PodStatus { phase: Some(phase.to_string()), container_statuses: containers }),
    }
}

fn main_terminated(exit_code: i32, message: Option<&str>, finished_at: Option<i64>) -> ContainerStatus {
    ContainerStatus {
        name: "main".to_string(),
        terminated: Some(ContainerStateTerminated {
            exit_code,
            message: message.map(|m| m.to_string()),
            finished_at,
        }),
    }
}

fn gordo(revision: Option<&str>, n_models_built: usize) -> Gordo {
    Gordo {
        metadata: ObjectMeta {
            name: Some("project".to_string()),
            namespace: Some("default".to_string()),
            uid: Some("uid-1".to_string()),
            generation: Some(1),
            labels: vec![],
            owner_references: vec![],
        },
        spec: ConfigMapGeneratorSpec {
            deploy_version: "1.0.0".to_string(),
            deploy_environment: None,
            deploy_repository: None,
            docker_registry: None,
            debug_show_workflow: None,
            config: GordoConfig { models: vec![serde_json::Value::Null; 3], globals: None },
        },
        status: revision.map(|r| GordoStatus {
            n_models: 3,
            submission_status: GordoSubmissionStatus::Submitted(Some(1)),
            n_models_built,
            project_revision: r.to_string(),
        }),
    }
}

const LABELS: &[(&str, &str)] = &[(NAME, "project"), (REVISION, "111"), (MODEL, "model-a")];

#[test]
fn failed_workflow_fails_model_with_last_pod_exit_code() {
    let m = model(LABELS, Some(status(ModelPhase::InProgress, Some("111"))));
    let workflows = vec![workflow(&[(NAME, "project"), (REVISION, "111")], Some(ArgoWorkflowPhase::Failed))];
    let pods = vec![
        pod(
            LABELS,
            "Failed",
            vec![main_terminated(1, Some("{\"type\":\"BadData\",\"message\":\"bad\",\"traceback\":\"...\"}"), Some(10))],
        ),
        pod(LABELS, "Failed", vec![main_terminated(2, Some("not-json"), Some(20))]),
    ];
    match model_update(&m, &workflows, &pods) {
        ModelUpdate::Fail { status, message } => {
            assert_eq!(status.phase, ModelPhase::Failed);
            assert_eq!(status.code, Some(2));
            assert_eq!(message, Some("not-json".to_string()));
            let done = with_failure_details(status, None);
            assert_eq!(done.phase, ModelPhase::Failed);
            assert_eq!(done.code, Some(2));
            assert_eq!(done.error_type, None);
            assert_eq!(done.message, None);
            assert_eq!(done.traceback, None);
        },
        other => panic!("unexpected update {:?}", other),
    }
}

#[test]
fn failure_details_are_written() {
    let s = status(ModelPhase::Failed, Some("111"));
    let details = ModelPodTerminatedStatus {
        error_type: Some("BadData".to_string()),
        message: Some("bad".to_string()),
        traceback: Some("...".to_string()),
    };
    let done = with_failure_details(s, Some(details));
    assert_eq!(done.error_type, Some("BadData".to_string()));
    assert_eq!(done.message, Some("bad".to_string()));
    assert_eq!(done.traceback, Some("...".to_string()));
    assert_eq!(done.revision, Some("111".to_string()));
}

#[test]
fn stale_revision_resets_status() {
    let mut s = status(ModelPhase::Succeeded, Some("Y"));
    s.code = Some(3);
    let m = model(&[(NAME, "project"), (REVISION, "X")], Some(s));
    match model_update(&m, &vec![], &vec![]) {
        ModelUpdate::Reset(s) => {
            assert_eq!(s.phase, ModelPhase::Unknown);
            assert_eq!(s.code, None);
            assert_eq!(s.error_type, None);
            assert_eq!(s.message, None);
            assert_eq!(s.traceback, None);
            assert_eq!(s.revision, Some("X".to_string()));
        },
        other => panic!("unexpected update {:?}", other),
    }
}

#[test]
fn succeeded_workflows_succeed_model() {
    let m = model(LABELS, Some(status(ModelPhase::Unknown, Some("111"))));
    let wf = &[(NAME, "project"), (REVISION, "111")];
    let workflows = vec![
        workflow(wf, Some(ArgoWorkflowPhase::Succeeded)),
        workflow(wf, Some(ArgoWorkflowPhase::Succeeded)),
        workflow(&[(NAME, "other"), (REVISION, "111")], Some(ArgoWorkflowPhase::Failed)),
    ];
    match model_update(&m, &workflows, &vec![]) {
        ModelUpdate::Patch(s) => {
            assert_eq!(s.phase, ModelPhase::Succeeded);
            assert_eq!(s.revision, Some("111".to_string()));
        },
        other => panic!("unexpected update {:?}", other),
    }
}

#[test]
fn failure_takes_precedence_over_success() {
    let m = model(LABELS, Some(status(ModelPhase::InProgress, None)));
    let wf = &[(NAME, "project"), (REVISION, "111")];
    let workflows = vec![workflow(wf, Some(ArgoWorkflowPhase::Succeeded)), workflow(wf, Some(ArgoWorkflowPhase::Skipped))];
    match model_update(&m, &workflows, &vec![]) {
        ModelUpdate::Fail { status, message } => {
            assert_eq!(status.phase, ModelPhase::Failed);
            assert_eq!(status.code, None);
            assert_eq!(message, None);
        },
        other => panic!("unexpected update {:?}", other),
    }
}

#[test]
fn no_workflows_or_omitted_ones_leave_phase() {
    let m = model(LABELS, Some(status(ModelPhase::InProgress, Some("111"))));
    assert!(matches!(model_update(&m, &vec![], &vec![]), ModelUpdate::Unchanged));
    let wf = &[(NAME, "project"), (REVISION, "111")];
    let workflows = vec![workflow(wf, Some(ArgoWorkflowPhase::Omitted))];
    assert!(matches!(model_update(&m, &workflows, &vec![]), ModelUpdate::Unchanged));
    let running = vec![workflow(wf, Some(ArgoWorkflowPhase::Running)), workflow(wf, Some(ArgoWorkflowPhase::Succeeded))];
    assert!(matches!(model_update(&m, &running, &vec![]), ModelUpdate::Unchanged));
}

#[test]
fn terminal_phases_are_kept() {
    let wf = &[(NAME, "project"), (REVISION, "111")];
    let workflows = vec![workflow(wf, Some(ArgoWorkflowPhase::Failed))];
    let m = model(LABELS, Some(status(ModelPhase::Succeeded, Some("111"))));
    assert!(matches!(model_update(&m, &workflows, &vec![]), ModelUpdate::Unchanged));
    let m = model(LABELS, Some(status(ModelPhase::Failed, Some("111"))));
    assert!(matches!(model_update(&m, &workflows, &vec![]), ModelUpdate::Unchanged));
}

#[test]
fn missing_status_is_initialised() {
    let m = model(LABELS, None);
    match model_update(&m, &vec![], &vec![]) {
        ModelUpdate::Reset(s) => {
            assert_eq!(s.phase, ModelPhase::Unknown);
            assert_eq!(s.revision, Some("111".to_string()));
        },
        other => panic!("unexpected update {:?}", other),
    }
}

#[test]
fn workflow_number_must_agree() {
    let m = model(&[(NAME, "project"), (REVISION, "111"), (WORKFLOW, "1")], Some(status(ModelPhase::Unknown, None)));
    let other_number = vec![workflow(&[(NAME, "project"), (REVISION, "111"), (WORKFLOW, "2")], Some(ArgoWorkflowPhase::Succeeded))];
    assert!(matches!(model_update(&m, &other_number, &vec![]), ModelUpdate::Unchanged));
    let no_number = vec![workflow(&[(NAME, "project"), (REVISION, "111")], Some(ArgoWorkflowPhase::Succeeded))];
    assert!(matches!(model_update(&m, &no_number, &vec![]), ModelUpdate::Unchanged));
    let same_number = vec![workflow(&[(NAME, "project"), (REVISION, "111"), (WORKFLOW, "1")], Some(ArgoWorkflowPhase::Succeeded))];
    assert!(matches!(model_update(&m, &same_number, &vec![]), ModelUpdate::Patch(_)));
}

#[test]
fn pods_that_did_not_fail_or_do_not_match_are_ignored() {
    let pods = vec![
        pod(LABELS, "Running", vec![main_terminated(1, None, Some(5))]),
        pod(&[(NAME, "project"), (REVISION, "111"), (MODEL, "model-b")], "Failed", vec![main_terminated(2, None, Some(5))]),
        pod(
            LABELS,
            "Failed",
            vec![
                ContainerStatus {
                    name: "wait".to_string(),
                    terminated: Some(ContainerStateTerminated { exit_code: 3, message: None, finished_at: Some(50) }),
                },
                main_terminated(4, None, Some(6)),
            ],
        ),
    ];
    let m = model(LABELS, None);
    let found = failed_pods_terminated_statuses(&m, &pods);
    assert_eq!(found.len(), 1);
    assert_eq!(found[0].exit_code, 4);
}

#[test]
fn last_terminated_prefers_latest_then_last() {
    let a = ContainerStateTerminated { exit_code: 1, message: None, finished_at: Some(20) };
    let b = ContainerStateTerminated { exit_code: 2, message: None, finished_at: None };
    let c = ContainerStateTerminated { exit_code: 3, message: None, finished_at: Some(20) };
    let d = ContainerStateTerminated { exit_code: 4, message: None, finished_at: Some(10) };
    assert_eq!(last_container_terminated_status(vec![&a, &b, &c, &d]).unwrap().exit_code, 3);
    assert_eq!(last_container_terminated_status(vec![&b, &d]).unwrap().exit_code, 4);
    assert_eq!(last_container_terminated_status(vec![&b, &b]).unwrap().exit_code, 2);
    assert!(last_container_terminated_status(vec![]).is_none());
}

#[test]
fn failure_message_is_trimmed() {
    let t = ContainerStateTerminated { exit_code: 1, message: Some("{\"type\":\"X\"}  \n".to_string()), finished_at: None };
    assert_eq!(failure_message(&t), Some("{\"type\":\"X\"}".to_string()));
    let blank = ContainerStateTerminated { exit_code: 1, message: Some(" \n\t".to_string()), finished_at: None };
    assert_eq!(failure_message(&blank), None);
}

#[test]
fn built_count_follows_succeeded_models() {
    let g = gordo(Some("111"), 0);
    let succeeded = vec![model(LABELS, Some(status(ModelPhase::Succeeded, Some("111"))))];
    let update = gordo_built_update(&g, &succeeded).expect("count changed");
    assert_eq!(update.n_models_built, 1);
    assert_eq!(update.n_models, 3);
    assert_eq!(update.project_revision, "111".to_string());
    assert_eq!(update.submission_status, GordoSubmissionStatus::Submitted(Some(1)));

    let in_progress = vec![model(LABELS, Some(status(ModelPhase::InProgress, Some("111"))))];
    assert!(gordo_built_update(&g, &in_progress).is_none());

    let settled = gordo(Some("111"), 1);
    assert!(gordo_built_update(&settled, &succeeded).is_none());
}

#[test]
fn models_of_gordo_match_owner_and_revision() {
    let g = gordo(Some("111"), 0);
    let mut other_owner = model(LABELS, None);
    other_owner.metadata.owner_references = vec![gordo_owner("another")];
    let mut not_a_gordo = model(LABELS, None);
    not_a_gordo.metadata.owner_references[0].kind = "Workflow".to_string();
    let models = vec![
        model(LABELS, None),
        model(&[(NAME, "project"), (VERSION, "111")], None),
        model(&[(NAME, "project"), (REVISION, "222"), (VERSION, "111")], None),
        other_owner,
        not_a_gordo,
    ];
    let found = filter_models_on_gordo(&g, &models);
    assert_eq!(found.len(), 2);
    assert!(filter_models_on_gordo(&gordo(None, 0), &models).is_empty());
}

#[test]
fn model_project_is_first_gordo_owner() {
    let mut m = model(LABELS, None);
    assert_eq!(get_model_project(&m), Some("project".to_string()));
    m.metadata.owner_references[0].kind = "Workflow".to_string();
    assert_eq!(get_model_project(&m), None);
}

#[test]
fn running_pod_moves_unknown_model_in_progress() {
    let m = model(LABELS, Some(status(ModelPhase::Unknown, Some("111"))));
    let pods = vec![pod(LABELS, "Pending", vec![])];
    match model_update(&m, &vec![], &pods) {
        ModelUpdate::Patch(s) => assert_eq!(s.phase, ModelPhase::InProgress),
        other => panic!("unexpected update {:?}", other),
    }
    let other_model = vec![pod(&[(NAME, "project"), (REVISION, "111"), (MODEL, "model-b")], "Running", vec![])];
    assert!(matches!(model_update(&m, &vec![], &other_model), ModelUpdate::Unchanged));
    let in_progress = model(LABELS, Some(status(ModelPhase::InProgress, Some("111"))));
    assert!(matches!(model_update(&in_progress, &vec![], &pods), ModelUpdate::Unchanged));
}

#[test]
fn second_pass_changes_nothing() {
    let wf = &[(NAME, "project"), (REVISION, "111")];
    let workflows = vec![workflow(wf, Some(ArgoWorkflowPhase::Succeeded))];
    let mut m = model(LABELS, None);
    let first = match model_update(&m, &workflows, &vec![]) {
        ModelUpdate::Patch(s) => s,
        other => panic!("unexpected update {:?}", other),
    };
    assert_eq!(first.phase, ModelPhase::Succeeded);
    m.status = Some(first);
    assert!(matches!(model_update(&m, &workflows, &vec![]), ModelUpdate::Unchanged));

    let g = gordo(Some("111"), 0);
    let update = gordo_built_update(&g, &vec![m]).expect("count changed");
    let mut g2 = gordo(Some("111"), 0);
    g2.status = Some(update);
    let again = vec![model(LABELS, Some(status(ModelPhase::Succeeded, Some("111"))))];
    assert!(gordo_built_update(&g2, &again).is_none());
}

#[test]
fn workflow_phase_queries() {
    let m = model(LABELS, None);
    let wf = &[(NAME, "project"), (REVISION, "111")];
    let workflows = vec![
        workflow(wf, Some(ArgoWorkflowPhase::Succeeded)),
        workflow(&[(NAME, "project"), (REVISION, "222")], Some(ArgoWorkflowPhase::Error)),
        workflow(wf, None),
    ];
    let found = find_model_workflows(&m, &workflows);
    assert_eq!(found.len(), 2);
    assert!(!some_of_workflows_in_phases(&found, vec![ArgoWorkflowPhase::Error]));
    assert!(some_of_workflows_in_phases(&found, vec![ArgoWorkflowPhase::Succeeded]));
    assert!(!all_of_workflows_in_phases(&found, vec![ArgoWorkflowPhase::Succeeded]));
    assert!(all_of_workflows_in_phases(&vec![], vec![ArgoWorkflowPhase::Succeeded]));
    assert_eq!(ArgoWorkflowPhase::default(), ArgoWorkflowPhase::Pending);
    assert_eq!(ModelPhase::default(), ModelPhase::Unknown);
    assert_eq!(GordoSubmissionStatus::default(), GordoSubmissionStatus::Submitted(None));
}

#[test]
fn updates_for_each_model() {
    let wf = &[(NAME, "project"), (REVISION, "111")];
    let workflows = vec![workflow(wf, Some(ArgoWorkflowPhase::Succeeded))];
    let models = vec![
        model(LABELS, Some(status(ModelPhase::InProgress, Some("111")))),
        model(LABELS, Some(status(ModelPhase::Failed, Some("111")))),
        model(&[(NAME, "project"), (REVISION, "222")], Some(status(ModelPhase::Succeeded, Some("111")))),
    ];
    let updates = model_updates(&models, &workflows, &vec![]);
    assert_eq!(updates.len(), 3);
    assert!(matches!(&updates[0], ModelUpdate::Patch(s) if s.phase == ModelPhase::Succeeded));
    assert!(matches!(&updates[1], ModelUpdate::Unchanged));
    assert!(matches!(&updates[2], ModelUpdate::Reset(s) if s.revision == Some("222".to_string())));
}

#[test]
fn unlabelled_workflow_does_not_match() {
    let m = model(&[(MODEL, "model-a")], Some(status(ModelPhase::Unknown, None)));
    let workflows = vec![workflow(&[], Some(ArgoWorkflowPhase::Succeeded))];
    assert!(find_model_workflows(&m, &workflows).is_empty());
    assert!(matches!(model_update(&m, &workflows, &vec![]), ModelUpdate::Unchanged));
}

#[test]
fn missing_revision_label_keeps_status() {
    let m = model(&[(NAME, "project")], Some(status(ModelPhase::Succeeded, Some("Y"))));
    assert!(matches!(model_update(&m, &vec![], &vec![]), ModelUpdate::Unchanged));
}

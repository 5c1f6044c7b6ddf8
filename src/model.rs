//! Models: their status, and how it follows from workflows and pods.

use vstd::prelude::*;
use crate::argo::{
    all_of_workflows_in_phases, find_model_workflows, in_phases, matching_workflows,
    some_of_workflows_in_phases, ArgoWorkflowPhase, Workflow,
};
use crate::labels::{copy_opt_string, label_of, label_value, opt_view, ObjectMeta, PROJECT_REVISION_LABEL};
use crate::pod::{any_active_pod, some_active_pod, failed_pods_terminated_statuses, failed_terminations, last_container_terminated_status, last_finished, ContainerStateTerminated, Pod};
use crate::text::{trim_end_of, trim_end_str};

verus! {

/// Phase of a Model.
#[derive(Clone, Copy, Debug, PartialEq, Eq, Structural)]
pub enum ModelPhase {
    Unknown,
    InProgress,
    Failed,
    Succeeded,
}

impl Default for ModelPhase {
    fn default() -> (r: ModelPhase)
        ensures
            r == ModelPhase::Unknown,
    {
        ModelPhase::Unknown
    }
}

/// The status of a Model.
#[derive(Clone, Debug)]
pub struct ModelStatus {
    pub phase: ModelPhase,
    pub code: Option<i32>,
    pub error_type: Option<String>,
    pub message: Option<String>,
    pub traceback: Option<String>,
    /// The project revision in effect when the status was first written.
    pub revision: Option<String>,
}

/// What a Model's status says, with strings as sequences of characters.
pub struct ModelStatusView {
    pub phase: ModelPhase,
    pub code: Option<i32>,
    pub error_type: Option<Seq<char>>,
    pub message: Option<Seq<char>>,
    pub traceback: Option<Seq<char>>,
    pub revision: Option<Seq<char>>,
}

impl View for ModelStatus {
    type V = ModelStatusView;

    open spec fn view(&self) -> ModelStatusView {
        ModelStatusView {
            phase: self.phase,
            code: self.code,
            error_type: opt_view(self.error_type),
            message: opt_view(self.message),
            traceback: opt_view(self.traceback),
            revision: opt_view(self.revision),
        }
    }
}

/// The default status, under a given revision.
pub open spec fn default_status_view(revision: Option<Seq<char>>) -> ModelStatusView {
    ModelStatusView {
        phase: ModelPhase::Unknown,
        code: None,
        error_type: None,
        message: None,
        traceback: None,
        revision,
    }
}

impl Default for ModelStatus {
    fn default() -> (r: ModelStatus)
        ensures
            r@ == default_status_view(None),
    {
        ModelStatus {
            phase: ModelPhase::Unknown,
            code: None,
            error_type: None,
            message: None,
            traceback: None,
            revision: None,
        }
    }
}

/// The cause of a failure, as the model builder writes it in its termination message.
#[derive(Debug)]
pub struct ModelPodTerminatedStatus {
    pub error_type: Option<String>,
    pub message: Option<String>,
    pub traceback: Option<String>,
}

/// The spec of a Model.
#[derive(Debug)]
pub struct ModelSpec {
    pub gordo_version: String,
    pub config: serde_json::Value,
}

/// A Model.
#[derive(Debug)]
pub struct Model {
    pub metadata: ObjectMeta,
    pub spec: ModelSpec,
    pub status: Option<ModelStatus>,
}

/// Whether the status of a Model was written under another revision than the one
/// its label carries.
pub open spec fn stale_revision(m: Model) -> bool {
    match m.status {
        Some(s) => {
            &&& s.revision is Some
            &&& label_of(m.metadata.labels@, PROJECT_REVISION_LABEL@) is Some
            &&& opt_view(s.revision) != label_of(m.metadata.labels@, PROJECT_REVISION_LABEL@)
        },
        None => false,
    }
}

/// The default status of a Model, under the revision its label gives.
pub open spec fn reset_status(m: Model) -> ModelStatusView {
    default_status_view(label_of(m.metadata.labels@, PROJECT_REVISION_LABEL@))
}

/// The phases in which a workflow fails its Model.
pub open spec fn failing_phases() -> Seq<ArgoWorkflowPhase> {
    seq![ArgoWorkflowPhase::Error, ArgoWorkflowPhase::Failed, ArgoWorkflowPhase::Skipped]
}

/// The phase the workflows of a Model call for: `Failed` if one of them has failed,
/// else `Succeeded` if there is one and all have succeeded, else none.
pub open spec fn workflow_verdict(labels: Seq<(String, String)>, workflows: Seq<Workflow>) -> Option<ModelPhase> {
    let ws = matching_workflows(labels, workflows);
    if exists|i: int| 0 <= i < ws.len() && in_phases(#[trigger] ws[i], failing_phases()) {
        Some(ModelPhase::Failed)
    } else if ws.len() > 0 && forall|i: int| 0 <= i < ws.len() ==> in_phases(#[trigger] ws[i], seq![ArgoWorkflowPhase::Succeeded]) {
        Some(ModelPhase::Succeeded)
    } else {
        None
    }
}

/// The phase the workflows of `model` call for.
pub fn model_workflow_verdict(model: &Model, workflows: &Vec<Workflow>) -> (r: Option<ModelPhase>)
    ensures
        r == workflow_verdict(model.metadata.labels@, workflows@),
{
    let found = find_model_workflows(model, workflows);
    let ghost ws = matching_workflows(model.metadata.labels@, workflows@);
    assert(found@.len() == ws.len());
    assert(forall|i: int| 0 <= i < ws.len() ==> #[trigger] ws[i] == *found@[i]);
    let failing = vec![ArgoWorkflowPhase::Error, ArgoWorkflowPhase::Failed, ArgoWorkflowPhase::Skipped];
    assert(failing@ =~= failing_phases());
    if some_of_workflows_in_phases(&found, failing) {
        proof {
            let i = choose|i: int| 0 <= i < found@.len() && in_phases(*#[trigger] found@[i], failing_phases());
            assert(in_phases(ws[i], failing_phases()));
        }
        return Some(ModelPhase::Failed);
    }
    assert(!(exists|i: int| 0 <= i < ws.len() && in_phases(#[trigger] ws[i], failing_phases()))) by {
        assert forall|i: int| 0 <= i < ws.len() implies !in_phases(#[trigger] ws[i], failing_phases()) by {
            assert(!in_phases(*found@[i], failing_phases()));
        }
    }
    let succeeded = vec![ArgoWorkflowPhase::Succeeded];
    assert(succeeded@ =~= seq![ArgoWorkflowPhase::Succeeded]);
    if found.len() > 0 && all_of_workflows_in_phases(&found, succeeded) {
        assert forall|i: int| 0 <= i < ws.len() implies in_phases(#[trigger] ws[i], seq![ArgoWorkflowPhase::Succeeded]) by {
            assert(in_phases(*found@[i], seq![ArgoWorkflowPhase::Succeeded]));
        }
        Some(ModelPhase::Succeeded)
    } else {
        proof {
            if found.len() > 0 {
                let i = choose|i: int| 0 <= i < found@.len() && !in_phases(*#[trigger] found@[i], seq![ArgoWorkflowPhase::Succeeded]);
                assert(!in_phases(ws[i], seq![ArgoWorkflowPhase::Succeeded]));
            }
        }
        None
    }
}

/// The part of a termination message worth parsing: the message without trailing
/// whitespace, where something is left of it.
pub open spec fn failure_text(t: ContainerStateTerminated) -> Option<Seq<char>> {
    match t.message {
        Some(m) => if trim_end_of(m@).len() > 0 {
            Some(trim_end_of(m@))
        } else {
            None
        },
        None => None,
    }
}

/// The part of the termination message of `t` worth parsing, if any.
pub fn failure_message(t: &ContainerStateTerminated) -> (r: Option<String>)
    ensures
        opt_view(r) == failure_text(*t),
{
    match &t.message {
        Some(m) => {
            let trimmed = trim_end_str(m.as_str());
            if trimmed.unicode_len() > 0 {
                Some(String::from_str(trimmed))
            } else {
                None
            }
        },
        None => None,
    }
}

/// What one pass does to the status of a Model.
#[derive(Debug)]
pub enum ModelUpdate {
    /// The status stays as it is.
    Unchanged,
    /// The status is replaced by its default.
    Reset(ModelStatus),
    /// The status is replaced.
    Patch(ModelStatus),
    /// The Model has failed: the status is replaced by `status`, with the cause that
    /// `message`, where present, states as JSON.
    Fail { status: ModelStatus, message: Option<String> },
}

/// What one pass does to the status of a Model, with strings as sequences.
pub enum ModelStep {
    Unchanged,
    Reset(ModelStatusView),
    Patch(ModelStatusView),
    Fail(ModelStatusView, Option<Seq<char>>),
}

impl View for ModelUpdate {
    type V = ModelStep;

    open spec fn view(&self) -> ModelStep {
        match self {
            ModelUpdate::Unchanged => ModelStep::Unchanged,
            ModelUpdate::Reset(s) => ModelStep::Reset(s@),
            ModelUpdate::Patch(s) => ModelStep::Patch(s@),
            ModelUpdate::Fail { status, message } => ModelStep::Fail(status@, opt_view(*message)),
        }
    }
}

/// `base` in phase `phase`.
pub open spec fn with_phase(base: ModelStatusView, phase: ModelPhase) -> ModelStatusView {
    ModelStatusView { phase, ..base }
}

/// The status of a failed Model: the exit code of the last termination, where there
/// is one, and no cause yet.
pub open spec fn failed_status(base: ModelStatusView, last: Option<ContainerStateTerminated>) -> ModelStatusView {
    ModelStatusView {
        phase: ModelPhase::Failed,
        code: match last {
            Some(t) => Some(t.exit_code),
            None => base.code,
        },
        error_type: None,
        message: None,
        traceback: None,
        revision: base.revision,
    }
}

/// The status a pass starts from: the Model's own, or the default under its label's
/// revision.
pub open spec fn base_status(m: Model) -> ModelStatusView {
    match m.status {
        Some(s) => s@,
        None => reset_status(m),
    }
}

/// What one pass does to the status of `m`, given the workflows and pods around it.
pub open spec fn model_step(m: Model, workflows: Seq<Workflow>, pods: Seq<Pod>) -> ModelStep {
    let labels = m.metadata.labels@;
    let base = base_status(m);
    if stale_revision(m) {
        ModelStep::Reset(reset_status(m))
    } else if base.phase != ModelPhase::Unknown && base.phase != ModelPhase::InProgress {
        ModelStep::Unchanged
    } else {
        match workflow_verdict(labels, workflows) {
            Some(ModelPhase::Failed) => {
                let last = last_finished(failed_terminations(labels, pods));
                ModelStep::Fail(
                    failed_status(base, last),
                    match last {
                        Some(t) => failure_text(t),
                        None => None,
                    },
                )
            },
            Some(ModelPhase::Succeeded) => ModelStep::Patch(with_phase(base, ModelPhase::Succeeded)),
            _ => if base.phase == ModelPhase::Unknown && some_active_pod(labels, pods) {
                ModelStep::Patch(with_phase(base, ModelPhase::InProgress))
            } else if m.status is None {
                ModelStep::Reset(base)
            } else {
                ModelStep::Unchanged
            },
        }
    }
}

/// The cause parsed from a termination message, written into a status.
pub open spec fn with_details(base: ModelStatusView, details: Option<ModelPodTerminatedStatus>) -> ModelStatusView {
    match details {
        Some(d) => ModelStatusView {
            error_type: opt_view(d.error_type),
            message: opt_view(d.message),
            traceback: opt_view(d.traceback),
            ..base
        },
        None => base,
    }
}

/// The default status of `model`, under the revision its label gives.
pub fn default_status_for(model: &Model) -> (r: ModelStatus)
    ensures
        r@ == reset_status(*model),
{
    let mut status = ModelStatus::default();
    status.revision = label_value(&model.metadata.labels, PROJECT_REVISION_LABEL);
    status
}

fn copy_status(s: &ModelStatus) -> (r: ModelStatus)
    ensures
        r@ == s@,
{
    ModelStatus {
        phase: s.phase,
        code: s.code,
        error_type: copy_opt_string(&s.error_type),
        message: copy_opt_string(&s.message),
        traceback: copy_opt_string(&s.traceback),
        revision: copy_opt_string(&s.revision),
    }
}

/// Whether the status of `model` was written under another revision than its label's.
pub fn has_stale_revision(model: &Model) -> (r: bool)
    ensures
        r == stale_revision(*model),
{
    match &model.status {
        Some(s) => match &s.revision {
            Some(rev) => {
                let label = label_value(&model.metadata.labels, PROJECT_REVISION_LABEL);
                match label {
                    Some(l) => {
                        let same: bool = *rev == l;
                        !same
                    },
                    None => false,
                }
            },
            None => false,
        },
        None => false,
    }
}

/// Decides what this pass does to the status of `model`: a status written under a
/// stale revision goes back to its default; a status in phase `Unknown` or
/// `InProgress` follows the verdict of the Model's workflows, and on failure takes
/// the exit code of the `main` container of a failed pod of the Model that ended last;
/// without a verdict, a status in phase `Unknown` moves to `InProgress` while a pod of
/// the Model runs or waits to run.
pub fn model_update(model: &Model, workflows: &Vec<Workflow>, pods: &Vec<Pod>) -> (r: ModelUpdate)
    ensures
        r@ == model_step(*model, workflows@, pods@),
{
    if has_stale_revision(model) {
        return ModelUpdate::Reset(default_status_for(model));
    }
    let base = match &model.status {
        Some(s) => copy_status(s),
        None => default_status_for(model),
    };
    if base.phase != ModelPhase::Unknown && base.phase != ModelPhase::InProgress {
        return ModelUpdate::Unchanged;
    }
    let labels = &model.metadata.labels;
    match model_workflow_verdict(model, workflows) {
        Some(ModelPhase::Failed) => {
            let terminations = failed_pods_terminated_statuses(model, pods);
            let last = last_container_terminated_status(terminations);
            let mut status = base;
            status.phase = ModelPhase::Failed;
            status.error_type = None;
            status.message = None;
            status.traceback = None;
            let message = match last {
                Some(t) => {
                    status.code = Some(t.exit_code);
                    failure_message(t)
                },
                None => None,
            };
            ModelUpdate::Fail { status, message }
        },
        Some(ModelPhase::Succeeded) => {
            let mut status = base;
            status.phase = ModelPhase::Succeeded;
            ModelUpdate::Patch(status)
        },
        _ => {
            if base.phase == ModelPhase::Unknown && any_active_pod(labels, pods) {
                let mut status = base;
                status.phase = ModelPhase::InProgress;
                ModelUpdate::Patch(status)
            } else if model.status.is_none() {
                ModelUpdate::Reset(base)
            } else {
                ModelUpdate::Unchanged
            }
        },
    }
}

/// What this pass does to the status of each of `models`, in their order.
pub fn model_updates(models: &Vec<Model>, workflows: &Vec<Workflow>, pods: &Vec<Pod>) -> (r: Vec<ModelUpdate>)
    ensures
        r@.len() == models@.len(),
        forall|i: int| 0 <= i < models@.len() ==> (#[trigger] r@[i])@ == model_step(models@[i], workflows@, pods@),
{
    let mut r: Vec<ModelUpdate> = Vec::new();
    let mut i: usize = 0;
    while i < models.len()
        invariant
            i <= models@.len(),
            r@.len() == i,
            forall|j: int| 0 <= j < i ==> (#[trigger] r@[j])@ == model_step(models@[j], workflows@, pods@),
        decreases models.len() - i,
    {
        r.push(model_update(&models[i], workflows, pods));
        i = i + 1;
    }
    r
}

/// Writes the cause parsed from a termination message, where there is one, into `status`.
pub fn with_failure_details(status: ModelStatus, details: Option<ModelPodTerminatedStatus>) -> (r: ModelStatus)
    ensures
        r@ == with_details(status@, details),
{
    let mut status = status;
    match details {
        Some(d) => {
            status.error_type = d.error_type;
            status.message = d.message;
            status.traceback = d.traceback;
        },
        None => {},
    }
    status
}

/// Whether `next` is `m` after the write of one pass, the parsed cause `details`
/// written in on failure, and that write leaves nothing more for the workflows and
/// pods to call for: a status returned to its default is settled only where neither
/// the workflows nor a running pod call for a new phase.
pub open spec fn applied_update(
    m: Model,
    next: Model,
    workflows: Seq<Workflow>,
    pods: Seq<Pod>,
    details: Option<ModelPodTerminatedStatus>,
) -> bool {
    &&& next.metadata == m.metadata
    &&& next.status is Some
    &&& match model_step(m, workflows, pods) {
        ModelStep::Unchanged => next.status == m.status,
        ModelStep::Reset(v) => {
            &&& next.status->0@ == v
            &&& workflow_verdict(m.metadata.labels@, workflows) is None
            &&& !some_active_pod(m.metadata.labels@, pods)
        },
        ModelStep::Patch(v) => next.status->0@ == v,
        ModelStep::Fail(v, _) => next.status->0@ == with_details(v, details),
    }
}

/// A pass whose write is applied is followed by one that changes nothing, while the
/// workflows and pods stay as they were; a failure's cause, where one was parsed, is
/// written in. A status returned to its default is settled only where neither the
/// workflows nor a running pod call for a new phase.
pub proof fn lemma_model_update_settles(
    m: Model,
    next: Model,
    workflows: Seq<Workflow>,
    pods: Seq<Pod>,
    details: Option<ModelPodTerminatedStatus>,
)
    requires
        applied_update(m, next, workflows, pods, details),
    ensures
        model_step(next, workflows, pods) == ModelStep::Unchanged,
{
}

/// A Model whose status was written under another revision than its label's goes
/// back to the default status, under its label's revision.
pub proof fn lemma_stale_revision_resets(m: Model, workflows: Seq<Workflow>, pods: Seq<Pod>)
    requires
        stale_revision(m),
    ensures
        model_step(m, workflows, pods) == ModelStep::Reset(reset_status(m)),
        reset_status(m).phase == ModelPhase::Unknown,
        reset_status(m).revision == label_of(m.metadata.labels@, PROJECT_REVISION_LABEL@),
{
}

} // verus!

//! Argo workflows, and which of them belong to a Model.

use vstd::prelude::*;
use crate::model::Model;
use crate::labels::{
    label_of, label_value, same_label, ObjectMeta, PROJECT_NAME_LABEL, PROJECT_REVISION_LABEL,
    PROJECT_WORKFLOW_LABEL,
};

verus! {

/// Phase of an argo workflow.
#[derive(Clone, Copy, Debug, PartialEq, Eq, Structural)]
pub enum ArgoWorkflowPhase {
    Pending,
    Running,
    Succeeded,
    Skipped,
    Failed,
    Error,
    Omitted,
}

impl Default for ArgoWorkflowPhase {
    fn default() -> (r: ArgoWorkflowPhase)
        ensures
            r == ArgoWorkflowPhase::Pending,
    {
        ArgoWorkflowPhase::Pending
    }
}

/// The spec of a workflow; the controller reads none of it.
#[derive(Clone, Copy, Debug, Default)]
pub struct ArgoWorkflowSpec {}

/// The status of a workflow.
#[derive(Clone, Copy, Debug, Default)]
pub struct ArgoWorkflowStatus {
    pub phase: Option<ArgoWorkflowPhase>,
}

/// An argo workflow.
#[derive(Debug)]
pub struct Workflow {
    pub metadata: ObjectMeta,
    pub spec: ArgoWorkflowSpec,
    pub status: Option<ArgoWorkflowStatus>,
}

/// The phase a workflow reports, if any.
pub open spec fn workflow_phase(w: Workflow) -> Option<ArgoWorkflowPhase> {
    match w.status {
        Some(s) => s.phase,
        None => None,
    }
}

/// Whether a workflow reports one of `phases`.
pub open spec fn in_phases(w: Workflow, phases: Seq<ArgoWorkflowPhase>) -> bool {
    match workflow_phase(w) {
        Some(p) => phases.contains(p),
        None => false,
    }
}

/// Whether some workflow reports one of `phases`.
pub open spec fn some_in_phases(ws: Seq<&Workflow>, phases: Seq<ArgoWorkflowPhase>) -> bool {
    exists|i: int| 0 <= i < ws.len() && in_phases(*#[trigger] ws[i], phases)
}

/// Whether every workflow reports one of `phases`.
pub open spec fn all_in_phases(ws: Seq<&Workflow>, phases: Seq<ArgoWorkflowPhase>) -> bool {
    forall|i: int| 0 <= i < ws.len() ==> in_phases(*#[trigger] ws[i], phases)
}

/// Whether the labels of a workflow tie it to an object with `labels`: both carry the
/// same project name and the same project revision, and the same workflow number
/// where either has one.
pub open spec fn labels_match_workflow(
    workflow_labels: Seq<(String, String)>,
    labels: Seq<(String, String)>,
) -> bool {
    &&& label_of(labels, PROJECT_NAME_LABEL@) is Some
    &&& label_of(labels, PROJECT_REVISION_LABEL@) is Some
    &&& label_of(workflow_labels, PROJECT_NAME_LABEL@) == label_of(labels, PROJECT_NAME_LABEL@)
    &&& label_of(workflow_labels, PROJECT_REVISION_LABEL@) == label_of(labels, PROJECT_REVISION_LABEL@)
    &&& label_of(workflow_labels, PROJECT_WORKFLOW_LABEL@) == label_of(labels, PROJECT_WORKFLOW_LABEL@)
}

fn phase_in(p: ArgoWorkflowPhase, phases: &Vec<ArgoWorkflowPhase>) -> (r: bool)
    ensures
        r == phases@.contains(p),
{
    let mut i: usize = 0;
    while i < phases.len()
        invariant
            i <= phases@.len(),
            forall|j: int| 0 <= j < i ==> phases@[j] != p,
        decreases phases.len() - i,
    {
        if phases[i] == p {
            return true;
        }
        i = i + 1;
    }
    false
}

fn workflow_in_phases(w: &Workflow, phases: &Vec<ArgoWorkflowPhase>) -> (r: bool)
    ensures
        r == in_phases(*w, phases@),
{
    match &w.status {
        Some(status) => match status.phase {
            Some(p) => phase_in(p, phases),
            None => false,
        },
        None => false,
    }
}

/// Whether some of `workflows` reports one of `phases`.
pub fn some_of_workflows_in_phases(
    workflows: &Vec<&Workflow>,
    phases: Vec<ArgoWorkflowPhase>,
) -> (r: bool)
    ensures
        r == some_in_phases(workflows@, phases@),
{
    let mut i: usize = 0;
    while i < workflows.len()
        invariant
            i <= workflows@.len(),
            forall|j: int| 0 <= j < i ==> !in_phases(*#[trigger] workflows@[j], phases@),
        decreases workflows.len() - i,
    {
        if workflow_in_phases(workflows[i], &phases) {
            return true;
        }
        i = i + 1;
    }
    false
}

/// Whether all of `workflows` report one of `phases` (true of no workflows).
pub fn all_of_workflows_in_phases(
    workflows: &Vec<&Workflow>,
    phases: Vec<ArgoWorkflowPhase>,
) -> (r: bool)
    ensures
        r == all_in_phases(workflows@, phases@),
{
    let mut i: usize = 0;
    while i < workflows.len()
        invariant
            i <= workflows@.len(),
            forall|j: int| 0 <= j < i ==> in_phases(*#[trigger] workflows@[j], phases@),
        decreases workflows.len() - i,
    {
        if !workflow_in_phases(workflows[i], &phases) {
            return false;
        }
        i = i + 1;
    }
    true
}

/// The workflows tied by their labels to an object with `labels`, in their order.
pub open spec fn matching_workflows(
    labels: Seq<(String, String)>,
    workflows: Seq<Workflow>,
) -> Seq<Workflow> {
    workflows.filter(|w: Workflow| labels_match_workflow(w.metadata.labels@, labels))
}

/// The workflows that belong to `model`, in their order.
pub fn find_model_workflows<'a>(model: &Model, workflows: &'a Vec<Workflow>) -> (r: Vec<&'a Workflow>)
    ensures
        r@.map_values(|w: &Workflow| *w) == matching_workflows(model.metadata.labels@, workflows@),
{
    let labels = &model.metadata.labels;
    let ghost pred = |w: Workflow| labels_match_workflow(w.metadata.labels@, labels@);
    let mut r: Vec<&'a Workflow> = Vec::new();
    let mut i: usize = 0;
    while i < workflows.len()
        invariant
            i <= workflows@.len(),
            pred == (|w: Workflow| labels_match_workflow(w.metadata.labels@, labels@)),
            r@.map_values(|w: &Workflow| *w) == workflows@.subrange(0, i as int).filter(pred),
        decreases workflows.len() - i,
    {
        let w = &workflows[i];
        let m = label_value(labels, PROJECT_NAME_LABEL).is_some()
            && label_value(labels, PROJECT_REVISION_LABEL).is_some()
            && same_label(&w.metadata.labels, labels, PROJECT_NAME_LABEL)
            && same_label(&w.metadata.labels, labels, PROJECT_REVISION_LABEL)
            && same_label(&w.metadata.labels, labels, PROJECT_WORKFLOW_LABEL);
        let ghost before = r@;
        if m {
            r.push(w);
        }
        proof {
            let s = workflows@.subrange(0, i + 1);
            assert(s.drop_last() =~= workflows@.subrange(0, i as int));
            reveal(Seq::filter);
            assert(r@.map_values(|w: &Workflow| *w) =~= s.filter(pred));
        }
        i = i + 1;
    }
    assert(workflows@.subrange(0, workflows@.len() as int) =~= workflows@);
    r
}

} // verus!

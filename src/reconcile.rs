//! One reconcile pass of a Gordo as a whole: the deploy, the Models' statuses, and
//! the count of built Models.

use vstd::prelude::*;
use crate::argo::Workflow;
use crate::gordo::{
    built_update, deployed_status, lemma_built_update_settles, lemma_deploy_settles, needs_deploy,
    submitted_status, Gordo, GordoStatus,
};
use crate::model::{applied_update, lemma_model_update_settles, model_step, Model, ModelPodTerminatedStatus, ModelStep};
use crate::pod::Pod;

verus! {

/// The status to write after an attempt to replace the deploy job of `gordo`: the
/// submitted status under the new revision where the job was created, and none
/// where creating it failed, so that the status stays as it was.
pub fn status_after_deploy(gordo: &Gordo, created_revision: Option<String>) -> (r: Option<GordoStatus>)
    ensures
        created_revision is None ==> r is None,
        created_revision is Some ==> (r is Some && r->0@ == submitted_status(*gordo, created_revision->0@)),
{
    match created_revision {
        Some(revision) => Some(deployed_status(gordo, revision)),
        None => None,
    }
}

/// A reconcile pass whose writes are applied is followed by a pass that writes
/// nothing, while the workflows and pods stay as they were: the Gordo calls for no
/// deploy, no Model's status changes, and the count of built Models stands.
/// `deployed` is the Gordo after the deploy step, `after` after the count step, and
/// `next` the Models after their writes, each settled as `applied_update` says.
pub proof fn lemma_reconcile_settles(
    g: Gordo,
    deployed: Gordo,
    after: Gordo,
    models: Seq<Model>,
    next: Seq<Model>,
    workflows: Seq<Workflow>,
    pods: Seq<Pod>,
    revision: Seq<char>,
    details: Seq<Option<ModelPodTerminatedStatus>>,
)
    requires
        deployed.metadata == g.metadata,
        deployed.spec == g.spec,
        needs_deploy(g) ==> (deployed.status is Some && deployed.status->0@ == submitted_status(g, revision)),
        !needs_deploy(g) ==> deployed.status == g.status,
        after.metadata == g.metadata,
        after.spec == g.spec,
        match built_update(deployed, next) {
            Some(v) => after.status is Some && after.status->0@ == v,
            None => after.status == deployed.status,
        },
        next.len() == models.len(),
        details.len() == models.len(),
        forall|i: int| 0 <= i < models.len() ==> applied_update(#[trigger] models[i], next[i], workflows, pods, details[i]),
    ensures
        !needs_deploy(after),
        forall|i: int| 0 <= i < next.len() ==> model_step(#[trigger] next[i], workflows, pods) == ModelStep::Unchanged,
        built_update(after, next) is None,
{
    if needs_deploy(g) {
        lemma_deploy_settles(g, deployed, revision);
    }
    assert(!needs_deploy(deployed));
    assert(deployed.status is Some);
    match built_update(deployed, next) {
        Some(v) => {
            lemma_built_update_settles(deployed, after, next);
        },
        None => {
            assert(after == deployed);
        },
    }
    assert forall|i: int| 0 <= i < next.len() implies model_step(#[trigger] next[i], workflows, pods) == ModelStep::Unchanged by {
        assert(applied_update(models[i], next[i], workflows, pods, details[i]));
        lemma_model_update_settles(models[i], next[i], workflows, pods, details[i]);
    }
}

} // verus!

//! Replacing the deploy job of a Gordo: the old jobs are deleted, and the new one
//! is created only once none of them is left.

use vstd::prelude::*;
use crate::config::Config;
use crate::deploy_job::{is_deploy_job_for, DeployJob, PROJECT_LABEL};
use crate::gordo::Gordo;
use crate::labels::{label_of, label_value, pairs_view, ObjectMeta};

verus! {

/// Whether a job carries the label that ties it to the Gordo called `name`.
pub open spec fn job_of(job: ObjectMeta, name: Seq<char>) -> bool {
    label_of(job.labels@, PROJECT_LABEL@) == Some(name)
}

/// The jobs of the Gordo called `name`, in their order.
pub open spec fn jobs_of(jobs: Seq<ObjectMeta>, name: Seq<char>) -> Seq<ObjectMeta> {
    jobs.filter(|j: ObjectMeta| job_of(j, name))
}

/// The names of the jobs of the Gordo called `name`, in their order; a job without
/// a name is passed over.
pub open spec fn removal_names(jobs: Seq<ObjectMeta>, name: Seq<char>) -> Seq<Seq<char>>
    decreases jobs.len(),
{
    if jobs.len() == 0 {
        Seq::empty()
    } else {
        let rest = removal_names(jobs.drop_last(), name);
        let j = jobs.last();
        if job_of(j, name) && j.name is Some {
            rest.push(j.name->0@)
        } else {
            rest
        }
    }
}

fn is_job_of(job: &ObjectMeta, gordo_name: &String) -> (r: bool)
    ensures
        r == job_of(*job, gordo_name@),
{
    match label_value(&job.labels, PROJECT_LABEL) {
        Some(v) => v == *gordo_name,
        None => false,
    }
}

/// The names of the jobs among `jobs` that belong to the Gordo called `gordo_name`.
pub fn jobs_to_remove(gordo_name: &String, jobs: &Vec<ObjectMeta>) -> (r: Vec<String>)
    ensures
        r@.map_values(|s: String| s@) == removal_names(jobs@, gordo_name@),
{
    let mut r: Vec<String> = Vec::new();
    let mut i: usize = 0;
    while i < jobs.len()
        invariant
            i <= jobs@.len(),
            r@.map_values(|s: String| s@) == removal_names(jobs@.subrange(0, i as int), gordo_name@),
        decreases jobs.len() - i,
    {
        let job = &jobs[i];
        proof {
            let s = jobs@.subrange(0, i + 1);
            assert(s.drop_last() =~= jobs@.subrange(0, i as int));
            assert(s.last() == *job);
        }
        let ghost before = r@;
        if is_job_of(job, gordo_name) {
            match &job.name {
                Some(n) => {
                    r.push(n.clone());
                    assert(r@.map_values(|s: String| s@) =~= before.map_values(|s: String| s@).push(n@));
                },
                None => {},
            }
        }
        i = i + 1;
    }
    assert(jobs@.subrange(0, jobs@.len() as int) =~= jobs@);
    r
}

/// Whether the new deploy job of the Gordo called `gordo_name` may be created: none
/// of `remaining`, the jobs that still exist, belongs to it.
pub fn may_create_job(gordo_name: &String, remaining: &Vec<ObjectMeta>) -> (r: bool)
    ensures
        r == (jobs_of(remaining@, gordo_name@).len() == 0),
{
    let ghost p = |j: ObjectMeta| job_of(j, gordo_name@);
    let mut i: usize = 0;
    while i < remaining.len()
        invariant
            i <= remaining@.len(),
            p == (|j: ObjectMeta| job_of(j, gordo_name@)),
            remaining@.subrange(0, i as int).filter(p).len() == 0,
        decreases remaining.len() - i,
    {
        let job = &remaining[i];
        proof {
            let s = remaining@.subrange(0, i + 1);
            assert(s.drop_last() =~= remaining@.subrange(0, i as int));
            assert(s.last() == *job);
            reveal(Seq::filter);
        }
        if is_job_of(job, gordo_name) {
            proof {
                let k = i as int;
                remaining@.lemma_filter_contains(p, k);
            }
            return false;
        }
        i = i + 1;
    }
    assert(remaining@.subrange(0, remaining@.len() as int) =~= remaining@);
    true
}

/// Where no job of a Gordo remains when its new deploy job, which carries its label,
/// is created, that job is the only one of the Gordo.
pub proof fn lemma_single_deploy_job(remaining: Seq<ObjectMeta>, name: Seq<char>, created: ObjectMeta)
    requires
        jobs_of(remaining, name).len() == 0,
        job_of(created, name),
    ensures
        jobs_of(remaining.push(created), name).len() == 1,
{
    reveal(Seq::filter);
    assert(remaining.push(created).drop_last() =~= remaining);
}

/// What the replacement of a Gordo's deploy job has just learnt.
#[derive(Debug)]
pub enum ReplaceEvent {
    /// The replacement begins.
    Start,
    /// The jobs of the namespace, listed before anything was deleted.
    Listed(Vec<ObjectMeta>),
    /// The jobs of the namespace that still exist, after the deletes were issued.
    Remaining(Vec<ObjectMeta>),
    /// The new deploy job was created.
    Created,
}

/// What the replacement of a Gordo's deploy job does next.
#[derive(Debug)]
pub enum ReplaceStep {
    /// List the jobs of the namespace.
    List,
    /// Delete the jobs with these names, then list the jobs that remain.
    Delete(Vec<String>),
    /// Wait a second, then list the jobs that remain.
    Wait,
    /// Create the new deploy job.
    Create,
    /// The replacement is over.
    Done,
}

/// The step that follows `event` in the replacement of the deploy job of the Gordo
/// called `gordo_name`: its jobs are deleted, and the new one is created only once
/// none of them is left.
pub fn next_replace_step(gordo_name: &String, event: &ReplaceEvent) -> (r: ReplaceStep)
    ensures
        match event {
            ReplaceEvent::Start => r is List,
            ReplaceEvent::Listed(jobs) => (r matches ReplaceStep::Delete(names)
                && names@.map_values(|s: String| s@) == removal_names(jobs@, gordo_name@)),
            ReplaceEvent::Remaining(jobs) => if jobs_of(jobs@, gordo_name@).len() == 0 {
                r is Create
            } else {
                r is Wait
            },
            ReplaceEvent::Created => r is Done,
        },
        r is Create ==> (event matches ReplaceEvent::Remaining(jobs) && jobs_of(jobs@, gordo_name@).len() == 0),
{
    match event {
        ReplaceEvent::Start => ReplaceStep::List,
        ReplaceEvent::Listed(jobs) => ReplaceStep::Delete(jobs_to_remove(gordo_name, jobs)),
        ReplaceEvent::Remaining(jobs) => {
            if may_create_job(gordo_name, jobs) {
                ReplaceStep::Create
            } else {
                ReplaceStep::Wait
            }
        },
        ReplaceEvent::Created => ReplaceStep::Done,
    }
}

/// The value under `key` in key-value pairs; a later entry overrides an earlier one.
pub open spec fn lookup_last(kv: Seq<(Seq<char>, Seq<char>)>, key: Seq<char>) -> Option<Seq<char>>
    decreases kv.len(),
{
    if kv.len() == 0 {
        None
    } else if kv.last().0 == key {
        Some(kv.last().1)
    } else {
        lookup_last(kv.drop_last(), key)
    }
}

proof fn lemma_label_of_view(l: Seq<(String, String)>, key: Seq<char>)
    ensures
        label_of(l, key) == lookup_last(pairs_view(l), key),
    decreases l.len(),
{
    if l.len() > 0 {
        lemma_label_of_view(l.drop_last(), key);
        assert(pairs_view(l).drop_last() =~= pairs_view(l.drop_last()));
    }
}

/// A deploy job of a Gordo carries the label that ties it to the Gordo.
pub proof fn lemma_deploy_job_is_labelled(
    j: DeployJob,
    g: Gordo,
    c: Config,
    revision: Seq<char>,
    owner_json: Seq<char>,
    labels_json: Seq<char>,
)
    requires
        is_deploy_job_for(j, g, c, revision, owner_json, labels_json),
    ensures
        job_of(j.metadata, g.metadata.name->0@),
{
    let kv = pairs_view(j.metadata.labels@);
    lemma_label_of_view(j.metadata.labels@, PROJECT_LABEL@);
    assert(kv.last() == (PROJECT_LABEL@, g.metadata.name->0@));
}

/// Where no job of a Gordo remains when its new deploy job is created, that job is
/// then the only one of the Gordo.
pub proof fn lemma_single_deploy_job_created(
    remaining: Seq<ObjectMeta>,
    j: DeployJob,
    g: Gordo,
    c: Config,
    revision: Seq<char>,
    owner_json: Seq<char>,
    labels_json: Seq<char>,
)
    requires
        jobs_of(remaining, g.metadata.name->0@).len() == 0,
        is_deploy_job_for(j, g, c, revision, owner_json, labels_json),
    ensures
        jobs_of(remaining.push(j.metadata), g.metadata.name->0@).len() == 1,
{
    lemma_deploy_job_is_labelled(j, g, c, revision, owner_json, labels_json);
    lemma_single_deploy_job(remaining, g.metadata.name->0@, j.metadata);
}

} // verus!

//! Pods, and the termination of the containers of failed pods.

use vstd::prelude::*;
use crate::model::Model;
use crate::labels::{label_of, same_label, ObjectMeta, MODEL_NAME_LABEL, PROJECT_NAME_LABEL, PROJECT_REVISION_LABEL};

verus! {

/// Phase of a pod whose containers have stopped and at least one failed.
pub const FAILED: &'static str = "Failed";

/// Phase of a pod whose containers run.
pub const RUNNING: &'static str = "Running";

/// Phase of a pod that waits to run.
pub const PENDING: &'static str = "Pending";

/// Name of the container that builds the model.
pub const MAIN_CONTAINER: &'static str = "main";

/// How a container ended.
#[derive(Debug)]
pub struct ContainerStateTerminated {
    pub exit_code: i32,
    pub message: Option<String>,
    /// When the container ended, in milliseconds since the Unix epoch.
    pub finished_at: Option<i64>,
}

/// The state of one container of a pod.
#[derive(Debug)]
pub struct ContainerStatus {
    pub name: String,
    pub terminated: Option<ContainerStateTerminated>,
}

/// The status of a pod; an absent list of container statuses is empty.
#[derive(Debug)]
pub struct PodStatus {
    pub phase: Option<String>,
    pub container_statuses: Vec<ContainerStatus>,
}

/// A pod.
#[derive(Debug)]
pub struct Pod {
    pub metadata: ObjectMeta,
    pub status: Option<PodStatus>,
}

/// Whether a pod and an object with `labels` (a Model) have the same project name,
/// project revision and model name.
pub open spec fn labels_match_pod(pod_labels: Seq<(String, String)>, labels: Seq<(String, String)>) -> bool {
    &&& label_of(pod_labels, PROJECT_NAME_LABEL@) == label_of(labels, PROJECT_NAME_LABEL@)
    &&& label_of(pod_labels, PROJECT_REVISION_LABEL@) == label_of(labels, PROJECT_REVISION_LABEL@)
    &&& label_of(pod_labels, MODEL_NAME_LABEL@) == label_of(labels, MODEL_NAME_LABEL@)
}

/// Whether a pod reports the phase `Failed`.
pub open spec fn pod_failed(p: Pod) -> bool {
    match p.status {
        Some(s) => match s.phase {
            Some(ph) => ph@ == FAILED@,
            None => false,
        },
        None => false,
    }
}

/// The terminations of the `main` containers among `cs`, in their order.
pub open spec fn main_terminations(cs: Seq<ContainerStatus>) -> Seq<ContainerStateTerminated>
    decreases cs.len(),
{
    if cs.len() == 0 {
        Seq::empty()
    } else {
        let rest = main_terminations(cs.drop_last());
        let c = cs.last();
        if c.name@ == MAIN_CONTAINER@ && c.terminated is Some {
            rest.push(c.terminated->0)
        } else {
            rest
        }
    }
}

/// The containers a pod reports.
pub open spec fn pod_containers(p: Pod) -> Seq<ContainerStatus> {
    match p.status {
        Some(s) => s.container_statuses@,
        None => Seq::empty(),
    }
}

/// The terminations of the `main` containers of the failed pods that match `labels`,
/// pod by pod, in their order.
pub open spec fn failed_terminations(labels: Seq<(String, String)>, pods: Seq<Pod>) -> Seq<ContainerStateTerminated>
    decreases pods.len(),
{
    if pods.len() == 0 {
        Seq::empty()
    } else {
        let rest = failed_terminations(labels, pods.drop_last());
        let p = pods.last();
        if pod_failed(p) && labels_match_pod(p.metadata.labels@, labels) {
            rest + main_terminations(pod_containers(p))
        } else {
            rest
        }
    }
}

fn is_failed(p: &Pod) -> (r: bool)
    ensures
        r == pod_failed(*p),
{
    match &p.status {
        Some(s) => match &s.phase {
            Some(ph) => {
                let failed = String::from_str(FAILED);
                *ph == failed
            },
            None => false,
        },
        None => false,
    }
}

/// The terminations of the `main` containers of the failed pods that belong to `model`.
pub fn failed_pods_terminated_statuses<'a>(model: &Model, pods: &'a Vec<Pod>) -> (r: Vec<&'a ContainerStateTerminated>)
    ensures
        r@.map_values(|t: &ContainerStateTerminated| *t) == failed_terminations(model.metadata.labels@, pods@),
{
    let labels = &model.metadata.labels;
    let main = String::from_str(MAIN_CONTAINER);
    let mut r: Vec<&'a ContainerStateTerminated> = Vec::new();
    let mut i: usize = 0;
    while i < pods.len()
        invariant
            i <= pods@.len(),
            main@ == MAIN_CONTAINER@,
            r@.map_values(|t: &ContainerStateTerminated| *t) == failed_terminations(labels@, pods@.subrange(0, i as int)),
        decreases pods.len() - i,
    {
        let p = &pods[i];
        proof {
            assert(pods@.subrange(0, i + 1).drop_last() =~= pods@.subrange(0, i as int));
        }
        let matches = is_failed(p)
            && same_label(&p.metadata.labels, labels, PROJECT_NAME_LABEL)
            && same_label(&p.metadata.labels, labels, PROJECT_REVISION_LABEL)
            && same_label(&p.metadata.labels, labels, MODEL_NAME_LABEL);
        if matches {
            match &p.status {
                Some(s) => {
                    let cs = &s.container_statuses;
                    let ghost base = r@.map_values(|t: &ContainerStateTerminated| *t);
                    let mut j: usize = 0;
                    while j < cs.len()
                        invariant
                            j <= cs@.len(),
                            main@ == MAIN_CONTAINER@,
                            r@.map_values(|t: &ContainerStateTerminated| *t) == base + main_terminations(cs@.subrange(0, j as int)),
                        decreases cs.len() - j,
                    {
                        let c = &cs[j];
                        proof {
                            assert(cs@.subrange(0, j + 1).drop_last() =~= cs@.subrange(0, j as int));
                        }
                        let ghost r_before = r@;
                        if c.name == main {
                            match &c.terminated {
                                Some(t) => {
                                    r.push(t);
                                    assert(r@.map_values(|t: &ContainerStateTerminated| *t) =~= r_before.map_values(|t: &ContainerStateTerminated| *t).push(c.terminated->0));
                                },
                                None => {},
                            }
                        }
                        proof {
                            let s2 = cs@.subrange(0, j + 1);
                            assert(s2.drop_last() =~= cs@.subrange(0, j as int));
                            assert(s2.last() == cs@[j as int]);
                            let prev = main_terminations(cs@.subrange(0, j as int));
                            if c.name@ == MAIN_CONTAINER@ && c.terminated is Some {
                                assert(main_terminations(s2) == prev.push(c.terminated->0));
                            } else {
                                assert(main_terminations(s2) == prev);
                            }
                            assert(r@.map_values(|t: &ContainerStateTerminated| *t) =~= base + main_terminations(s2));
                        }
                        j = j + 1;
                    }
                    assert(cs@.subrange(0, cs@.len() as int) =~= cs@);
                    assert(r@.map_values(|t: &ContainerStateTerminated| *t) =~= failed_terminations(labels@, pods@.subrange(0, i + 1)));
                },
                None => {
                    assert(main_terminations(Seq::<ContainerStatus>::empty()) =~= Seq::empty());
                    assert(r@.map_values(|t: &ContainerStateTerminated| *t) =~= failed_terminations(labels@, pods@.subrange(0, i + 1)));
                },
            }
        }
        i = i + 1;
    }
    assert(pods@.subrange(0, pods@.len() as int) =~= pods@);
    r
}

/// Whether a container that ended at `a` ended before one that ended at `b`;
/// an unknown time comes before every known one.
pub open spec fn finished_before(a: Option<i64>, b: Option<i64>) -> bool {
    match (a, b) {
        (_, None) => false,
        (None, Some(_)) => true,
        (Some(x), Some(y)) => x < y,
    }
}

/// Index of the termination that ended last; of several that ended at the same
/// time, the one that comes last.
pub open spec fn last_finished_index(ts: Seq<ContainerStateTerminated>) -> int
    decreases ts.len(),
{
    if ts.len() <= 1 {
        0
    } else {
        let k = last_finished_index(ts.drop_last());
        if finished_before(ts.last().finished_at, ts[k].finished_at) {
            k
        } else {
            ts.len() - 1
        }
    }
}

/// The termination that ended last, if any.
pub open spec fn last_finished(ts: Seq<ContainerStateTerminated>) -> Option<ContainerStateTerminated> {
    if ts.len() == 0 {
        None
    } else {
        Some(ts[last_finished_index(ts)])
    }
}

fn finished_earlier(a: Option<i64>, b: Option<i64>) -> (r: bool)
    ensures
        r == finished_before(a, b),
{
    match (a, b) {
        (_, None) => false,
        (None, Some(_)) => true,
        (Some(x), Some(y)) => x < y,
    }
}

/// Of the given terminations, the one that ended last.
pub fn last_container_terminated_status<'a>(
    terminated_statuses: Vec<&'a ContainerStateTerminated>,
) -> (r: Option<&'a ContainerStateTerminated>)
    ensures
        match r {
            Some(t) => last_finished(terminated_statuses@.map_values(|t: &ContainerStateTerminated| *t)) == Some(*t),
            None => terminated_statuses@.len() == 0,
        },
{
    let ghost ts = terminated_statuses@.map_values(|t: &ContainerStateTerminated| *t);
    if terminated_statuses.len() == 0 {
        return None;
    }
    let mut best: usize = 0;
    let mut i: usize = 1;
    while i < terminated_statuses.len()
        invariant
            1 <= i <= terminated_statuses@.len(),
            ts == terminated_statuses@.map_values(|t: &ContainerStateTerminated| *t),
            best < i,
            best as int == last_finished_index(ts.subrange(0, i as int)),
        decreases terminated_statuses.len() - i,
    {
        proof {
            assert(ts.subrange(0, i + 1).drop_last() =~= ts.subrange(0, i as int));
        }
        if !finished_earlier(terminated_statuses[i].finished_at, terminated_statuses[best].finished_at) {
            best = i;
        }
        i = i + 1;
    }
    assert(ts.subrange(0, ts.len() as int) =~= ts);
    Some(terminated_statuses[best])
}

/// Whether a pod reports the phase `Running` or `Pending`.
pub open spec fn pod_active(p: Pod) -> bool {
    match p.status {
        Some(s) => match s.phase {
            Some(ph) => ph@ == RUNNING@ || ph@ == PENDING@,
            None => false,
        },
        None => false,
    }
}

/// Whether some pod that matches `labels` is running or waiting to run.
pub open spec fn some_active_pod(labels: Seq<(String, String)>, pods: Seq<Pod>) -> bool {
    exists|i: int| 0 <= i < pods.len() && pod_active(#[trigger] pods[i]) && labels_match_pod(pods[i].metadata.labels@, labels)
}

fn is_active(p: &Pod) -> (r: bool)
    ensures
        r == pod_active(*p),
{
    match &p.status {
        Some(s) => match &s.phase {
            Some(ph) => {
                let running = String::from_str(RUNNING);
                let pending = String::from_str(PENDING);
                *ph == running || *ph == pending
            },
            None => false,
        },
        None => false,
    }
}

/// Whether some pod of an object with `labels` (a Model) is running or waiting to run.
pub fn any_active_pod(labels: &Vec<(String, String)>, pods: &Vec<Pod>) -> (r: bool)
    ensures
        r == some_active_pod(labels@, pods@),
{
    let mut i: usize = 0;
    while i < pods.len()
        invariant
            i <= pods@.len(),
            forall|j: int| 0 <= j < i ==> !(pod_active(#[trigger] pods@[j]) && labels_match_pod(pods@[j].metadata.labels@, labels@)),
        decreases pods.len() - i,
    {
        let p = &pods[i];
        if is_active(p)
            && same_label(&p.metadata.labels, labels, PROJECT_NAME_LABEL)
            && same_label(&p.metadata.labels, labels, PROJECT_REVISION_LABEL)
            && same_label(&p.metadata.labels, labels, MODEL_NAME_LABEL)
        {
            return true;
        }
        i = i + 1;
    }
    false
}

} // verus!

//! Gordo projects: when to deploy them, and their status.

use vstd::prelude::*;
use crate::labels::{label_of, label_value, opt_view, ObjectMeta, OwnerReference, PROJECT_REVISION_LABEL, PROJECT_VERSION_LABEL};
use crate::model::{Model, ModelPhase};

verus! {

/// Kind of a Gordo, as owner references name it.
pub const GORDO_KIND: &'static str = "Gordo";

/// The generation a deploy was submitted for, if known.
pub type GenerationNumber = Option<u32>;

/// How far a Gordo has been submitted.
#[derive(Clone, Copy, Debug, PartialEq, Eq, Structural)]
pub enum GordoSubmissionStatus {
    Submitted(GenerationNumber),
}

impl Default for GordoSubmissionStatus {
    fn default() -> (r: GordoSubmissionStatus)
        ensures
            r == GordoSubmissionStatus::Submitted(None),
    {
        GordoSubmissionStatus::Submitted(None)
    }
}

/// The status of a Gordo.
#[derive(Clone, Debug)]
pub struct GordoStatus {
    pub n_models: usize,
    pub submission_status: GordoSubmissionStatus,
    pub n_models_built: usize,
    pub project_revision: String,
}

/// What a Gordo's status says, with its revision as a sequence of characters.
pub struct GordoStatusView {
    pub n_models: nat,
    pub submission_status: GordoSubmissionStatus,
    pub n_models_built: nat,
    pub project_revision: Seq<char>,
}

impl View for GordoStatus {
    type V = GordoStatusView;

    open spec fn view(&self) -> GordoStatusView {
        GordoStatusView {
            n_models: self.n_models as nat,
            submission_status: self.submission_status,
            n_models_built: self.n_models_built as nat,
            project_revision: self.project_revision@,
        }
    }
}

impl Default for GordoStatus {
    fn default() -> (r: GordoStatus)
        ensures
            r@ == (GordoStatusView {
                n_models: 0,
                submission_status: GordoSubmissionStatus::Submitted(None),
                n_models_built: 0,
                project_revision: Seq::empty(),
            }),
    {
        GordoStatus {
            n_models: 0,
            submission_status: GordoSubmissionStatus::Submitted(None),
            n_models_built: 0,
            project_revision: String::new(),
        }
    }
}

/// The configuration of a Gordo's models, carried to the workflow generator.
#[derive(Debug)]
pub struct GordoConfig {
    pub models: Vec<serde_json::Value>,
    pub globals: Option<serde_json::Value>,
}

impl GordoConfig {
    /// Count of models defined in this config.
    pub fn n_models(&self) -> (r: usize)
        ensures
            r == self.models@.len(),
    {
        self.models.len()
    }
}

/// The spec of a Gordo.
#[derive(Debug)]
pub struct ConfigMapGeneratorSpec {
    pub deploy_version: String,
    pub deploy_environment: Option<Vec<(String, String)>>,
    pub deploy_repository: Option<String>,
    pub docker_registry: Option<String>,
    pub debug_show_workflow: Option<bool>,
    pub config: GordoConfig,
}

/// A Gordo project.
#[derive(Debug)]
pub struct Gordo {
    pub metadata: ObjectMeta,
    pub spec: ConfigMapGeneratorSpec,
    pub status: Option<GordoStatus>,
}

/// The generation of a Gordo as its submission status records it.
pub open spec fn generation_number(g: Gordo) -> GenerationNumber {
    match g.metadata.generation {
        Some(v) => Some(v as u32),
        None => None,
    }
}

/// The generation of `gordo` as its submission status records it.
pub fn gordo_generation(gordo: &Gordo) -> (r: GenerationNumber)
    ensures
        r == generation_number(*gordo),
{
    match gordo.metadata.generation {
        Some(v) => Some(v as u32),
        None => None,
    }
}

/// Whether a Gordo calls for a new deploy job: it has no status, or its spec has
/// changed since the last submission.
pub open spec fn needs_deploy(g: Gordo) -> bool {
    match g.status {
        None => true,
        Some(s) => match s.submission_status {
            GordoSubmissionStatus::Submitted(generation) => generation != generation_number(g),
        },
    }
}

/// Whether `gordo` calls for a new deploy job.
pub fn should_deploy(gordo: &Gordo) -> (r: bool)
    ensures
        r == needs_deploy(*gordo),
{
    match &gordo.status {
        None => true,
        Some(s) => match s.submission_status {
            GordoSubmissionStatus::Submitted(generation) => generation != gordo_generation(gordo),
        },
    }
}

/// The status a Gordo is read with: its own, or the default where it has none.
pub open spec fn current_status(g: Gordo) -> GordoStatusView {
    match g.status {
        Some(s) => s@,
        None => GordoStatusView {
            n_models: 0,
            submission_status: GordoSubmissionStatus::Submitted(None),
            n_models_built: 0,
            project_revision: Seq::empty(),
        },
    }
}

/// A Gordo's status, refreshed: its model count from its spec, submitted at its
/// generation, with its count of built models and revision kept.
pub open spec fn refreshed_status(g: Gordo) -> GordoStatusView {
    GordoStatusView {
        n_models: g.spec.config.models@.len(),
        submission_status: GordoSubmissionStatus::Submitted(generation_number(g)),
        n_models_built: current_status(g).n_models_built,
        project_revision: current_status(g).project_revision,
    }
}

impl GordoStatus {
    /// The status of `gordo`, refreshed from its spec and generation.
    pub fn from_gordo(gordo: &Gordo) -> (r: GordoStatus)
        ensures
            r@ == refreshed_status(*gordo),
    {
        let (n_models_built, project_revision) = match &gordo.status {
            Some(s) => (s.n_models_built, s.project_revision.clone()),
            None => (0, String::new()),
        };
        GordoStatus {
            n_models: gordo.spec.config.n_models(),
            submission_status: GordoSubmissionStatus::Submitted(gordo_generation(gordo)),
            n_models_built,
            project_revision,
        }
    }
}

/// The status of a Gordo whose deploy job was created under `revision`.
pub open spec fn submitted_status(g: Gordo, revision: Seq<char>) -> GordoStatusView {
    GordoStatusView { project_revision: revision, ..refreshed_status(g) }
}

/// The status to write once a deploy job for `gordo` was created under `revision`.
pub fn deployed_status(gordo: &Gordo, revision: String) -> (r: GordoStatus)
    ensures
        r@ == submitted_status(*gordo, revision@),
{
    let mut status = GordoStatus::from_gordo(gordo);
    status.project_revision = revision;
    status
}

/// Whether one of `refs` names a Gordo called `name`.
pub open spec fn owned_by(refs: Seq<OwnerReference>, name: Seq<char>) -> bool {
    exists|i: int| 0 <= i < refs.len() && (#[trigger] refs[i]).kind@ == GORDO_KIND@ && refs[i].name@ == name
}

/// The project revision a Model carries: its `project-revision` label, or else its
/// legacy `project-version` label.
pub open spec fn model_revision(m: Model) -> Option<Seq<char>> {
    match label_of(m.metadata.labels@, PROJECT_REVISION_LABEL@) {
        Some(r) => Some(r),
        None => label_of(m.metadata.labels@, PROJECT_VERSION_LABEL@),
    }
}

/// Whether a Model belongs to a Gordo as it stands: the Gordo owns it, and the
/// Model carries the Gordo's current project revision.
pub open spec fn belongs_to(m: Model, g: Gordo) -> bool {
    match (g.metadata.name, g.status) {
        (Some(name), Some(s)) => owned_by(m.metadata.owner_references@, name@) && model_revision(m) == Some(s.project_revision@),
        _ => false,
    }
}

/// Whether a Model has been built.
pub open spec fn model_succeeded(m: Model) -> bool {
    match m.status {
        Some(s) => s.phase == ModelPhase::Succeeded,
        None => false,
    }
}

/// The Models of `models` that belong to `g`, in their order.
pub open spec fn gordo_models(g: Gordo, models: Seq<Model>) -> Seq<Model> {
    models.filter(|m: Model| belongs_to(m, g))
}

/// How many of `models` belong to `g` and have been built.
pub open spec fn built_count(g: Gordo, models: Seq<Model>) -> nat {
    models.filter(|m: Model| belongs_to(m, g) && model_succeeded(m)).len()
}

fn is_owned_by(refs: &Vec<OwnerReference>, name: &String) -> (r: bool)
    ensures
        r == owned_by(refs@, name@),
{
    let kind = String::from_str(GORDO_KIND);
    let mut i: usize = 0;
    while i < refs.len()
        invariant
            i <= refs@.len(),
            kind@ == GORDO_KIND@,
            forall|j: int| 0 <= j < i ==> !((#[trigger] refs@[j]).kind@ == GORDO_KIND@ && refs@[j].name@ == name@),
        decreases refs.len() - i,
    {
        if refs[i].kind == kind && refs[i].name == *name {
            return true;
        }
        i = i + 1;
    }
    false
}

fn revision_label(m: &Model) -> (r: Option<String>)
    ensures
        opt_view(r) == model_revision(*m),
{
    match label_value(&m.metadata.labels, PROJECT_REVISION_LABEL) {
        Some(r) => Some(r),
        None => label_value(&m.metadata.labels, PROJECT_VERSION_LABEL),
    }
}

fn model_belongs_to(m: &Model, gordo: &Gordo) -> (r: bool)
    ensures
        r == belongs_to(*m, *gordo),
{
    match (&gordo.metadata.name, &gordo.status) {
        (Some(name), Some(s)) => {
            if !is_owned_by(&m.metadata.owner_references, name) {
                return false;
            }
            match revision_label(m) {
                Some(rev) => rev == s.project_revision,
                None => false,
            }
        },
        _ => false,
    }
}

/// The Models of `models` that belong to `gordo`: owned by it, and at its current
/// project revision.
pub fn filter_models_on_gordo<'a>(gordo: &Gordo, models: &'a Vec<Model>) -> (r: Vec<&'a Model>)
    ensures
        r@.map_values(|m: &Model| *m) == gordo_models(*gordo, models@),
{
    let ghost pred = |m: Model| belongs_to(m, *gordo);
    let mut r: Vec<&'a Model> = Vec::new();
    let mut i: usize = 0;
    while i < models.len()
        invariant
            i <= models@.len(),
            pred == (|m: Model| belongs_to(m, *gordo)),
            r@.map_values(|m: &Model| *m) == models@.subrange(0, i as int).filter(pred),
        decreases models.len() - i,
    {
        let m = &models[i];
        if model_belongs_to(m, gordo) {
            r.push(m);
        }
        proof {
            let s = models@.subrange(0, i + 1);
            assert(s.drop_last() =~= models@.subrange(0, i as int));
            reveal(Seq::filter);
            assert(r@.map_values(|m: &Model| *m) =~= s.filter(pred));
        }
        i = i + 1;
    }
    assert(models@.subrange(0, models@.len() as int) =~= models@);
    r
}

/// How many of `models` belong to `gordo` and have been built.
pub fn count_models_built(gordo: &Gordo, models: &Vec<Model>) -> (r: usize)
    ensures
        r == built_count(*gordo, models@),
{
    let ghost pred = |m: Model| belongs_to(m, *gordo) && model_succeeded(m);
    let mut n: usize = 0;
    let mut i: usize = 0;
    while i < models.len()
        invariant
            i <= models@.len(),
            pred == (|m: Model| belongs_to(m, *gordo) && model_succeeded(m)),
            n == models@.subrange(0, i as int).filter(pred).len(),
        decreases models.len() - i,
    {
        let m = &models[i];
        proof {
            let s = models@.subrange(0, i + 1);
            assert(s.drop_last() =~= models@.subrange(0, i as int));
            reveal(Seq::filter);
            models@.subrange(0, i as int).lemma_filter_len(pred);
        }
        let built = match &m.status {
            Some(s) => s.phase == ModelPhase::Succeeded,
            None => false,
        };
        if built && model_belongs_to(m, gordo) {
            n = n + 1;
        }
        i = i + 1;
    }
    assert(models@.subrange(0, models@.len() as int) =~= models@);
    n
}

/// The status a Gordo's count of built models calls for, where it differs from the
/// one it has.
pub open spec fn built_update(g: Gordo, models: Seq<Model>) -> Option<GordoStatusView> {
    if current_status(g).n_models_built != built_count(g, models) {
        Some(GordoStatusView { n_models_built: built_count(g, models), ..refreshed_status(g) })
    } else {
        None
    }
}

/// The status to write where the count of built models of `gordo` has changed.
pub fn gordo_built_update(gordo: &Gordo, models: &Vec<Model>) -> (r: Option<GordoStatus>)
    ensures
        match r {
            Some(s) => built_update(*gordo, models@) == Some(s@),
            None => built_update(*gordo, models@) is None,
        },
{
    let n = count_models_built(gordo, models);
    let current = match &gordo.status {
        Some(s) => s.n_models_built,
        None => 0,
    };
    if current != n {
        let mut status = GordoStatus::from_gordo(gordo);
        status.n_models_built = n;
        Some(status)
    } else {
        None
    }
}

/// The name of the first Gordo among `refs`.
pub open spec fn first_gordo_owner(refs: Seq<OwnerReference>) -> Option<Seq<char>>
    decreases refs.len(),
{
    if refs.len() == 0 {
        None
    } else if refs[0].kind@ == GORDO_KIND@ {
        Some(refs[0].name@)
    } else {
        first_gordo_owner(refs.drop_first())
    }
}

/// The name of the Gordo that owns `model`, if one does.
pub fn get_model_project(model: &Model) -> (r: Option<String>)
    ensures
        opt_view(r) == first_gordo_owner(model.metadata.owner_references@),
{
    let kind = String::from_str(GORDO_KIND);
    let ghost refs = model.metadata.owner_references@;
    let mut i: usize = 0;
    assert(refs.subrange(0, refs.len() as int) =~= refs);
    while i < model.metadata.owner_references.len()
        invariant
            i <= refs.len(),
            refs == model.metadata.owner_references@,
            kind@ == GORDO_KIND@,
            first_gordo_owner(refs) == first_gordo_owner(refs.subrange(i as int, refs.len() as int)),
        decreases refs.len() - i,
    {
        let owner = &model.metadata.owner_references[i];
        assert(refs.subrange(i as int, refs.len() as int).drop_first() =~= refs.subrange(i + 1, refs.len() as int));
        assert(refs.subrange(i as int, refs.len() as int)[0] == refs[i as int]);
        if owner.kind == kind {
            return Some(owner.name.clone());
        }
        i = i + 1;
    }
    None
}

/// Once the status of a submitted deploy is written, the Gordo calls for no new
/// deploy until its generation changes.
pub proof fn lemma_deploy_settles(g: Gordo, next: Gordo, revision: Seq<char>)
    requires
        next.metadata == g.metadata,
        next.status is Some,
        next.status->0@ == submitted_status(g, revision),
    ensures
        !needs_deploy(next),
{
}

/// After a submission the status records the Gordo's generation and the number of
/// models in its spec.
pub proof fn lemma_submission_tracks_generation(g: Gordo, revision: Seq<char>)
    ensures
        submitted_status(g, revision).submission_status == GordoSubmissionStatus::Submitted(generation_number(g)),
        submitted_status(g, revision).n_models == g.spec.config.models@.len(),
        submitted_status(g, revision).project_revision == revision,
{
}

/// Once a changed count of built models is written, the same Models call for no
/// further change. The Gordo had a status before, so that it is judged at the same
/// revision both times.
pub proof fn lemma_built_update_settles(g: Gordo, next: Gordo, models: Seq<Model>)
    requires
        g.status is Some,
        next.metadata == g.metadata,
        next.spec == g.spec,
        next.status is Some,
        built_update(g, models) is Some,
        next.status->0@ == built_update(g, models)->0,
    ensures
        built_update(next, models) is None,
{
    let p1 = |m: Model| belongs_to(m, g) && model_succeeded(m);
    let p2 = |m: Model| belongs_to(m, next) && model_succeeded(m);
    assert(p1 =~= p2);
}

/// The status written for the count of built models holds the number of models in
/// the spec and the number of Models that belong to the Gordo and have been built.
pub proof fn lemma_built_update_counts(g: Gordo, models: Seq<Model>)
    requires
        built_update(g, models) is Some,
    ensures
        built_update(g, models)->0.n_models == g.spec.config.models@.len(),
        built_update(g, models)->0.n_models_built == built_count(g, models),
        built_count(g, models) == gordo_models(g, models).filter(|m: Model| model_succeeded(m)).len(),
{
    let p = |m: Model| belongs_to(m, g) && model_succeeded(m);
    let q = |m: Model| belongs_to(m, g);
    let r = |m: Model| model_succeeded(m);
    lemma_filter_and(models, q, r);
    assert(p =~= (|m: Model| q(m) && r(m)));
}

proof fn lemma_filter_and(s: Seq<Model>, q: spec_fn(Model) -> bool, r: spec_fn(Model) -> bool)
    ensures
        s.filter(|m: Model| q(m) && r(m)) == s.filter(q).filter(r),
    decreases s.len(),
{
    reveal(Seq::filter);
    if s.len() > 0 {
        lemma_filter_and(s.drop_last(), q, r);
        let pq = |m: Model| q(m) && r(m);
        if q(s.last()) {
            assert(s.filter(q).drop_last() =~= s.drop_last().filter(q));
            assert(s.filter(q).last() == s.last());
        } else {
            assert(s.filter(q) == s.drop_last().filter(q));
        }
    }
}

} // verus!

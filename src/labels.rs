//! Object metadata, label lists and lookups by key.

use vstd::prelude::*;

verus! {

/// Label of a Model, Workflow or Pod: name of the Gordo project.
pub const PROJECT_NAME_LABEL: &'static str = "applications.gordo.equinor.com/project-name";

/// Label of a Model, Workflow or Pod: revision of the deploy that made it.
pub const PROJECT_REVISION_LABEL: &'static str = "applications.gordo.equinor.com/project-revision";

/// Legacy name of the revision label, read when the new one is absent.
pub const PROJECT_VERSION_LABEL: &'static str = "applications.gordo.equinor.com/project-version";

/// Label of a Model or Pod: name of the model within the project.
pub const MODEL_NAME_LABEL: &'static str = "applications.gordo.equinor.com/model-name";

/// Optional label of a Model or Workflow: number of the workflow.
pub const PROJECT_WORKFLOW_LABEL: &'static str = "applications.gordo.equinor.com/project-workflow";

/// A reference from an object to the object that owns it.
#[derive(Debug)]
pub struct OwnerReference {
    pub api_version: String,
    pub kind: String,
    pub name: String,
    pub uid: String,
    pub controller: Option<bool>,
    pub block_owner_deletion: Option<bool>,
}

/// The metadata that the controller reads of any object.
/// Labels are kept in the order they were set; an absent label map is empty.
#[derive(Debug)]
pub struct ObjectMeta {
    pub name: Option<String>,
    pub namespace: Option<String>,
    pub uid: Option<String>,
    pub generation: Option<i64>,
    pub labels: Vec<(String, String)>,
    pub owner_references: Vec<OwnerReference>,
}

/// The value under `key`; a later entry overrides an earlier one with the same key,
/// as in a map filled by successive inserts.
pub open spec fn label_of(labels: Seq<(String, String)>, key: Seq<char>) -> Option<Seq<char>>
    decreases labels.len(),
{
    if labels.len() == 0 {
        None
    } else if labels.last().0@ == key {
        Some(labels.last().1@)
    } else {
        label_of(labels.drop_last(), key)
    }
}

/// View of an optional string.
pub open spec fn opt_view(o: Option<String>) -> Option<Seq<char>> {
    match o {
        Some(s) => Some(s@),
        None => None,
    }
}

/// Looks up the value under `key`.
pub fn label_value(labels: &Vec<(String, String)>, key: &str) -> (r: Option<String>)
    ensures
        opt_view(r) == label_of(labels@, key@),
{
    let k = String::from_str(key);
    let mut i: usize = labels.len();
    assert(labels@.subrange(0, i as int) =~= labels@);
    while i > 0
        invariant
            i <= labels@.len(),
            k@ == key@,
            label_of(labels@, key@) == label_of(labels@.subrange(0, i as int), key@),
        decreases i,
    {
        let ghost prefix = labels@.subrange(0, i as int);
        assert(prefix.drop_last() =~= labels@.subrange(0, i - 1));
        if labels[i - 1].0 == k {
            return Some(labels[i - 1].1.clone());
        }
        i = i - 1;
    }
    None
}

/// A copy of an optional string.
pub fn copy_opt_string(o: &Option<String>) -> (r: Option<String>)
    ensures
        r == *o,
{
    match o {
        Some(s) => Some(s.clone()),
        None => None,
    }
}

/// Whether two optional strings are equal.
pub fn opt_string_eq(a: &Option<String>, b: &Option<String>) -> (r: bool)
    ensures
        r == (opt_view(*a) == opt_view(*b)),
{
    match a {
        Some(x) => match b {
            Some(y) => {
                let e: bool = *x == *y;
                e
            },
            None => false,
        },
        None => b.is_none(),
    }
}

/// Whether a label has the same value, or is absent, in both lists.
pub fn same_label(a: &Vec<(String, String)>, b: &Vec<(String, String)>, key: &str) -> (r: bool)
    ensures
        r == (label_of(a@, key@) == label_of(b@, key@)),
{
    let x = label_value(a, key);
    let y = label_value(b, key);
    opt_string_eq(&x, &y)
}

/// Key-value pairs, with strings as sequences of characters.
pub open spec fn pairs_view(v: Seq<(String, String)>) -> Seq<(Seq<char>, Seq<char>)> {
    v.map_values(|p: (String, String)| (p.0@, p.1@))
}

/// Whether `i` is the first entry of `kv` under `k`.
pub open spec fn first_key_at(kv: Seq<(Seq<char>, Seq<char>)>, k: Seq<char>, i: int) -> bool {
    &&& 0 <= i < kv.len()
    &&& kv[i].0 == k
    &&& forall|j: int| 0 <= j < i ==> kv[j].0 != k
}

/// `kv` with `k` set to `v`: the first entry under `k` takes the value in its place,
/// or the pair is appended where there is none.
pub open spec fn set_entry(kv: Seq<(Seq<char>, Seq<char>)>, k: Seq<char>, v: Seq<char>) -> Seq<(Seq<char>, Seq<char>)> {
    if exists|i: int| first_key_at(kv, k, i) {
        kv.update(choose|i: int| first_key_at(kv, k, i), (k, v))
    } else {
        kv.push((k, v))
    }
}

/// `kv` with each of `entries` set in turn, so that a later entry overrides an earlier one.
pub open spec fn set_entries(kv: Seq<(Seq<char>, Seq<char>)>, entries: Seq<(Seq<char>, Seq<char>)>) -> Seq<(Seq<char>, Seq<char>)>
    decreases entries.len(),
{
    if entries.len() == 0 {
        kv
    } else {
        let e = entries.last();
        set_entry(set_entries(kv, entries.drop_last()), e.0, e.1)
    }
}

/// Sets `k` to `v` in `kv`, in place where `k` has an entry, else at the end.
pub fn set_pair(kv: &mut Vec<(String, String)>, k: String, v: String)
    ensures
        pairs_view(final(kv)@) == set_entry(pairs_view(old(kv)@), k@, v@),
{
    let ghost before = pairs_view(kv@);
    let mut i: usize = 0;
    while i < kv.len()
        invariant
            i <= kv@.len(),
            kv@ == old(kv)@,
            before == pairs_view(kv@),
            forall|j: int| 0 <= j < i ==> before[j].0 != k@,
        decreases kv.len() - i,
    {
        if kv[i].0 == k {
            proof {
                assert(first_key_at(before, k@, i as int));
                let c = choose|c: int| first_key_at(before, k@, c);
                assert(c == i) by {
                    if c < i {
                        assert(before[c].0 != k@);
                    } else if c > i {
                        assert(before[i as int].0 != k@);
                    }
                }
            }
            kv[i] = (k, v);
            assert(pairs_view(kv@) =~= set_entry(before, k@, v@));
            return;
        }
        i = i + 1;
    }
    kv.push((k, v));
    assert(pairs_view(kv@) =~= set_entry(before, k@, v@));
}

/// Sets each of `entries` in turn in `kv`.
pub fn set_pairs(kv: &mut Vec<(String, String)>, entries: &Vec<(String, String)>)
    ensures
        pairs_view(final(kv)@) == set_entries(pairs_view(old(kv)@), pairs_view(entries@)),
{
    let ghost start = pairs_view(kv@);
    let mut i: usize = 0;
    while i < entries.len()
        invariant
            i <= entries@.len(),
            pairs_view(kv@) == set_entries(start, pairs_view(entries@.subrange(0, i as int))),
        decreases entries.len() - i,
    {
        proof {
            assert(pairs_view(entries@.subrange(0, i + 1)).drop_last() =~= pairs_view(entries@.subrange(0, i as int)));
        }
        set_pair(kv, entries[i].0.clone(), entries[i].1.clone());
        i = i + 1;
    }
    assert(entries@.subrange(0, entries@.len() as int) =~= entries@);
}

/// A reference to the object with metadata `meta`, of the given API version and
/// kind; the error names the key that `meta` lacks.
pub fn object_to_owner_reference(meta: &ObjectMeta, api_version: &str, kind: &str) -> (r: Result<OwnerReference, String>)
    ensures
        match r {
            Ok(o) => {
                &&& meta.name is Some && meta.uid is Some
                &&& o.api_version@ == api_version@
                &&& o.kind@ == kind@
                &&& o.name@ == meta.name->0@
                &&& o.uid@ == meta.uid->0@
                &&& o.controller is None
                &&& o.block_owner_deletion is None
            },
            Err(key) => if meta.name is None {
                key@ == ".metadata.name"@
            } else {
                meta.uid is None && key@ == ".metadata.uid"@
            },
        },
{
    let name = match &meta.name {
        Some(n) => n.clone(),
        None => {
            return Err(String::from_str(".metadata.name"));
        },
    };
    let uid = match &meta.uid {
        Some(u) => u.clone(),
        None => {
            return Err(String::from_str(".metadata.uid"));
        },
    };
    Ok(OwnerReference {
        api_version: String::from_str(api_version),
        kind: String::from_str(kind),
        name,
        uid,
        controller: None,
        block_owner_deletion: None,
    })
}

} // verus!

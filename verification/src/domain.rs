//! Inventory value types read from a hosting instance, and the lookup
//! helpers the migration engine uses over them.
//!
//! Groups are identified across instances by `full_path`; projects by the
//! triple (name, owning group name, owning group full path).  Ids are
//! instance-local and are never compared across instances.

use vstd::prelude::*;

verus! {

/// A group as listed by a hosting instance.
#[derive(Clone, Debug, PartialEq)]
pub struct GitLabGroup {
    pub id: u32,
    pub parent_id: Option<u32>,
    pub name: String,
    pub path: String,
    pub full_path: String,
    pub visibility: String,
}

/// The owning group of a project, as embedded in a project listing.
#[derive(Clone, Debug, PartialEq)]
pub struct GitLabNamespace {
    pub id: u32,
    pub name: String,
    pub path: String,
    pub full_path: String,
}

/// A project as listed by a hosting instance.
#[derive(Clone, Debug, PartialEq)]
pub struct GitLabProject {
    pub id: u32,
    pub name: String,
    pub path: String,
    pub visibility: String,
    pub namespace: GitLabNamespace,
}

/// A branch of a project's repository; used only as an existence probe.
#[derive(Clone, Debug, PartialEq)]
pub struct GitLabRepositoryBranch {
    pub name: String,
}

/// An equal copy of a project, built field by field.
pub fn clone_project(p: &GitLabProject) -> (r: GitLabProject)
    ensures
        r == *p,
{
    let r = GitLabProject {
        id: p.id,
        name: p.name.clone(),
        path: p.path.clone(),
        visibility: p.visibility.clone(),
        namespace: GitLabNamespace {
            id: p.namespace.id,
            name: p.namespace.name.clone(),
            path: p.namespace.path.clone(),
            full_path: p.namespace.full_path.clone(),
        },
    };
    proof {
        assert(r == *p);
    }
    r
}

/// Whether some group in `groups` has the given full path.
pub open spec fn has_group_with_full_path(groups: Seq<GitLabGroup>, full_path: Seq<char>) -> bool {
    exists|i: int| 0 <= i < groups.len() && #[trigger] groups[i].full_path@ == full_path
}

/// Whether some group in `groups` has the given id.
pub open spec fn has_group_with_id(groups: Seq<GitLabGroup>, id: u32) -> bool {
    exists|i: int| 0 <= i < groups.len() && #[trigger] groups[i].id == id
}

/// Index of the first group at or after `from` whose full path is `full_path`.
pub open spec fn first_group_with_full_path(
    groups: Seq<GitLabGroup>,
    full_path: Seq<char>,
    from: int,
) -> Option<int>
    decreases groups.len() - from,
{
    if from < 0 || from >= groups.len() {
        None
    } else if groups[from].full_path@ == full_path {
        Some(from)
    } else {
        first_group_with_full_path(groups, full_path, from + 1)
    }
}

/// Index of the first group at or after `from` whose id is `id`.
pub open spec fn first_group_with_id(groups: Seq<GitLabGroup>, id: u32, from: int) -> Option<int>
    decreases groups.len() - from,
{
    if from < 0 || from >= groups.len() {
        None
    } else if groups[from].id == id {
        Some(from)
    } else {
        first_group_with_id(groups, id, from + 1)
    }
}

/// Index of the first root group (one without a parent) at or after `from`
/// whose id is `id`.
pub open spec fn first_root_group_with_id(groups: Seq<GitLabGroup>, id: u32, from: int) -> Option<
    int,
>
    decreases groups.len() - from,
{
    if from < 0 || from >= groups.len() {
        None
    } else if groups[from].parent_id is None && groups[from].id == id {
        Some(from)
    } else {
        first_root_group_with_id(groups, id, from + 1)
    }
}

/// What `first_group_with_full_path` returns: the first match, if any.
pub proof fn lemma_first_group_with_full_path(
    groups: Seq<GitLabGroup>,
    full_path: Seq<char>,
    from: int,
)
    requires
        0 <= from,
    ensures
        match first_group_with_full_path(groups, full_path, from) {
            Some(i) => {
                &&& from <= i < groups.len()
                &&& groups[i].full_path@ == full_path
                &&& forall|j: int| from <= j < i ==> #[trigger] groups[j].full_path@ != full_path
            },
            None => forall|j: int|
                from <= j < groups.len() ==> #[trigger] groups[j].full_path@ != full_path,
        },
    decreases groups.len() - from,
{
    if from < 0 || from >= groups.len() {
    } else if groups[from].full_path@ == full_path {
    } else {
        lemma_first_group_with_full_path(groups, full_path, from + 1);
    }
}

/// What `first_group_with_id` returns: the first match, if any.
pub proof fn lemma_first_group_with_id(groups: Seq<GitLabGroup>, id: u32, from: int)
    requires
        0 <= from,
    ensures
        match first_group_with_id(groups, id, from) {
            Some(i) => {
                &&& from <= i < groups.len()
                &&& groups[i].id == id
                &&& forall|j: int| from <= j < i ==> #[trigger] groups[j].id != id
            },
            None => forall|j: int| from <= j < groups.len() ==> #[trigger] groups[j].id != id,
        },
    decreases groups.len() - from,
{
    if from < 0 || from >= groups.len() {
    } else if groups[from].id == id {
    } else {
        lemma_first_group_with_id(groups, id, from + 1);
    }
}

/// What `first_root_group_with_id` returns: the first match, if any.
pub proof fn lemma_first_root_group_with_id(groups: Seq<GitLabGroup>, id: u32, from: int)
    requires
        0 <= from,
    ensures
        match first_root_group_with_id(groups, id, from) {
            Some(i) => {
                &&& from <= i < groups.len()
                &&& groups[i].parent_id is None
                &&& groups[i].id == id
                &&& forall|j: int|
                    from <= j < i ==> !(#[trigger] groups[j].parent_id is None && groups[j].id
                        == id)
            },
            None => forall|j: int|
                from <= j < groups.len() ==> !(#[trigger] groups[j].parent_id is None
                    && groups[j].id == id),
        },
    decreases groups.len() - from,
{
    if from < 0 || from >= groups.len() {
    } else if groups[from].parent_id is None && groups[from].id == id {
    } else {
        lemma_first_root_group_with_id(groups, id, from + 1);
    }
}

/// A group with the full path exists if and only if the search finds one.
pub proof fn lemma_has_full_path_iff_found(groups: Seq<GitLabGroup>, full_path: Seq<char>)
    ensures
        has_group_with_full_path(groups, full_path) <==> first_group_with_full_path(
            groups,
            full_path,
            0,
        ) is Some,
{
    lemma_first_group_with_full_path(groups, full_path, 0);
    if first_group_with_full_path(groups, full_path, 0) is None {
        assert(forall|i: int|
            0 <= i < groups.len() ==> #[trigger] groups[i].full_path@ != full_path);
    }
}

/// First index in `groups` of a group with the given full path, if any.
pub fn find_group_by_full_path(groups: &Vec<GitLabGroup>, full_path: &String) -> (r: Option<
    usize,
>)
    ensures
        match r {
            Some(i) => first_group_with_full_path(groups@, full_path@, 0) == Some(i as int),
            None => first_group_with_full_path(groups@, full_path@, 0) is None,
        },
{
    let mut i: usize = 0;
    while i < groups.len()
        invariant
            i <= groups@.len(),
            first_group_with_full_path(groups@, full_path@, 0) == first_group_with_full_path(
                groups@,
                full_path@,
                i as int,
            ),
        decreases groups@.len() - i,
    {
        if groups[i].full_path == *full_path {
            return Some(i);
        }
        i += 1;
    }
    None
}

/// First index in `groups` of a group with the given id, if any.
pub fn find_group_by_id(groups: &Vec<GitLabGroup>, id: u32) -> (r: Option<usize>)
    ensures
        match r {
            Some(i) => first_group_with_id(groups@, id, 0) == Some(i as int),
            None => first_group_with_id(groups@, id, 0) is None,
        },
{
    let mut i: usize = 0;
    while i < groups.len()
        invariant
            i <= groups@.len(),
            first_group_with_id(groups@, id, 0) == first_group_with_id(groups@, id, i as int),
        decreases groups@.len() - i,
    {
        if groups[i].id == id {
            return Some(i);
        }
        i += 1;
    }
    None
}

/// First index in `groups` of a root group (no parent) with the given id.
pub fn find_root_group_by_id(groups: &Vec<GitLabGroup>, id: u32) -> (r: Option<usize>)
    ensures
        match r {
            Some(i) => first_root_group_with_id(groups@, id, 0) == Some(i as int),
            None => first_root_group_with_id(groups@, id, 0) is None,
        },
{
    let mut i: usize = 0;
    while i < groups.len()
        invariant
            i <= groups@.len(),
            first_root_group_with_id(groups@, id, 0) == first_root_group_with_id(
                groups@,
                id,
                i as int,
            ),
        decreases groups@.len() - i,
    {
        if groups[i].parent_id.is_none() && groups[i].id == id {
            return Some(i);
        }
        i += 1;
    }
    None
}

/// The names of the given branches, in order.
pub fn branch_names(branches: &Vec<GitLabRepositoryBranch>) -> (r: Vec<String>)
    ensures
        r@.len() == branches@.len(),
        forall|i: int| 0 <= i < r@.len() ==> #[trigger] r@[i]@ == branches@[i].name@,
{
    let mut names: Vec<String> = Vec::new();
    let mut i: usize = 0;
    while i < branches.len()
        invariant
            i <= branches@.len(),
            names@.len() == i,
            forall|j: int| 0 <= j < i ==> #[trigger] names@[j]@ == branches@[j].name@,
        decreases branches@.len() - i,
    {
        names.push(branches[i].name.clone());
        i += 1;
    }
    names
}

} // verus!

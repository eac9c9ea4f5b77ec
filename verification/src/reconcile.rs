//! Group tree reconciliation: compute which source groups are missing on the
//! target instance, in parent-before-child order.
//!
//! Reconciliation runs in two passes.  The first pass plans the creation of
//! every source root group (one without a parent) whose full path is absent
//! from the target.  After the caller has executed those creations and
//! re-fetched the target's groups (their target-assigned ids are needed), the
//! second pass plans the creation of every missing child group under its
//! target parent.  A child whose source parent cannot be found among the
//! source roots, or whose parent has no counterpart on the target, is a
//! structural failure for that one child: it is reported and skipped, and
//! reconciliation continues with its siblings.

use vstd::prelude::*;

use crate::domain::GitLabGroup;
use crate::domain::first_group_with_full_path;
use crate::domain::first_root_group_with_id;
use crate::domain::has_group_with_full_path;
use crate::domain::has_group_with_id;
use crate::domain::find_group_by_full_path;
use crate::domain::find_root_group_by_id;
use crate::domain::lemma_first_group_with_full_path;
use crate::domain::lemma_first_root_group_with_id;
use crate::domain::lemma_has_full_path_iff_found;

verus! {

/// One group creation the target instance still needs: create a private
/// group with this name and path, under the target group with id
/// `parent_id`, or at the root when `parent_id` is `None`.
#[derive(Clone, Debug, PartialEq)]
pub struct GroupCreation {
    pub name: String,
    pub path: String,
    pub parent_id: Option<u32>,
}

/// A structural failure for one child group during the second pass; the
/// child is skipped and reconciliation continues.
#[derive(Clone, Debug, PartialEq)]
pub enum ChildGroupIssue {
    /// No root group with the child's `parent_id` exists in the source set.
    SourceParentMissing { full_path: String, parent_id: u32 },
    /// The parent root group has no counterpart on the target instance.
    TargetParentMissing { full_path: String, parent_full_path: String },
}

/// The planned creation for one source root group: skipped when a target
/// group already has its full path.
pub open spec fn spec_root_entry(g: GitLabGroup, target: Seq<GitLabGroup>) -> Option<
    GroupCreation,
> {
    if g.parent_id is None && !has_group_with_full_path(target, g.full_path@) {
        Some(GroupCreation { name: g.name, path: g.path, parent_id: None })
    } else {
        None
    }
}

/// The root-pass plan over the source groups from index `from` on.
pub open spec fn spec_root_plan_from(
    source: Seq<GitLabGroup>,
    target: Seq<GitLabGroup>,
    from: int,
) -> Seq<GroupCreation>
    decreases source.len() - from,
{
    if from < 0 || from >= source.len() {
        Seq::empty()
    } else {
        match spec_root_entry(source[from], target) {
            Some(c) => seq![c] + spec_root_plan_from(source, target, from + 1),
            None => spec_root_plan_from(source, target, from + 1),
        }
    }
}

/// The root-pass plan: one creation, in source order, for every source root
/// group whose full path is absent from the target.
pub open spec fn spec_root_plan(source: Seq<GitLabGroup>, target: Seq<GitLabGroup>) -> Seq<
    GroupCreation,
> {
    spec_root_plan_from(source, target, 0)
}

/// How the second pass classifies one child group (one with a parent id)
/// against the source set and the refreshed target snapshot.
#[derive(Clone, Debug, PartialEq)]
pub enum ChildClass {
    /// The target already has a group with the child's full path.
    AlreadyPresent,
    /// The child is missing and its target parent is resolved: create it.
    Create { creation: GroupCreation },
    /// No source root group carries the child's parent id.
    SourceParentMissing,
    /// The parent root group has no counterpart on the target.
    TargetParentMissing { parent_full_path: String },
}

/// Classification of a child group `g` with parent id `parent_id`: present,
/// creatable under its resolved target parent, or a structural failure.
pub open spec fn spec_classify_child(
    g: GitLabGroup,
    source: Seq<GitLabGroup>,
    target: Seq<GitLabGroup>,
    parent_id: u32,
) -> ChildClass {
    if has_group_with_full_path(target, g.full_path@) {
        ChildClass::AlreadyPresent
    } else {
        match first_root_group_with_id(source, parent_id, 0) {
            None => ChildClass::SourceParentMissing,
            Some(pi) => {
                let parent = source[pi];
                match first_group_with_full_path(target, parent.full_path@, 0) {
                    None => ChildClass::TargetParentMissing {
                        parent_full_path: parent.full_path,
                    },
                    Some(ti) => ChildClass::Create {
                        creation: GroupCreation {
                            name: g.name,
                            path: g.path,
                            parent_id: Some(target[ti].id),
                        },
                    },
                }
            },
        }
    }
}

/// The issue reported for one child group, if its classification is a
/// structural failure.
pub open spec fn spec_child_issue_entry(
    g: GitLabGroup,
    source: Seq<GitLabGroup>,
    target: Seq<GitLabGroup>,
    parent_id: u32,
) -> Option<ChildGroupIssue> {
    match spec_classify_child(g, source, target, parent_id) {
        ChildClass::SourceParentMissing => Some(
            ChildGroupIssue::SourceParentMissing { full_path: g.full_path, parent_id },
        ),
        ChildClass::TargetParentMissing { parent_full_path } => Some(
            ChildGroupIssue::TargetParentMissing { full_path: g.full_path, parent_full_path },
        ),
        _ => None,
    }
}

/// The child-pass plan over the source groups from index `from` on: the
/// creations for every child classified as `Create`, in source order.
pub open spec fn spec_child_plan_from(
    source: Seq<GitLabGroup>,
    target: Seq<GitLabGroup>,
    from: int,
) -> Seq<GroupCreation>
    decreases source.len() - from,
{
    if from < 0 || from >= source.len() {
        Seq::empty()
    } else {
        let rest = spec_child_plan_from(source, target, from + 1);
        match source[from].parent_id {
            Some(pid) => match spec_classify_child(source[from], source, target, pid) {
                ChildClass::Create { creation } => seq![creation] + rest,
                _ => rest,
            },
            None => rest,
        }
    }
}

/// The child-pass plan against the refreshed target snapshot.
pub open spec fn spec_child_plan(source: Seq<GitLabGroup>, target: Seq<GitLabGroup>) -> Seq<
    GroupCreation,
> {
    spec_child_plan_from(source, target, 0)
}

/// The structural failures of the child pass from index `from` on, in
/// source order.
pub open spec fn spec_child_issues_from(
    source: Seq<GitLabGroup>,
    target: Seq<GitLabGroup>,
    from: int,
) -> Seq<ChildGroupIssue>
    decreases source.len() - from,
{
    if from < 0 || from >= source.len() {
        Seq::empty()
    } else {
        let rest = spec_child_issues_from(source, target, from + 1);
        match source[from].parent_id {
            Some(pid) => match spec_child_issue_entry(source[from], source, target, pid) {
                Some(issue) => seq![issue] + rest,
                None => rest,
            },
            None => rest,
        }
    }
}

/// The structural failures of the child pass.
pub open spec fn spec_child_issues(source: Seq<GitLabGroup>, target: Seq<GitLabGroup>) -> Seq<
    ChildGroupIssue,
> {
    spec_child_issues_from(source, target, 0)
}

/// Helper for idempotence: when every source full path is already on the
/// target, the root pass from `from` on plans nothing.
proof fn lemma_root_plan_from_empty(source: Seq<GitLabGroup>, target: Seq<GitLabGroup>, from: int)
    requires
        0 <= from,
        forall|i: int|
            0 <= i < source.len() ==> has_group_with_full_path(
                target,
                #[trigger] source[i].full_path@,
            ),
    ensures
        spec_root_plan_from(source, target, from).len() == 0,
    decreases source.len() - from,
{
    if from >= source.len() {
    } else {
        lemma_root_plan_from_empty(source, target, from + 1);
    }
}

/// Helper for idempotence: when every source full path is already on the
/// target, the child pass from `from` on plans nothing and reports nothing.
proof fn lemma_child_pass_from_empty(source: Seq<GitLabGroup>, target: Seq<GitLabGroup>, from: int)
    requires
        0 <= from,
        forall|i: int|
            0 <= i < source.len() ==> has_group_with_full_path(
                target,
                #[trigger] source[i].full_path@,
            ),
    ensures
        spec_child_plan_from(source, target, from).len() == 0,
        spec_child_issues_from(source, target, from).len() == 0,
    decreases source.len() - from,
{
    if from >= source.len() {
    } else {
        lemma_child_pass_from_empty(source, target, from + 1);
    }
}

/// Idempotence of reconciliation: when the target already carries a group
/// for every source full path — as it does on a second run over the same
/// instances — neither pass plans a creation, and no structural issue is
/// reported.
pub proof fn lemma_reconcile_idempotent(source: Seq<GitLabGroup>, target: Seq<GitLabGroup>)
    requires
        forall|i: int|
            0 <= i < source.len() ==> has_group_with_full_path(
                target,
                #[trigger] source[i].full_path@,
            ),
    ensures
        spec_root_plan(source, target).len() == 0,
        spec_child_plan(source, target).len() == 0,
        spec_child_issues(source, target).len() == 0,
{
    lemma_root_plan_from_empty(source, target, 0);
    lemma_child_pass_from_empty(source, target, 0);
}

/// Helper for the order invariant, generalized over the starting index.
proof fn lemma_child_plan_parents_from(source: Seq<GitLabGroup>, target: Seq<GitLabGroup>, from: int)
    requires
        0 <= from,
    ensures
        forall|k: int|
            0 <= k < spec_child_plan_from(source, target, from).len() ==> ((
            #[trigger] spec_child_plan_from(source, target, from)[k].parent_id) matches Some(pid)
                && has_group_with_id(target, pid)),
    decreases source.len() - from,
{
    if from >= source.len() {
    } else {
        lemma_child_plan_parents_from(source, target, from + 1);
        let rest = spec_child_plan_from(source, target, from + 1);
        let plan = spec_child_plan_from(source, target, from);
        match source[from].parent_id {
            Some(pid) => {
                match spec_classify_child(source[from], source, target, pid) {
                    ChildClass::Create { creation } => {
                        let pi = first_root_group_with_id(source, pid, 0)->0;
                        lemma_first_root_group_with_id(source, pid, 0);
                        let fp = source[pi].full_path@;
                        lemma_first_group_with_full_path(target, fp, 0);
                        let ti = first_group_with_full_path(target, fp, 0)->0;
                        assert(creation.parent_id == Some(target[ti].id));
                        assert(0 <= ti < target.len() && target[ti].id == target[ti].id);
                        assert(has_group_with_id(target, target[ti].id));
                        assert(plan =~= seq![creation] + rest);
                        assert forall|k: int| 0 <= k < plan.len() implies ((
                        #[trigger] plan[k].parent_id) matches Some(p) && has_group_with_id(
                            target,
                            p,
                        )) by {
                            if k == 0 {
                                assert(plan[k] == creation);
                            } else {
                                assert(plan[k] == rest[k - 1]);
                            }
                        }
                    },
                    _ => {
                        assert(plan =~= rest);
                    },
                }
            },
            None => {
                assert(plan =~= rest);
            },
        }
    }
}

/// Order invariant of reconciliation: every creation of the child pass is
/// parented under a group already present in the target snapshot the pass
/// was planned against.  Since the root pass runs and is re-read first, a
/// child is never created on the target without its parent.
pub proof fn lemma_reconcile_order_invariant(source: Seq<GitLabGroup>, target: Seq<GitLabGroup>)
    ensures
        forall|k: int|
            0 <= k < spec_child_plan(source, target).len() ==> ((
            #[trigger] spec_child_plan(source, target)[k].parent_id) matches Some(pid)
                && has_group_with_id(target, pid)),
{
    lemma_child_plan_parents_from(source, target, 0);
}

/// The sharper half of the order invariant: a child classified as
/// creatable is parented under precisely the target counterpart of its
/// source parent — the first target group carrying the parent root's full
/// path.
pub proof fn lemma_child_parent_is_counterpart(
    g: GitLabGroup,
    source: Seq<GitLabGroup>,
    target: Seq<GitLabGroup>,
    parent_id: u32,
)
    requires
        spec_classify_child(g, source, target, parent_id) matches ChildClass::Create { .. },
    ensures
        first_root_group_with_id(source, parent_id, 0) is Some,
        ({
            let pi = first_root_group_with_id(source, parent_id, 0)->0;
            let creation = spec_classify_child(g, source, target, parent_id)->creation;
            &&& 0 <= pi < source.len()
            &&& source[pi].parent_id is None
            &&& source[pi].id == parent_id
            &&& exists|j: int|
                0 <= j < target.len() && #[trigger] target[j].full_path@
                    == source[pi].full_path@ && creation.parent_id == Some(target[j].id)
        }),
{
    lemma_first_root_group_with_id(source, parent_id, 0);
    let pi = first_root_group_with_id(source, parent_id, 0)->0;
    lemma_first_group_with_full_path(target, source[pi].full_path@, 0);
    let ti = first_group_with_full_path(target, source[pi].full_path@, 0)->0;
    assert(0 <= ti < target.len() && target[ti].full_path@ == source[pi].full_path@
        && (spec_classify_child(g, source, target, parent_id)->creation).parent_id == Some(
        target[ti].id,
    ));
}

/// Root coverage: after the root pass, every well-formed source root group
/// (one whose full path is its own path, as a root's is) has its full path
/// on the target — it was either already there or just planned.
pub proof fn lemma_root_plan_covers(source: Seq<GitLabGroup>, target: Seq<GitLabGroup>, i: int)
    requires
        0 <= i < source.len(),
        source[i].parent_id is None,
    ensures
        has_group_with_full_path(target, source[i].full_path@) || spec_root_plan(
            source,
            target,
        ).contains(GroupCreation { name: source[i].name, path: source[i].path, parent_id: None }),
{
    lemma_root_plan_covers_from(source, target, i, 0);
}

/// Helper for root coverage, generalized over the starting index.
proof fn lemma_root_plan_covers_from(
    source: Seq<GitLabGroup>,
    target: Seq<GitLabGroup>,
    i: int,
    from: int,
)
    requires
        0 <= from <= i < source.len(),
        source[i].parent_id is None,
    ensures
        has_group_with_full_path(target, source[i].full_path@) || spec_root_plan_from(
            source,
            target,
            from,
        ).contains(GroupCreation { name: source[i].name, path: source[i].path, parent_id: None }),
    decreases source.len() - from,
{
    let plan = spec_root_plan_from(source, target, from);
    if from == i {
        if !has_group_with_full_path(target, source[i].full_path@) {
            let c = GroupCreation { name: source[i].name, path: source[i].path, parent_id: None };
            assert(spec_root_entry(source[from], target) == Some(c));
            assert(plan == seq![c] + spec_root_plan_from(source, target, from + 1));
            assert(plan[0] == c);
        }
    } else {
        lemma_root_plan_covers_from(source, target, i, from + 1);
        let rest = spec_root_plan_from(source, target, from + 1);
        if !has_group_with_full_path(target, source[i].full_path@) {
            let c = GroupCreation { name: source[i].name, path: source[i].path, parent_id: None };
            assert(rest.contains(c));
            let k = choose|k: int| 0 <= k < rest.len() && rest[k] == c;
            match spec_root_entry(source[from], target) {
                Some(c0) => {
                    assert(plan == seq![c0] + rest);
                    assert(plan[k + 1] == c);
                    assert(plan.contains(c));
                },
                None => {
                    assert(plan == rest);
                },
            }
        }
    }
}

/// First pass of reconciliation: plan the creation of every source root
/// group missing from the target, in source order.
pub fn plan_root_groups(source: &Vec<GitLabGroup>, target: &Vec<GitLabGroup>) -> (plan: Vec<
    GroupCreation,
>)
    ensures
        plan@ == spec_root_plan(source@, target@),
{
    let mut plan: Vec<GroupCreation> = Vec::new();
    let mut i: usize = 0;
    while i < source.len()
        invariant
            i <= source@.len(),
            spec_root_plan(source@, target@) =~= plan@ + spec_root_plan_from(
                source@,
                target@,
                i as int,
            ),
        decreases source@.len() - i,
    {
        let ghost plan_before = plan@;
        let g = &source[i];
        if g.parent_id.is_none() {
            let found = find_group_by_full_path(target, &g.full_path);
            proof {
                lemma_has_full_path_iff_found(target@, g.full_path@);
            }
            if found.is_none() {
                let creation = GroupCreation {
                    name: g.name.clone(),
                    path: g.path.clone(),
                    parent_id: None,
                };
                proof {
                    assert(spec_root_entry(source@[i as int], target@) == Some(creation));
                }
                plan.push(creation);
            } else {
                proof {
                    assert(spec_root_entry(source@[i as int], target@) is None);
                }
            }
        } else {
            proof {
                assert(spec_root_entry(source@[i as int], target@) is None);
            }
        }
        proof {
            assert(spec_root_plan(source@, target@) =~= plan@ + spec_root_plan_from(
                source@,
                target@,
                i as int + 1,
            ));
        }
        i += 1;
    }
    proof {
        assert(spec_root_plan_from(source@, target@, source@.len() as int) =~= Seq::empty());
        assert(plan@ =~= spec_root_plan(source@, target@));
    }
    plan
}

/// Classify one child group against the source set and the refreshed
/// target snapshot, exactly as `spec_classify_child` does.
fn classify_child(
    g: &GitLabGroup,
    source: &Vec<GitLabGroup>,
    target: &Vec<GitLabGroup>,
    parent_id: u32,
) -> (r: ChildClass)
    ensures
        r == spec_classify_child(*g, source@, target@, parent_id),
{
    let found = find_group_by_full_path(target, &g.full_path);
    proof {
        lemma_has_full_path_iff_found(target@, g.full_path@);
    }
    if found.is_some() {
        return ChildClass::AlreadyPresent;
    }
    match find_root_group_by_id(source, parent_id) {
        None => ChildClass::SourceParentMissing,
        Some(pi) => {
            proof {
                lemma_first_root_group_with_id(source@, parent_id, 0);
            }
            let parent = &source[pi];
            proof {
                lemma_first_group_with_full_path(target@, parent.full_path@, 0);
            }
            match find_group_by_full_path(target, &parent.full_path) {
                None => ChildClass::TargetParentMissing {
                    parent_full_path: parent.full_path.clone(),
                },
                Some(ti) => ChildClass::Create {
                    creation: GroupCreation {
                        name: g.name.clone(),
                        path: g.path.clone(),
                        parent_id: Some(target[ti].id),
                    },
                },
            }
        },
    }
}

/// Second pass of reconciliation: plan the creation of every missing child
/// group whose target parent is resolved, and report a structural issue for
/// every child whose source parent or target parent cannot be found.
pub fn plan_child_groups(source: &Vec<GitLabGroup>, target: &Vec<GitLabGroup>) -> (r: (
    Vec<GroupCreation>,
    Vec<ChildGroupIssue>,
))
    ensures
        r.0@ == spec_child_plan(source@, target@),
        r.1@ == spec_child_issues(source@, target@),
{
    let mut plan: Vec<GroupCreation> = Vec::new();
    let mut issues: Vec<ChildGroupIssue> = Vec::new();
    let mut i: usize = 0;
    while i < source.len()
        invariant
            i <= source@.len(),
            spec_child_plan(source@, target@) =~= plan@ + spec_child_plan_from(
                source@,
                target@,
                i as int,
            ),
            spec_child_issues(source@, target@) =~= issues@ + spec_child_issues_from(
                source@,
                target@,
                i as int,
            ),
        decreases source@.len() - i,
    {
        let g = &source[i];
        match g.parent_id {
            Some(pid) => {
                let class = classify_child(g, source, target, pid);
                proof {
                    assert(class == spec_classify_child(
                        source@[i as int],
                        source@,
                        target@,
                        pid,
                    ));
                }
                match class {
                    ChildClass::Create { creation } => {
                        proof {
                            assert(spec_child_issue_entry(
                                source@[i as int],
                                source@,
                                target@,
                                pid,
                            ) is None);
                        }
                        plan.push(creation);
                    },
                    ChildClass::SourceParentMissing => {
                        issues.push(ChildGroupIssue::SourceParentMissing {
                            full_path: g.full_path.clone(),
                            parent_id: pid,
                        });
                    },
                    ChildClass::TargetParentMissing { parent_full_path } => {
                        issues.push(ChildGroupIssue::TargetParentMissing {
                            full_path: g.full_path.clone(),
                            parent_full_path,
                        });
                    },
                    ChildClass::AlreadyPresent => {},
                }
            },
            None => {},
        }
        proof {
            assert(spec_child_plan(source@, target@) =~= plan@ + spec_child_plan_from(
                source@,
                target@,
                i as int + 1,
            ));
            assert(spec_child_issues(source@, target@) =~= issues@ + spec_child_issues_from(
                source@,
                target@,
                i as int + 1,
            ));
        }
        i += 1;
    }
    proof {
        assert(spec_child_plan_from(source@, target@, source@.len() as int) =~= Seq::empty());
        assert(spec_child_issues_from(source@, target@, source@.len() as int) =~= Seq::empty());
        assert(plan@ =~= spec_child_plan(source@, target@));
        assert(issues@ =~= spec_child_issues(source@, target@));
    }
    (plan, issues)
}

} // verus!

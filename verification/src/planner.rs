//! Per-project migration planning: decide for each source project whether it
//! is already migrated, cannot be placed, must be skipped by policy, or needs
//! a shell created and its repository transferred; and decide the
//! compensating rollback when a transfer fails.
//!
//! Projects are matched across instances by the triple (project name, owning
//! group name, owning group full path).  Ids are never compared across
//! instances.

use vstd::prelude::*;

use crate::domain::GitLabGroup;
use crate::domain::GitLabProject;
use crate::domain::first_group_with_id;
use crate::domain::find_group_by_id;
use crate::domain::lemma_first_group_with_id;

verus! {

/// Whether target project `tp` is the migrated counterpart of source
/// project `sp` owned by source group `sg`.
pub open spec fn project_matches(tp: GitLabProject, sp: GitLabProject, sg: GitLabGroup) -> bool {
    &&& tp.name@ == sp.name@
    &&& tp.namespace.name@ == sg.name@
    &&& tp.namespace.full_path@ == sg.full_path@
}

/// Whether some target project is the migrated counterpart of `sp`.
pub open spec fn has_matching_project(
    tps: Seq<GitLabProject>,
    sp: GitLabProject,
    sg: GitLabGroup,
) -> bool {
    exists|i: int| 0 <= i < tps.len() && project_matches(#[trigger] tps[i], sp, sg)
}

/// Whether target group `tg` is the counterpart of source group `sg`.
pub open spec fn group_matches(tg: GitLabGroup, sg: GitLabGroup) -> bool {
    &&& tg.name@ == sg.name@
    &&& tg.full_path@ == sg.full_path@
}

/// Index of the first target group at or after `from` that is the
/// counterpart of `sg`.
pub open spec fn first_matching_group(
    tgs: Seq<GitLabGroup>,
    sg: GitLabGroup,
    from: int,
) -> Option<int>
    decreases tgs.len() - from,
{
    if from < 0 || from >= tgs.len() {
        None
    } else if group_matches(tgs[from], sg) {
        Some(from)
    } else {
        first_matching_group(tgs, sg, from + 1)
    }
}

/// What `first_matching_group` returns: the first match, if any.
pub proof fn lemma_first_matching_group(tgs: Seq<GitLabGroup>, sg: GitLabGroup, from: int)
    requires
        0 <= from,
    ensures
        match first_matching_group(tgs, sg, from) {
            Some(i) => {
                &&& from <= i < tgs.len()
                &&& group_matches(tgs[i], sg)
                &&& forall|j: int| from <= j < i ==> !group_matches(#[trigger] tgs[j], sg)
            },
            None => forall|j: int|
                from <= j < tgs.len() ==> !group_matches(#[trigger] tgs[j], sg),
        },
    decreases tgs.len() - from,
{
    if from < 0 || from >= tgs.len() {
    } else if group_matches(tgs[from], sg) {
    } else {
        lemma_first_matching_group(tgs, sg, from + 1);
    }
}

/// The planner's decision for one source project, before any branch list
/// is consulted.
#[derive(Clone, Debug, PartialEq)]
pub enum ProjectResolution {
    /// No source group carries the project's namespace id; the project is
    /// recorded as an error and skipped, and the run continues.
    SourceGroupMissing,
    /// A target project already matches: nothing to do for this project.
    AlreadyMigrated { source_group_index: usize },
    /// The owning group has no counterpart on the target: recorded as an
    /// error and skipped, and the run continues.
    TargetGroupMissing { source_group_index: usize },
    /// The project is absent from the target and its target group is
    /// resolved: consult the branch list and the empty-repository policy.
    ReadyToMigrate { source_group_index: usize, target_group_index: usize },
}

/// The resolution of source project `sp` against the inventory snapshots:
/// its owning source group (first by namespace id), then an existing
/// matching target project, then the counterpart target group (first by
/// name and full path).
pub open spec fn spec_resolve_project(
    sp: GitLabProject,
    source_groups: Seq<GitLabGroup>,
    target_groups: Seq<GitLabGroup>,
    target_projects: Seq<GitLabProject>,
) -> ProjectResolution {
    match first_group_with_id(source_groups, sp.namespace.id, 0) {
        None => ProjectResolution::SourceGroupMissing,
        Some(si) => {
            let sg = source_groups[si];
            if has_matching_project(target_projects, sp, sg) {
                ProjectResolution::AlreadyMigrated { source_group_index: si as usize }
            } else {
                match first_matching_group(target_groups, sg, 0) {
                    None => ProjectResolution::TargetGroupMissing {
                        source_group_index: si as usize,
                    },
                    Some(ti) => ProjectResolution::ReadyToMigrate {
                        source_group_index: si as usize,
                        target_group_index: ti as usize,
                    },
                }
            }
        },
    }
}

/// Idempotence of the project loop: when a target project already matches
/// a source project under its resolved owning group — as one does for every
/// project after a completed run — the planner classifies the project as
/// already migrated, and nothing is created for it.
pub proof fn lemma_second_run_skips_migrated(
    sp: GitLabProject,
    source_groups: Seq<GitLabGroup>,
    target_groups: Seq<GitLabGroup>,
    target_projects: Seq<GitLabProject>,
    si: int,
)
    requires
        first_group_with_id(source_groups, sp.namespace.id, 0) == Some(si),
        has_matching_project(target_projects, sp, source_groups[si]),
    ensures
        spec_resolve_project(sp, source_groups, target_groups, target_projects)
            == (ProjectResolution::AlreadyMigrated { source_group_index: si as usize }),
{
}

/// Matching key stability: a target project whose namespace full path
/// differs from a source project's namespace full path is never taken for
/// that project's migrated counterpart, however equal their names are.
pub proof fn lemma_matching_key_stability(
    tp: GitLabProject,
    sp: GitLabProject,
    sg: GitLabGroup,
)
    requires
        sg.full_path@ == sp.namespace.full_path@,
        tp.namespace.full_path@ != sp.namespace.full_path@,
    ensures
        !project_matches(tp, sp, sg),
{
}

/// Whether some target project already matches `sp` owned by `sg`.
fn target_project_exists(
    target_projects: &Vec<GitLabProject>,
    sp: &GitLabProject,
    sg: &GitLabGroup,
) -> (r: bool)
    ensures
        r == has_matching_project(target_projects@, *sp, *sg),
{
    let mut i: usize = 0;
    while i < target_projects.len()
        invariant
            i <= target_projects@.len(),
            forall|j: int| 0 <= j < i ==> !project_matches(#[trigger] target_projects@[j], *sp, *sg),
        decreases target_projects@.len() - i,
    {
        let tp = &target_projects[i];
        if tp.name == sp.name && tp.namespace.name == sg.name && tp.namespace.full_path
            == sg.full_path {
            return true;
        }
        i += 1;
    }
    false
}

/// First index of a target group that is the counterpart of `sg`, if any.
fn find_matching_group(target_groups: &Vec<GitLabGroup>, sg: &GitLabGroup) -> (r: Option<usize>)
    ensures
        match r {
            Some(i) => first_matching_group(target_groups@, *sg, 0) == Some(i as int),
            None => first_matching_group(target_groups@, *sg, 0) is None,
        },
{
    let mut i: usize = 0;
    while i < target_groups.len()
        invariant
            i <= target_groups@.len(),
            first_matching_group(target_groups@, *sg, 0) == first_matching_group(
                target_groups@,
                *sg,
                i as int,
            ),
        decreases target_groups@.len() - i,
    {
        let tg = &target_groups[i];
        if tg.name == sg.name && tg.full_path == sg.full_path {
            return Some(i);
        }
        i += 1;
    }
    None
}

/// Resolve one source project against the run's inventory snapshots,
/// exactly as `spec_resolve_project` describes.
pub fn resolve_project(
    sp: &GitLabProject,
    source_groups: &Vec<GitLabGroup>,
    target_groups: &Vec<GitLabGroup>,
    target_projects: &Vec<GitLabProject>,
) -> (r: ProjectResolution)
    ensures
        r == spec_resolve_project(*sp, source_groups@, target_groups@, target_projects@),
        r matches ProjectResolution::AlreadyMigrated { source_group_index }
            ==> source_group_index < source_groups@.len(),
        r matches ProjectResolution::TargetGroupMissing { source_group_index }
            ==> source_group_index < source_groups@.len(),
        r matches ProjectResolution::ReadyToMigrate { source_group_index, target_group_index }
            ==> source_group_index < source_groups@.len() && target_group_index
            < target_groups@.len(),
{
    proof {
        lemma_first_group_with_id(source_groups@, sp.namespace.id, 0);
    }
    match find_group_by_id(source_groups, sp.namespace.id) {
        None => ProjectResolution::SourceGroupMissing,
        Some(si) => {
            let sg = &source_groups[si];
            if target_project_exists(target_projects, sp, sg) {
                ProjectResolution::AlreadyMigrated { source_group_index: si }
            } else {
                proof {
                    lemma_first_matching_group(target_groups@, *sg, 0);
                }
                match find_matching_group(target_groups, sg) {
                    None => ProjectResolution::TargetGroupMissing { source_group_index: si },
                    Some(ti) => ProjectResolution::ReadyToMigrate {
                        source_group_index: si,
                        target_group_index: ti,
                    },
                }
            }
        },
    }
}

/// What to do for a project that is ready to migrate, once its source
/// branch list is known.
#[derive(Clone, Copy, Debug, PartialEq, Eq, Structural)]
pub enum TransferPlan {
    /// The policy ignores empty repositories: create nothing.
    SkipEmptyRepository,
    /// The repository is empty but is still migrated: an empty shell on the
    /// target is the complete result, no transfer is attempted.
    CreateShellOnly,
    /// Create the shell, then mirror the repository into it.
    CreateShellAndTransfer,
}

/// Apply the empty-repository policy to a project's branch list.
pub fn plan_transfer(ignore_empty_repos: bool, branches_empty: bool) -> (r: TransferPlan)
    ensures
        r is SkipEmptyRepository <==> ignore_empty_repos && branches_empty,
        r is CreateShellOnly <==> !ignore_empty_repos && branches_empty,
        r is CreateShellAndTransfer <==> !branches_empty,
{
    if crate::is_migration_allowed(ignore_empty_repos, branches_empty) {
        if branches_empty {
            TransferPlan::CreateShellOnly
        } else {
            TransferPlan::CreateShellAndTransfer
        }
    } else {
        TransferPlan::SkipEmptyRepository
    }
}

/// The compensation chosen after a failed repository transfer.
#[derive(Clone, Debug, PartialEq)]
pub enum RollbackDecision {
    /// Delete the target project shell that was created for this transfer.
    RemoveTargetProject { project_id: u32 },
    /// The policy keeps the shell: leave the empty target project in place.
    LeaveShellInPlace,
    /// Removal was requested, but the create call returned no project, so
    /// the shell cannot be reliably identified for deletion.
    ShellNotIdentifiable,
}

/// Decide the rollback after a transfer failure.  `created` is what the
/// create-project call returned for the shell; its first element, if any,
/// identifies the project to delete.
pub fn decide_rollback(
    remove_target_repo_after_clone_error: bool,
    created: &Vec<GitLabProject>,
) -> (r: RollbackDecision)
    ensures
        !remove_target_repo_after_clone_error ==> (r is LeaveShellInPlace),
        remove_target_repo_after_clone_error && created@.len() > 0 ==> (r
            == RollbackDecision::RemoveTargetProject { project_id: created@[0].id }),
        remove_target_repo_after_clone_error && created@.len() == 0 ==> (r
            is ShellNotIdentifiable),
{
    if remove_target_repo_after_clone_error {
        if created.len() > 0 {
            RollbackDecision::RemoveTargetProject { project_id: created[0].id }
        } else {
            RollbackDecision::ShellNotIdentifiable
        }
    } else {
        RollbackDecision::LeaveShellInPlace
    }
}

/// The terminal classification of one source project within a run.
#[derive(Clone, Debug, PartialEq)]
pub enum ProjectOutcome {
    /// A matching target project already exists; nothing was done.
    SkippedAlreadyMigrated,
    /// The owning source group could not be resolved; recorded, run goes on.
    GroupResolutionFailed,
    /// The counterpart target group is missing; recorded, run goes on.
    TargetGroupMissing,
    /// Skipped by the empty-repository policy; nothing was created.
    SkippedEmptyByPolicy,
    /// The shell exists on the target and holds everything it should.
    MigratedClean,
    /// The transfer failed; the chosen rollback was applied and the run
    /// must not process further projects.
    TransferFailed { rollback: RollbackDecision },
}

/// Conclude a project once its transfer attempt (if any) has finished.
pub fn conclude_transfer(
    transfer_succeeded: bool,
    remove_target_repo_after_clone_error: bool,
    created: &Vec<GitLabProject>,
) -> (r: ProjectOutcome)
    ensures
        transfer_succeeded ==> (r is MigratedClean),
        !transfer_succeeded ==> (r matches ProjectOutcome::TransferFailed { rollback }
            && (!remove_target_repo_after_clone_error ==> (rollback is LeaveShellInPlace))
            && (remove_target_repo_after_clone_error && created@.len() > 0 ==> (rollback
            == RollbackDecision::RemoveTargetProject { project_id: created@[0].id }))
            && (remove_target_repo_after_clone_error && created@.len() == 0 ==> (rollback
            is ShellNotIdentifiable))),
{
    if transfer_succeeded {
        ProjectOutcome::MigratedClean
    } else {
        ProjectOutcome::TransferFailed {
            rollback: decide_rollback(remove_target_repo_after_clone_error, created),
        }
    }
}

/// Whether this outcome aborts the remaining project loop.  Only a failed
/// transfer stops the run; structural errors skip one project and go on.
pub fn outcome_aborts_run(outcome: &ProjectOutcome) -> (r: bool)
    ensures
        r == (outcome is TransferFailed),
{
    match outcome {
        ProjectOutcome::TransferFailed { .. } => true,
        _ => false,
    }
}

/// The `current/total` progress counter emitted after each project.
#[derive(Clone, Copy, Debug, PartialEq, Eq, Structural)]
pub struct MigrationProgress {
    pub done: usize,
    pub total: usize,
}

impl MigrationProgress {
    /// The counter never runs past the number of projects.
    pub open spec fn wf(&self) -> bool {
        self.done <= self.total
    }

    /// A fresh counter for a run over `total` projects.
    pub fn new(total: usize) -> (r: Self)
        ensures
            r.wf(),
            r.done == 0,
            r.total == total,
    {
        MigrationProgress { done: 0, total }
    }

    /// Count one more project as handled (skipped, migrated, or errored).
    pub fn advance(&mut self)
        requires
            old(self).wf(),
            old(self).done < old(self).total,
        ensures
            final(self).wf(),
            final(self).done == old(self).done + 1,
            final(self).total == old(self).total,
    {
        self.done = self.done + 1;
    }
}

} // verus!

use gitlab_migration::domain::GitLabNamespace;
use gitlab_migration::domain::GitLabProject;
use gitlab_migration::is_migration_allowed;
use gitlab_migration::planner::ProjectOutcome;
use gitlab_migration::planner::RollbackDecision;
use gitlab_migration::planner::TransferPlan;
use gitlab_migration::planner::conclude_transfer;
use gitlab_migration::planner::decide_rollback;
use gitlab_migration::planner::outcome_aborts_run;
use gitlab_migration::planner::plan_transfer;

fn shell_project(id: u32) -> GitLabProject {
    GitLabProject {
        id,
        name: "p".to_string(),
        path: "p".to_string(),
        visibility: "private".to_string(),
        namespace: GitLabNamespace {
            id: 1,
            name: "g".to_string(),
            path: "g".to_string(),
            full_path: "g".to_string(),
        },
    }
}

#[test]
fn ignore_empty_repos_flag_deny_to_migrate_project() {
    assert!(!is_migration_allowed(true, true));
}

#[test]
fn tolerate_empty_repos_without_force_flag() {
    assert!(is_migration_allowed(false, true));
}

#[test]
fn allow_non_empty_repos() {
    assert!(is_migration_allowed(true, false));
    assert!(is_migration_allowed(false, false));
}

#[test]
fn empty_repository_is_skipped_when_policy_ignores_it() {
    assert_eq!(plan_transfer(true, true), TransferPlan::SkipEmptyRepository);
}

#[test]
fn empty_repository_gets_a_shell_without_transfer() {
    assert_eq!(plan_transfer(false, true), TransferPlan::CreateShellOnly);
}

#[test]
fn non_empty_repository_is_transferred_under_either_policy() {
    assert_eq!(plan_transfer(true, false), TransferPlan::CreateShellAndTransfer);
    assert_eq!(plan_transfer(false, false), TransferPlan::CreateShellAndTransfer);
}

#[test]
fn rollback_removes_the_created_shell_when_requested() {
    let created = vec![shell_project(77)];
    assert_eq!(
        decide_rollback(true, &created),
        RollbackDecision::RemoveTargetProject { project_id: 77 }
    );
}

#[test]
fn rollback_leaves_the_shell_when_not_requested() {
    let created = vec![shell_project(77)];
    assert_eq!(decide_rollback(false, &created), RollbackDecision::LeaveShellInPlace);
}

#[test]
fn rollback_reports_an_unidentifiable_shell() {
    let created: Vec<GitLabProject> = vec![];
    assert_eq!(decide_rollback(true, &created), RollbackDecision::ShellNotIdentifiable);
}

#[test]
fn successful_transfer_concludes_clean() {
    let created = vec![shell_project(77)];
    let outcome = conclude_transfer(true, true, &created);
    assert_eq!(outcome, ProjectOutcome::MigratedClean);
    assert!(!outcome_aborts_run(&outcome));
}

#[test]
fn failed_transfer_aborts_the_run_after_rollback() {
    let created = vec![shell_project(77)];
    let outcome = conclude_transfer(false, true, &created);
    assert_eq!(
        outcome,
        ProjectOutcome::TransferFailed {
            rollback: RollbackDecision::RemoveTargetProject { project_id: 77 },
        }
    );
    assert!(outcome_aborts_run(&outcome));
}

#[test]
fn failed_transfer_can_leave_the_shell_in_place() {
    let created = vec![shell_project(77)];
    let outcome = conclude_transfer(false, false, &created);
    assert_eq!(
        outcome,
        ProjectOutcome::TransferFailed { rollback: RollbackDecision::LeaveShellInPlace }
    );
    assert!(outcome_aborts_run(&outcome));
}

#[test]
fn structural_outcomes_do_not_abort_the_run() {
    assert!(!outcome_aborts_run(&ProjectOutcome::SkippedAlreadyMigrated));
    assert!(!outcome_aborts_run(&ProjectOutcome::GroupResolutionFailed));
    assert!(!outcome_aborts_run(&ProjectOutcome::TargetGroupMissing));
    assert!(!outcome_aborts_run(&ProjectOutcome::SkippedEmptyByPolicy));
}

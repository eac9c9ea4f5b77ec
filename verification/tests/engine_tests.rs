use gitlab_migration::diag::select_empty_projects;
use gitlab_migration::domain::GitLabGroup;
use gitlab_migration::domain::GitLabNamespace;
use gitlab_migration::domain::GitLabProject;
use gitlab_migration::domain::GitLabRepositoryBranch;
use gitlab_migration::domain::branch_names;
use gitlab_migration::domain::find_group_by_full_path;
use gitlab_migration::domain::find_group_by_id;
use gitlab_migration::planner::ProjectOutcome;
use gitlab_migration::planner::ProjectResolution;
use gitlab_migration::planner::TransferPlan;
use gitlab_migration::planner::conclude_transfer;
use gitlab_migration::planner::plan_transfer;
use gitlab_migration::planner::resolve_project;
use gitlab_migration::reconcile::ChildGroupIssue;
use gitlab_migration::reconcile::GroupCreation;
use gitlab_migration::reconcile::plan_child_groups;
use gitlab_migration::reconcile::plan_root_groups;

fn group(id: u32, parent_id: Option<u32>, name: &str, path: &str, full_path: &str) -> GitLabGroup {
    GitLabGroup {
        id,
        parent_id,
        name: name.to_string(),
        path: path.to_string(),
        full_path: full_path.to_string(),
        visibility: "private".to_string(),
    }
}

fn project(id: u32, name: &str, path: &str, ns: &GitLabGroup) -> GitLabProject {
    GitLabProject {
        id,
        name: name.to_string(),
        path: path.to_string(),
        visibility: "private".to_string(),
        namespace: GitLabNamespace {
            id: ns.id,
            name: ns.name.clone(),
            path: ns.path.clone(),
            full_path: ns.full_path.clone(),
        },
    }
}

#[test]
fn missing_root_groups_are_planned_in_source_order() {
    let source = vec![
        group(1, None, "A", "a", "a"),
        group(2, Some(1), "B", "b", "a/b"),
        group(3, None, "C", "c", "c"),
    ];
    let target = vec![group(9, None, "C", "c", "c")];
    let plan = plan_root_groups(&source, &target);
    assert_eq!(
        plan,
        vec![GroupCreation { name: "A".to_string(), path: "a".to_string(), parent_id: None }]
    );
}

#[test]
fn child_groups_are_planned_under_their_target_parent() {
    let source = vec![group(1, None, "A", "a", "a"), group(2, Some(1), "B", "b", "a/b")];
    let target = vec![group(101, None, "A", "a", "a")];
    let (plan, issues) = plan_child_groups(&source, &target);
    assert_eq!(
        plan,
        vec![GroupCreation { name: "B".to_string(), path: "b".to_string(), parent_id: Some(101) }]
    );
    assert!(issues.is_empty());
}

#[test]
fn child_with_unknown_source_parent_is_reported_and_skipped() {
    let source = vec![group(2, Some(42), "B", "b", "a/b")];
    let target: Vec<GitLabGroup> = vec![];
    let (plan, issues) = plan_child_groups(&source, &target);
    assert!(plan.is_empty());
    assert_eq!(
        issues,
        vec![ChildGroupIssue::SourceParentMissing { full_path: "a/b".to_string(), parent_id: 42 }]
    );
}

#[test]
fn child_whose_parent_is_absent_on_target_is_reported_and_skipped() {
    let source = vec![group(1, None, "A", "a", "a"), group(2, Some(1), "B", "b", "a/b")];
    let target: Vec<GitLabGroup> = vec![];
    let (plan, issues) = plan_child_groups(&source, &target);
    assert!(plan.is_empty());
    assert_eq!(
        issues,
        vec![ChildGroupIssue::TargetParentMissing {
            full_path: "a/b".to_string(),
            parent_full_path: "a".to_string(),
        }]
    );
}

#[test]
fn reconciliation_plans_nothing_on_a_second_run() {
    let source = vec![group(1, None, "A", "a", "a"), group(2, Some(1), "B", "b", "a/b")];
    let target = vec![group(101, None, "A", "a", "a"), group(102, Some(101), "B", "b", "a/b")];
    let root_plan = plan_root_groups(&source, &target);
    let (child_plan, issues) = plan_child_groups(&source, &target);
    assert!(root_plan.is_empty());
    assert!(child_plan.is_empty());
    assert!(issues.is_empty());
}

#[test]
fn project_with_unknown_namespace_is_a_resolution_failure() {
    let source_groups = vec![group(1, None, "A", "a", "a")];
    let sp = project(10, "P", "p", &group(5, None, "X", "x", "x"));
    let r = resolve_project(&sp, &source_groups, &vec![], &vec![]);
    assert_eq!(r, ProjectResolution::SourceGroupMissing);
}

#[test]
fn project_without_target_group_cannot_be_placed() {
    let source_groups = vec![group(1, None, "A", "a", "a")];
    let sp = project(10, "P", "p", &source_groups[0]);
    let r = resolve_project(&sp, &source_groups, &vec![], &vec![]);
    assert_eq!(r, ProjectResolution::TargetGroupMissing { source_group_index: 0 });
}

#[test]
fn already_migrated_project_is_skipped() {
    let source_groups = vec![group(1, None, "A", "a", "a")];
    let target_groups = vec![group(101, None, "A", "a", "a")];
    let sp = project(10, "P", "p", &source_groups[0]);
    let tp = project(500, "P", "p", &target_groups[0]);
    let r = resolve_project(&sp, &source_groups, &target_groups, &vec![tp]);
    assert_eq!(r, ProjectResolution::AlreadyMigrated { source_group_index: 0 });
}

#[test]
fn projects_with_equal_names_in_different_groups_are_not_duplicates() {
    let source_groups = vec![group(1, None, "A", "a", "a")];
    let target_groups = vec![group(101, None, "A", "a", "a")];
    let sp = project(10, "P", "p", &source_groups[0]);
    // A target project with the same name but another namespace full path.
    let other_group = group(102, None, "X", "x", "x");
    let tp = project(500, "P", "p", &other_group);
    let r = resolve_project(&sp, &source_groups, &target_groups, &vec![tp]);
    assert_eq!(
        r,
        ProjectResolution::ReadyToMigrate { source_group_index: 0, target_group_index: 0 }
    );
}

#[test]
fn full_migration_scenario_and_second_run() {
    // Source: root group A ("a"), child group A/B ("a/b"), project P in A/B
    // with one branch.  Target starts empty.
    let source_groups = vec![group(1, None, "A", "a", "a"), group(2, Some(1), "B", "b", "a/b")];
    let source_projects = vec![project(10, "P", "p", &source_groups[1])];

    // First pass: the root group is planned and created.
    let root_plan = plan_root_groups(&source_groups, &vec![]);
    assert_eq!(
        root_plan,
        vec![GroupCreation { name: "A".to_string(), path: "a".to_string(), parent_id: None }]
    );
    let target_after_roots = vec![group(101, None, "A", "a", "a")];

    // Second pass: the child group is planned under the created root.
    let (child_plan, issues) = plan_child_groups(&source_groups, &target_after_roots);
    assert_eq!(
        child_plan,
        vec![GroupCreation { name: "B".to_string(), path: "b".to_string(), parent_id: Some(101) }]
    );
    assert!(issues.is_empty());
    let target_groups =
        vec![group(101, None, "A", "a", "a"), group(102, Some(101), "B", "b", "a/b")];

    // Project loop: P is ready to migrate into the created child group.
    let r = resolve_project(&source_projects[0], &source_groups, &target_groups, &vec![]);
    assert_eq!(
        r,
        ProjectResolution::ReadyToMigrate { source_group_index: 1, target_group_index: 1 }
    );
    let branches = vec!["main".to_string()];
    assert_eq!(plan_transfer(true, branches.is_empty()), TransferPlan::CreateShellAndTransfer);

    // The shell is created and the mirror transfer succeeds.
    let created = vec![project(500, "P", "p", &target_groups[1])];
    let outcome = conclude_transfer(true, true, &created);
    assert_eq!(outcome, ProjectOutcome::MigratedClean);

    // Second run: everything is found and skipped, nothing is planned.
    let target_projects = created;
    let root_plan = plan_root_groups(&source_groups, &target_groups);
    let (child_plan, issues) = plan_child_groups(&source_groups, &target_groups);
    assert!(root_plan.is_empty());
    assert!(child_plan.is_empty());
    assert!(issues.is_empty());
    let r = resolve_project(&source_projects[0], &source_groups, &target_groups, &target_projects);
    assert_eq!(r, ProjectResolution::AlreadyMigrated { source_group_index: 1 });
}

#[test]
fn groups_are_found_by_full_path_and_id() {
    let groups = vec![group(1, None, "A", "a", "a"), group(2, Some(1), "B", "b", "a/b")];
    assert_eq!(find_group_by_full_path(&groups, &"a/b".to_string()), Some(1));
    assert_eq!(find_group_by_full_path(&groups, &"c".to_string()), None);
    assert_eq!(find_group_by_id(&groups, 1), Some(0));
    assert_eq!(find_group_by_id(&groups, 9), None);
}

#[test]
fn branch_names_are_extracted_in_order() {
    let branches = vec![
        GitLabRepositoryBranch { name: "main".to_string() },
        GitLabRepositoryBranch { name: "dev".to_string() },
    ];
    assert_eq!(branch_names(&branches), vec!["main".to_string(), "dev".to_string()]);
}

#[test]
fn empty_projects_are_selected_by_flag() {
    let g = group(1, None, "A", "a", "a");
    let projects = vec![project(1, "P", "p", &g), project(2, "Q", "q", &g)];
    let flags = vec![false, true];
    let selected = select_empty_projects(&projects, &flags);
    assert_eq!(selected.len(), 1);
    assert_eq!(selected[0].name, "Q");
}

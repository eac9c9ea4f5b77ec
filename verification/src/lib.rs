//! Verified engine for migrating a group/project hierarchy between two
//! GitLab-style hosting instances.
//!
//! The library holds the logic of the migration: reconciling the target
//! instance's group tree with the source's, deciding per project whether a
//! migration is needed, driving the clone-and-push transfer decision, and
//! choosing the compensating rollback after a failed transfer.  All network
//! and subprocess work is left to the surrounding program, which feeds the
//! engine plain inventory snapshots and carries out the commands it returns.

pub mod api;
pub mod config;
pub mod diag;
pub mod domain;
pub mod planner;
pub mod reconcile;
pub mod text;
pub mod transfer;

use vstd::prelude::*;

verus! {

/// Policy gate for the empty-repository rule: migration of a project is
/// allowed unless empty repositories are to be ignored and this one is empty.
pub fn is_migration_allowed(ignore_empty_repos: bool, source_project_is_empty: bool) -> (r: bool)
    ensures
        r == (!ignore_empty_repos || !source_project_is_empty),
{
    (ignore_empty_repos && !source_project_is_empty) || !ignore_empty_repos
}

} // verus!

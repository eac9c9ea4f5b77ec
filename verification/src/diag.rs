//! Diagnostic selection of projects whose repositories hold no branch.
//!
//! The surrounding program fetches each project's branch list and reports
//! here, per project, whether that list was empty; the selection itself is
//! computed and verified here.

use vstd::prelude::*;

use crate::domain::GitLabProject;
use crate::domain::clone_project;

verus! {

/// The projects at or after `from` whose matching emptiness flag is set,
/// in listing order.
pub open spec fn spec_empty_selection(
    projects: Seq<GitLabProject>,
    is_empty: Seq<bool>,
    from: int,
) -> Seq<GitLabProject>
    decreases projects.len() - from,
{
    if from < 0 || from >= projects.len() {
        Seq::empty()
    } else {
        let rest = spec_empty_selection(projects, is_empty, from + 1);
        if is_empty[from] {
            seq![projects[from]] + rest
        } else {
            rest
        }
    }
}

/// Select the projects flagged as empty.  `is_empty[i]` says whether the
/// branch list of `projects[i]` came back empty.
pub fn select_empty_projects(projects: &Vec<GitLabProject>, is_empty: &Vec<bool>) -> (r: Vec<
    GitLabProject,
>)
    requires
        is_empty@.len() == projects@.len(),
    ensures
        r@ == spec_empty_selection(projects@, is_empty@, 0),
{
    let mut selected: Vec<GitLabProject> = Vec::new();
    let mut i: usize = 0;
    while i < projects.len()
        invariant
            i <= projects@.len(),
            is_empty@.len() == projects@.len(),
            spec_empty_selection(projects@, is_empty@, 0) =~= selected@ + spec_empty_selection(
                projects@,
                is_empty@,
                i as int,
            ),
        decreases projects@.len() - i,
    {
        if is_empty[i] {
            selected.push(clone_project(&projects[i]));
        }
        proof {
            assert(spec_empty_selection(projects@, is_empty@, 0) =~= selected@
                + spec_empty_selection(projects@, is_empty@, i as int + 1));
        }
        i += 1;
    }
    proof {
        assert(selected@ =~= spec_empty_selection(projects@, is_empty@, 0));
    }
    selected
}

} // verus!

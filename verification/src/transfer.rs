//! The computable half of the repository transfer: the remote locators and
//! the git argument strings for the mirror clone-and-push of one
//! repository.
//!
//! The transfer itself — running the git binary against a private scratch
//! working directory — is the surrounding program's; it reports back only
//! success or failure, and the rollback decision is taken from that.

use vstd::prelude::*;

verus! {

/// Name of the private scratch working directory of a transfer.
pub const REPO_TMP_DIR: &'static str = "gmt-tmp";

/// The locator of one repository on one remote:
/// `{git_url}/{group_path}/{repo_name}`.
pub fn remote_locator(git_url: &str, group_path: &str, repo_name: &str) -> (r: String)
    ensures
        r@ == git_url@ + "/"@ + group_path@ + "/"@ + repo_name@,
{
    let mut locator = String::from_str(git_url);
    locator.append("/");
    locator.append(group_path);
    locator.append("/");
    locator.append(repo_name);
    proof {
        assert(locator@ =~= git_url@ + "/"@ + group_path@ + "/"@ + repo_name@);
    }
    locator
}

/// Arguments of the mirror clone of the source repository into the scratch
/// directory.
pub fn mirror_clone_arguments(source_git_url: &str, source_group_path: &str, repo_name: &str) -> (r:
    String)
    ensures
        r@ == "clone --mirror "@ + source_git_url@ + "/"@ + source_group_path@ + "/"@ + repo_name@
            + " gmt-tmp/.git"@,
{
    let mut args = String::from_str("clone --mirror ");
    let locator = remote_locator(source_git_url, source_group_path, repo_name);
    args.append(locator.as_str());
    args.append(" gmt-tmp/.git");
    proof {
        assert(args@ =~= "clone --mirror "@ + source_git_url@ + "/"@ + source_group_path@ + "/"@
            + repo_name@ + " gmt-tmp/.git"@);
    }
    args
}

/// Arguments that register the target remote on the cloned mirror.
pub fn remote_add_arguments(target_git_url: &str, target_group_path: &str, repo_name: &str) -> (r:
    String)
    ensures
        r@ == "remote add --mirror=fetch secondary "@ + target_git_url@ + "/"@ + target_group_path@
            + "/"@ + repo_name@ + ".git"@,
{
    let mut args = String::from_str("remote add --mirror=fetch secondary ");
    let locator = remote_locator(target_git_url, target_group_path, repo_name);
    args.append(locator.as_str());
    args.append(".git");
    proof {
        assert(args@ =~= "remote add --mirror=fetch secondary "@ + target_git_url@ + "/"@
            + target_group_path@ + "/"@ + repo_name@ + ".git"@);
    }
    args
}

/// Arguments that fetch every ref from the source remote.
pub fn fetch_arguments() -> (r: String)
    ensures
        r@ == "fetch origin"@,
{
    String::from_str("fetch origin")
}

/// Arguments that push every ref to the target remote.
pub fn push_arguments() -> (r: String)
    ensures
        r@ == "push secondary --all"@,
{
    String::from_str("push secondary --all")
}

} // verus!

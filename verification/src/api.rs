//! The computable half of the instance inventory client: endpoint URLs,
//! expected status codes, the error taxonomy, and the pagination rule.
//!
//! The surrounding program performs the HTTP calls; everything it sends is
//! built here, and every response status it sees is judged here.  List
//! endpoints page through the remote collection with a fixed page size;
//! paging stops at the first empty page.

use vstd::prelude::*;

use crate::text::dec_string;
use crate::text::spec_dec_digits;

verus! {

/// Success status of the list endpoints.
pub const STATUS_OK: u16 = 200;

/// Success status of the create endpoints.
pub const STATUS_CREATED: u16 = 201;

/// Success status of the delete-project endpoint.
pub const STATUS_ACCEPTED: u16 = 202;

/// The failure kinds the migration run distinguishes.
#[derive(Clone, Debug, PartialEq)]
pub enum MigrationError {
    /// The transport failed before any status code was seen.
    ApiCommunication,
    /// The remote answered with a status other than the documented one.
    UnexpectedResponse { status: u16 },
    /// The mirror clone-and-push of one repository failed.
    Transfer,
    /// An expected group or project linkage was not found.
    StructuralInconsistency,
}

/// Judge a response status against the documented success status for the
/// operation.
pub fn check_status(actual: u16, expected: u16) -> (r: Result<(), MigrationError>)
    ensures
        (r is Ok) <==> actual == expected,
        actual != expected ==> (r == Err::<(), MigrationError>(
            MigrationError::UnexpectedResponse { status: actual },
        )),
{
    if actual == expected {
        Ok(())
    } else {
        Err(MigrationError::UnexpectedResponse { status: actual })
    }
}

/// URL of one page of the group listing.
pub fn list_groups_url(public_url: &str, page: u32) -> (r: String)
    ensures
        r@ == public_url@ + "/api/v4/groups?per_page=100&page="@ + spec_dec_digits(page as nat),
{
    let mut url = String::from_str(public_url);
    url.append("/api/v4/groups?per_page=100&page=");
    let digits = dec_string(page);
    url.append(digits.as_str());
    proof {
        assert(url@ =~= public_url@ + "/api/v4/groups?per_page=100&page="@ + spec_dec_digits(
            page as nat,
        ));
    }
    url
}

/// URL of one page of the project listing.
pub fn list_projects_url(public_url: &str, page: u32) -> (r: String)
    ensures
        r@ == public_url@ + "/api/v4/projects?per_page=100&page="@ + spec_dec_digits(page as nat),
{
    let mut url = String::from_str(public_url);
    url.append("/api/v4/projects?per_page=100&page=");
    let digits = dec_string(page);
    url.append(digits.as_str());
    proof {
        assert(url@ =~= public_url@ + "/api/v4/projects?per_page=100&page="@ + spec_dec_digits(
            page as nat,
        ));
    }
    url
}

/// URL of one page of a project's branch listing.
pub fn list_branches_url(public_url: &str, project_id: u32, page: u32) -> (r: String)
    ensures
        r@ == public_url@ + "/api/v4/projects/"@ + spec_dec_digits(project_id as nat)
            + "/repository/branches?per_page=100&page="@ + spec_dec_digits(page as nat),
{
    let mut url = String::from_str(public_url);
    url.append("/api/v4/projects/");
    let id_digits = dec_string(project_id);
    url.append(id_digits.as_str());
    url.append("/repository/branches?per_page=100&page=");
    let page_digits = dec_string(page);
    url.append(page_digits.as_str());
    proof {
        assert(url@ =~= public_url@ + "/api/v4/projects/"@ + spec_dec_digits(project_id as nat)
            + "/repository/branches?per_page=100&page="@ + spec_dec_digits(page as nat));
    }
    url
}

/// URL that creates a private group, optionally under a target parent
/// group.
pub fn create_group_url(public_url: &str, name: &str, path: &str, parent_id: Option<u32>) -> (r:
    String)
    ensures
        parent_id is None ==> r@ == public_url@ + "/api/v4/groups?name="@ + name@ + "&path="@
            + path@ + "&visibility=private"@,
        parent_id matches Some(pid) ==> r@ == public_url@ + "/api/v4/groups?name="@ + name@
            + "&path="@ + path@ + "&visibility=private&parent_id="@ + spec_dec_digits(pid as nat),
{
    let mut url = String::from_str(public_url);
    url.append("/api/v4/groups?name=");
    url.append(name);
    url.append("&path=");
    url.append(path);
    match parent_id {
        None => {
            url.append("&visibility=private");
            proof {
                assert(url@ =~= public_url@ + "/api/v4/groups?name="@ + name@ + "&path="@ + path@
                    + "&visibility=private"@);
            }
        },
        Some(pid) => {
            url.append("&visibility=private&parent_id=");
            let digits = dec_string(pid);
            url.append(digits.as_str());
            proof {
                assert(url@ =~= public_url@ + "/api/v4/groups?name="@ + name@ + "&path="@ + path@
                    + "&visibility=private&parent_id="@ + spec_dec_digits(pid as nat));
            }
        },
    }
    url
}

/// URL that creates a private project inside the target group with id
/// `namespace_id`.
pub fn create_project_url(public_url: &str, name: &str, path: &str, namespace_id: u32) -> (r:
    String)
    ensures
        r@ == public_url@ + "/api/v4/projects?name="@ + name@ + "&path="@ + path@
            + "&visibility=private&namespace_id="@ + spec_dec_digits(namespace_id as nat),
{
    let mut url = String::from_str(public_url);
    url.append("/api/v4/projects?name=");
    url.append(name);
    url.append("&path=");
    url.append(path);
    url.append("&visibility=private&namespace_id=");
    let digits = dec_string(namespace_id);
    url.append(digits.as_str());
    proof {
        assert(url@ =~= public_url@ + "/api/v4/projects?name="@ + name@ + "&path="@ + path@
            + "&visibility=private&namespace_id="@ + spec_dec_digits(namespace_id as nat));
    }
    url
}

/// URL of one project, for the delete-project call of the rollback.
pub fn project_url(public_url: &str, project_id: u32) -> (r: String)
    ensures
        r@ == public_url@ + "/api/v4/projects/"@ + spec_dec_digits(project_id as nat),
{
    let mut url = String::from_str(public_url);
    url.append("/api/v4/projects/");
    let digits = dec_string(project_id);
    url.append(digits.as_str());
    proof {
        assert(url@ =~= public_url@ + "/api/v4/projects/"@ + spec_dec_digits(project_id as nat));
    }
    url
}

/// Absorb one fetched page into the accumulated listing and say whether
/// paging must continue: it stops at the first empty page.
pub fn absorb_page<T>(acc: &mut Vec<T>, page: Vec<T>) -> (more: bool)
    ensures
        final(acc)@ == old(acc)@ + page@,
        more == (page@.len() > 0),
{
    let more = page.len() > 0;
    let mut page = page;
    acc.append(&mut page);
    more
}

} // verus!

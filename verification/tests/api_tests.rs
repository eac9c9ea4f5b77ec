use gitlab_migration::api::MigrationError;
use gitlab_migration::api::STATUS_ACCEPTED;
use gitlab_migration::api::STATUS_CREATED;
use gitlab_migration::api::STATUS_OK;
use gitlab_migration::api::absorb_page;
use gitlab_migration::api::check_status;
use gitlab_migration::api::create_group_url;
use gitlab_migration::api::create_project_url;
use gitlab_migration::api::list_branches_url;
use gitlab_migration::api::list_groups_url;
use gitlab_migration::api::list_projects_url;
use gitlab_migration::api::project_url;
use gitlab_migration::planner::MigrationProgress;
use gitlab_migration::text::dec_string;
use gitlab_migration::text::find_char;
use gitlab_migration::text::split_on_char;
use gitlab_migration::text::str_eq;
use gitlab_migration::transfer::mirror_clone_arguments;
use gitlab_migration::transfer::push_arguments;
use gitlab_migration::transfer::remote_add_arguments;
use gitlab_migration::transfer::remote_locator;

#[test]
fn numbers_render_in_decimal() {
    assert_eq!(dec_string(0).as_str(), "0");
    assert_eq!(dec_string(7).as_str(), "7");
    assert_eq!(dec_string(10).as_str(), "10");
    assert_eq!(dec_string(90123).as_str(), "90123");
    assert_eq!(dec_string(u32::MAX).as_str(), "4294967295");
}

#[test]
fn list_urls_carry_page_size_and_page() {
    assert_eq!(
        list_groups_url("https://gitlab.company.com", 1).as_str(),
        "https://gitlab.company.com/api/v4/groups?per_page=100&page=1"
    );
    assert_eq!(
        list_projects_url("https://gitlab.company.com", 3).as_str(),
        "https://gitlab.company.com/api/v4/projects?per_page=100&page=3"
    );
    assert_eq!(
        list_branches_url("https://gitlab.company.com", 42, 2).as_str(),
        "https://gitlab.company.com/api/v4/projects/42/repository/branches?per_page=100&page=2"
    );
}

#[test]
fn create_urls_set_private_visibility() {
    assert_eq!(
        create_group_url("https://gitlab.company.com", "g5000", "g5000", None).as_str(),
        "https://gitlab.company.com/api/v4/groups?name=g5000&path=g5000&visibility=private"
    );
    assert_eq!(
        create_group_url("https://gitlab.company.com", "b", "b", Some(101)).as_str(),
        "https://gitlab.company.com/api/v4/groups?name=b&path=b&visibility=private&parent_id=101"
    );
    assert_eq!(
        create_project_url("https://gitlab.company.com", "P", "p", 102).as_str(),
        "https://gitlab.company.com/api/v4/projects?name=P&path=p&visibility=private&namespace_id=102"
    );
}

#[test]
fn project_url_names_one_project() {
    assert_eq!(
        project_url("https://gitlab.company.com", 500).as_str(),
        "https://gitlab.company.com/api/v4/projects/500"
    );
}

#[test]
fn status_check_accepts_only_the_documented_status() {
    assert_eq!(check_status(200, STATUS_OK), Ok(()));
    assert_eq!(check_status(201, STATUS_CREATED), Ok(()));
    assert_eq!(check_status(202, STATUS_ACCEPTED), Ok(()));
    assert_eq!(
        check_status(404, STATUS_OK),
        Err(MigrationError::UnexpectedResponse { status: 404 })
    );
    assert_eq!(
        check_status(200, STATUS_CREATED),
        Err(MigrationError::UnexpectedResponse { status: 200 })
    );
}

#[test]
fn paging_stops_at_the_first_empty_page() {
    let mut acc: Vec<u32> = vec![];
    assert!(absorb_page(&mut acc, vec![1, 2]));
    assert!(absorb_page(&mut acc, vec![3]));
    assert!(!absorb_page(&mut acc, vec![]));
    assert_eq!(acc, vec![1, 2, 3]);
}

#[test]
fn remote_locators_join_url_group_and_name() {
    assert_eq!(
        remote_locator("ssh://gitlab.company.com", "a/b", "p").as_str(),
        "ssh://gitlab.company.com/a/b/p"
    );
}

#[test]
fn git_arguments_mirror_clone_and_push() {
    assert_eq!(
        mirror_clone_arguments("ssh://old-gitlab.company.com:2222", "a/b", "p").as_str(),
        "clone --mirror ssh://old-gitlab.company.com:2222/a/b/p gmt-tmp/.git"
    );
    assert_eq!(
        remote_add_arguments("ssh://gitlab.company.com", "a/b", "p").as_str(),
        "remote add --mirror=fetch secondary ssh://gitlab.company.com/a/b/p.git"
    );
    assert_eq!(push_arguments().as_str(), "push secondary --all");
}

#[test]
fn characters_are_found_at_their_first_occurrence() {
    assert_eq!(find_char("key: value", ':'), Some(3));
    assert_eq!(find_char("::", ':'), Some(0));
    assert_eq!(find_char("abc", ':'), None);
    assert!(str_eq("token", "token"));
    assert!(!str_eq("token", "Token"));
}

#[test]
fn progress_counts_up_to_the_total() {
    let mut progress = MigrationProgress::new(2);
    assert_eq!((progress.done, progress.total), (0, 2));
    progress.advance();
    progress.advance();
    assert_eq!((progress.done, progress.total), (2, 2));
}

#[test]
fn argument_strings_split_on_spaces() {
    let args = split_on_char("clone --mirror x y", ' ');
    assert_eq!(args, vec!["clone", "--mirror", "x", "y"]);
    assert_eq!(split_on_char("", ' '), vec![""]);
    assert_eq!(split_on_char("a\n\nb", '\n'), vec!["a", "", "b"]);
}

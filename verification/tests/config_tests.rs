use gitlab_migration::config::AppConfig;
use gitlab_migration::config::ConfigError;
use gitlab_migration::config::ErrorHandlersConfig;
use gitlab_migration::config::InstanceConfig;
use gitlab_migration::config::MigrationConfig;
use gitlab_migration::config::load_config_from_file;

fn sample_config_text() -> String {
    [
        "log-level: debug",
        "git-bin-path: /usr/bin/git",
        "source:",
        "  public-url: https://old-gitlab.company.com",
        "  git-url: ssh://old-gitlab.company.com:2222",
        "  token: 38jg983j4g0922323f",
        "target:",
        "  public-url: https://gitlab.company.com",
        "  git-url: ssh://gitlab.company.com",
        "  token: Fv034g3049gj290j23A",
        "migration:",
        "  ignore-empty-repos: true",
        "error-handlers:",
        "  remove-target-repo-after-clone-error: true",
    ]
    .join("\n")
}

#[test]
fn config_should_be_loaded() {
    let config = load_config_from_file(&sample_config_text()).unwrap();

    let expected_config = AppConfig {
        log_level: "debug".to_string(),

        git_bin_path: "/usr/bin/git".to_string(),

        source: InstanceConfig {
            public_url: "https://old-gitlab.company.com".to_string(),
            git_url: "ssh://old-gitlab.company.com:2222".to_string(),
            token: "38jg983j4g0922323f".to_string(),
        },

        target: InstanceConfig {
            public_url: "https://gitlab.company.com".to_string(),
            git_url: "ssh://gitlab.company.com".to_string(),
            token: "Fv034g3049gj290j23A".to_string(),
        },

        migration: MigrationConfig { ignore_empty_repos: true },

        error_handlers: ErrorHandlersConfig { remove_target_repo_after_clone_error: true },
    };

    assert_eq!(expected_config, config)
}

#[test]
fn config_with_missing_entry_is_refused() {
    let text = ["log-level: debug", "git-bin-path: /usr/bin/git"].join("\n");
    assert_eq!(load_config_from_file(&text), Err(ConfigError::MissingEntry));
}

#[test]
fn empty_config_is_refused() {
    assert_eq!(load_config_from_file(""), Err(ConfigError::MissingEntry));
}

#[test]
fn unknown_keys_and_sections_are_ignored() {
    let mut text = sample_config_text();
    text.push_str("\nnonsense: 42\nextras:\n  something: else\n");
    let config = load_config_from_file(&text).unwrap();
    assert_eq!(config.log_level, "debug");
    assert!(config.migration.ignore_empty_repos);
}

#[test]
fn boolean_entries_parse_false() {
    let text = sample_config_text()
        .replace("ignore-empty-repos: true", "ignore-empty-repos: false")
        .replace(
            "remove-target-repo-after-clone-error: true",
            "remove-target-repo-after-clone-error: false",
        );
    let config = load_config_from_file(&text).unwrap();
    assert!(!config.migration.ignore_empty_repos);
    assert!(!config.error_handlers.remove_target_repo_after_clone_error);
}

#[test]
fn malformed_boolean_leaves_entry_missing() {
    let text = sample_config_text().replace("ignore-empty-repos: true", "ignore-empty-repos: yes");
    assert_eq!(load_config_from_file(&text), Err(ConfigError::MissingEntry));
}

#[test]
fn value_without_space_after_colon_is_kept() {
    let text = sample_config_text().replace("log-level: debug", "log-level:info");
    let config = load_config_from_file(&text).unwrap();
    assert_eq!(config.log_level, "info");
}

#[test]
fn instance_description_masks_the_token() {
    let instance = InstanceConfig {
        public_url: "https://gitlab.company.com".to_string(),
        git_url: "ssh://gitlab.company.com".to_string(),
        token: "Fv034g3049gj290j23A".to_string(),
    };
    let line = instance.describe();
    assert_eq!(
        line,
        "public-url: https://gitlab.company.com, git-url: ssh://gitlab.company.com, \
         token: ***********"
    );
    assert!(!line.contains("Fv034g3049gj290j23A"));
}

#[test]
fn config_description_lists_every_section() {
    let config = load_config_from_file(&sample_config_text()).unwrap();
    let line = config.describe();
    assert_eq!(
        line,
        "log-level: debug, git-bin-path: '/usr/bin/git', \
         source: public-url: https://old-gitlab.company.com, \
         git-url: ssh://old-gitlab.company.com:2222, token: ***********, \
         target: public-url: https://gitlab.company.com, \
         git-url: ssh://gitlab.company.com, token: ***********, \
         migration.ignore-empty-repos: true, \
         error-handlers: remove-target-repo-after-clone-error: true"
    );
}

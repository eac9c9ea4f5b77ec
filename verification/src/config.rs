//! Application configuration: the settings of one migration run and the
//! parser for the configuration file text.
//!
//! The file format is line-oriented.  A line `key: value` before any
//! section sets a top-level entry; a line `name:` opens a section; a line
//! indented with two spaces sets an entry of the open section.  The
//! sections are `source`, `target`, `migration` and `error-handlers`;
//! unknown keys, unknown sections and blank lines are ignored.  Loading
//! succeeds exactly when every required entry is present.

use vstd::prelude::*;

use crate::text::first_char_at;
use crate::text::find_char;
use crate::text::lemma_first_char_at;
use crate::text::spec_split;
use crate::text::split_on_char;
use crate::text::str_eq;
use crate::text::views_of;

verus! {

/// One hosting instance: API endpoint, git transport endpoint, and the
/// access token the calls authenticate with.
#[derive(Clone, Debug, PartialEq)]
pub struct InstanceConfig {
    pub public_url: String,
    pub git_url: String,
    pub token: String,
}

/// The migration policy settings.
#[derive(Clone, Debug, PartialEq)]
pub struct MigrationConfig {
    pub ignore_empty_repos: bool,
}

/// The error-handling policy settings.
#[derive(Clone, Debug, PartialEq)]
pub struct ErrorHandlersConfig {
    /// Remove the project shell created on the target instance when the
    /// clone-and-push of its repository fails.
    pub remove_target_repo_after_clone_error: bool,
}

/// Everything one migration run is configured with.
#[derive(Clone, Debug, PartialEq)]
pub struct AppConfig {
    pub log_level: String,
    pub git_bin_path: String,
    pub source: InstanceConfig,
    pub target: InstanceConfig,
    pub migration: MigrationConfig,
    pub error_handlers: ErrorHandlersConfig,
}

/// Why loading a configuration failed.
#[derive(Clone, Debug, PartialEq)]
pub enum ConfigError {
    /// A required entry is absent from the file.
    MissingEntry,
}

/// The characters of an instance's settings.
pub struct InstanceConfigView {
    pub public_url: Seq<char>,
    pub git_url: Seq<char>,
    pub token: Seq<char>,
}

impl View for InstanceConfig {
    type V = InstanceConfigView;

    open spec fn view(&self) -> InstanceConfigView {
        InstanceConfigView {
            public_url: self.public_url@,
            git_url: self.git_url@,
            token: self.token@,
        }
    }
}

/// The characters and flags of a full configuration.
pub struct AppConfigView {
    pub log_level: Seq<char>,
    pub git_bin_path: Seq<char>,
    pub source: InstanceConfigView,
    pub target: InstanceConfigView,
    pub ignore_empty_repos: bool,
    pub remove_target_repo_after_clone_error: bool,
}

impl View for AppConfig {
    type V = AppConfigView;

    open spec fn view(&self) -> AppConfigView {
        AppConfigView {
            log_level: self.log_level@,
            git_bin_path: self.git_bin_path@,
            source: self.source@,
            target: self.target@,
            ignore_empty_repos: self.migration.ignore_empty_repos,
            remove_target_repo_after_clone_error:
                self.error_handlers.remove_target_repo_after_clone_error,
        }
    }
}

/// The section an indented entry belongs to.
#[derive(Clone, Copy, Debug, PartialEq, Eq, Structural)]
pub enum ConfigSection {
    /// Before any section header: top-level entries.
    Preamble,
    Source,
    Target,
    Migration,
    ErrorHandlers,
    /// A section this parser does not know; its entries are ignored.
    Unknown,
}

/// What has been read so far while folding over the file's lines.
pub struct DraftView {
    pub log_level: Option<Seq<char>>,
    pub git_bin_path: Option<Seq<char>>,
    pub source_public_url: Option<Seq<char>>,
    pub source_git_url: Option<Seq<char>>,
    pub source_token: Option<Seq<char>>,
    pub target_public_url: Option<Seq<char>>,
    pub target_git_url: Option<Seq<char>>,
    pub target_token: Option<Seq<char>>,
    pub ignore_empty_repos: Option<bool>,
    pub remove_target_repo_after_clone_error: Option<bool>,
    pub section: ConfigSection,
}

/// The draft before any line is read.
pub open spec fn spec_initial_draft() -> DraftView {
    DraftView {
        log_level: None,
        git_bin_path: None,
        source_public_url: None,
        source_git_url: None,
        source_token: None,
        target_public_url: None,
        target_git_url: None,
        target_token: None,
        ignore_empty_repos: None,
        remove_target_repo_after_clone_error: None,
        section: ConfigSection::Preamble,
    }
}

/// A value with one leading space removed, as written after `key:`.
pub open spec fn spec_strip_one_space(v: Seq<char>) -> Seq<char> {
    if v.len() > 0 && v[0] == ' ' {
        v.drop_first()
    } else {
        v
    }
}

/// The boolean a value denotes, if any.
pub open spec fn spec_bool_value(v: Seq<char>) -> Option<bool> {
    if v == "true"@ {
        Some(true)
    } else if v == "false"@ {
        Some(false)
    } else {
        None
    }
}

/// The section a header names.
pub open spec fn spec_section_named(name: Seq<char>) -> ConfigSection {
    if name == "source"@ {
        ConfigSection::Source
    } else if name == "target"@ {
        ConfigSection::Target
    } else if name == "migration"@ {
        ConfigSection::Migration
    } else if name == "error-handlers"@ {
        ConfigSection::ErrorHandlers
    } else {
        ConfigSection::Unknown
    }
}

/// A top-level entry applied to the draft.
pub open spec fn spec_apply_top(d: DraftView, key: Seq<char>, value: Seq<char>) -> DraftView {
    if key == "log-level"@ {
        DraftView { log_level: Some(value), ..d }
    } else if key == "git-bin-path"@ {
        DraftView { git_bin_path: Some(value), ..d }
    } else {
        d
    }
}

/// A section entry applied to the draft.
pub open spec fn spec_apply_entry(d: DraftView, key: Seq<char>, value: Seq<char>) -> DraftView {
    match d.section {
        ConfigSection::Source => {
            if key == "public-url"@ {
                DraftView { source_public_url: Some(value), ..d }
            } else if key == "git-url"@ {
                DraftView { source_git_url: Some(value), ..d }
            } else if key == "token"@ {
                DraftView { source_token: Some(value), ..d }
            } else {
                d
            }
        },
        ConfigSection::Target => {
            if key == "public-url"@ {
                DraftView { target_public_url: Some(value), ..d }
            } else if key == "git-url"@ {
                DraftView { target_git_url: Some(value), ..d }
            } else if key == "token"@ {
                DraftView { target_token: Some(value), ..d }
            } else {
                d
            }
        },
        ConfigSection::Migration => {
            if key == "ignore-empty-repos"@ {
                match spec_bool_value(value) {
                    Some(b) => DraftView { ignore_empty_repos: Some(b), ..d },
                    None => d,
                }
            } else {
                d
            }
        },
        ConfigSection::ErrorHandlers => {
            if key == "remove-target-repo-after-clone-error"@ {
                match spec_bool_value(value) {
                    Some(b) => DraftView {
                        remove_target_repo_after_clone_error: Some(b),
                        ..d
                    },
                    None => d,
                }
            } else {
                d
            }
        },
        _ => d,
    }
}

/// One line of the file applied to the draft.
pub open spec fn spec_apply_line(d: DraftView, line: Seq<char>) -> DraftView {
    if line.len() >= 2 && line[0] == ' ' && line[1] == ' ' {
        let content = line.skip(2);
        match first_char_at(content, ':', 0) {
            None => d,
            Some(ci) => spec_apply_entry(
                d,
                content.subrange(0, ci),
                spec_strip_one_space(content.skip(ci + 1)),
            ),
        }
    } else {
        match first_char_at(line, ':', 0) {
            None => d,
            Some(ci) => {
                let rest = line.skip(ci + 1);
                if rest.len() == 0 {
                    DraftView { section: spec_section_named(line.subrange(0, ci)), ..d }
                } else {
                    spec_apply_top(d, line.subrange(0, ci), spec_strip_one_space(rest))
                }
            },
        }
    }
}

/// The first `upto` lines applied to the initial draft, in order.
pub open spec fn spec_apply_prefix(lines: Seq<Seq<char>>, upto: int) -> DraftView
    decreases upto,
{
    if upto <= 0 {
        spec_initial_draft()
    } else {
        spec_apply_line(spec_apply_prefix(lines, upto - 1), lines[upto - 1])
    }
}

/// The draft after the whole file text is read.
pub open spec fn spec_final_draft(text: Seq<char>) -> DraftView {
    let lines = spec_split(text, '\n');
    spec_apply_prefix(lines, lines.len() as int)
}

/// Whether every required entry has been read.
pub open spec fn spec_draft_complete(d: DraftView) -> bool {
    &&& d.log_level is Some
    &&& d.git_bin_path is Some
    &&& d.source_public_url is Some
    &&& d.source_git_url is Some
    &&& d.source_token is Some
    &&& d.target_public_url is Some
    &&& d.target_git_url is Some
    &&& d.target_token is Some
    &&& d.ignore_empty_repos is Some
    &&& d.remove_target_repo_after_clone_error is Some
}

/// The configuration a complete draft denotes.
pub open spec fn spec_config_of_draft(d: DraftView) -> AppConfigView {
    AppConfigView {
        log_level: d.log_level->0,
        git_bin_path: d.git_bin_path->0,
        source: InstanceConfigView {
            public_url: d.source_public_url->0,
            git_url: d.source_git_url->0,
            token: d.source_token->0,
        },
        target: InstanceConfigView {
            public_url: d.target_public_url->0,
            git_url: d.target_git_url->0,
            token: d.target_token->0,
        },
        ignore_empty_repos: d.ignore_empty_repos->0,
        remove_target_repo_after_clone_error: d.remove_target_repo_after_clone_error->0,
    }
}

/// The configuration the file text denotes, when it is complete.
pub open spec fn spec_parse_config(text: Seq<char>) -> Option<AppConfigView> {
    let d = spec_final_draft(text);
    if spec_draft_complete(d) {
        Some(spec_config_of_draft(d))
    } else {
        None
    }
}

/// The characters "true" or "false".
pub open spec fn spec_bool_chars(b: bool) -> Seq<char> {
    if b {
        "true"@
    } else {
        "false"@
    }
}

/// The word for a boolean.
pub fn bool_str(b: bool) -> (r: &'static str)
    ensures
        r@ == spec_bool_chars(b),
{
    if b {
        "true"
    } else {
        "false"
    }
}

/// One-line rendering of an instance's settings, with the token masked.
pub open spec fn spec_instance_line(v: InstanceConfigView) -> Seq<char> {
    "public-url: "@ + v.public_url + ", git-url: "@ + v.git_url + ", token: ***********"@
}

/// One-line rendering of the migration policy.
pub open spec fn spec_migration_line(ignore_empty_repos: bool) -> Seq<char> {
    "migration.ignore-empty-repos: "@ + spec_bool_chars(ignore_empty_repos)
}

/// One-line rendering of the error-handling policy.
pub open spec fn spec_error_handlers_line(remove: bool) -> Seq<char> {
    "remove-target-repo-after-clone-error: "@ + spec_bool_chars(remove)
}

/// One-line rendering of a full configuration.
pub open spec fn spec_config_line(v: AppConfigView) -> Seq<char> {
    "log-level: "@ + v.log_level + ", git-bin-path: '"@ + v.git_bin_path + "', source: "@
        + spec_instance_line(v.source) + ", target: "@ + spec_instance_line(v.target) + ", "@
        + spec_migration_line(v.ignore_empty_repos) + ", error-handlers: "@
        + spec_error_handlers_line(v.remove_target_repo_after_clone_error)
}

impl InstanceConfig {
    /// The settings on one line; the token never appears in it.
    pub fn describe(&self) -> (r: String)
        ensures
            r@ == spec_instance_line(self@),
    {
        let mut line = String::from_str("public-url: ");
        line.append(self.public_url.as_str());
        line.append(", git-url: ");
        line.append(self.git_url.as_str());
        line.append(", token: ***********");
        proof {
            assert(line@ =~= spec_instance_line(self@));
        }
        line
    }
}

impl MigrationConfig {
    /// The policy on one line.
    pub fn describe(&self) -> (r: String)
        ensures
            r@ == spec_migration_line(self.ignore_empty_repos),
    {
        let mut line = String::from_str("migration.ignore-empty-repos: ");
        line.append(bool_str(self.ignore_empty_repos));
        proof {
            assert(line@ =~= spec_migration_line(self.ignore_empty_repos));
        }
        line
    }
}

impl ErrorHandlersConfig {
    /// The policy on one line.
    pub fn describe(&self) -> (r: String)
        ensures
            r@ == spec_error_handlers_line(self.remove_target_repo_after_clone_error),
    {
        let mut line = String::from_str("remove-target-repo-after-clone-error: ");
        line.append(bool_str(self.remove_target_repo_after_clone_error));
        proof {
            assert(line@ =~= spec_error_handlers_line(
                self.remove_target_repo_after_clone_error,
            ));
        }
        line
    }
}

impl AppConfig {
    /// The whole configuration on one line; tokens never appear in it.
    pub fn describe(&self) -> (r: String)
        ensures
            r@ == spec_config_line(self@),
    {
        let mut line = String::from_str("log-level: ");
        line.append(self.log_level.as_str());
        line.append(", git-bin-path: '");
        line.append(self.git_bin_path.as_str());
        line.append("', source: ");
        let source_line = self.source.describe();
        line.append(source_line.as_str());
        line.append(", target: ");
        let target_line = self.target.describe();
        line.append(target_line.as_str());
        line.append(", ");
        let migration_line = self.migration.describe();
        line.append(migration_line.as_str());
        line.append(", error-handlers: ");
        let handlers_line = self.error_handlers.describe();
        line.append(handlers_line.as_str());
        proof {
            assert(line@ =~= spec_config_line(self@));
        }
        line
    }
}

/// The parser's working state.
struct Draft {
    log_level: Option<String>,
    git_bin_path: Option<String>,
    source_public_url: Option<String>,
    source_git_url: Option<String>,
    source_token: Option<String>,
    target_public_url: Option<String>,
    target_git_url: Option<String>,
    target_token: Option<String>,
    ignore_empty_repos: Option<bool>,
    remove_target_repo_after_clone_error: Option<bool>,
    section: ConfigSection,
}

/// The characters and flags of the working state.
spec fn draft_view(d: Draft) -> DraftView {
    DraftView {
        log_level: match d.log_level {
            Some(s) => Some(s@),
            None => None,
        },
        git_bin_path: match d.git_bin_path {
            Some(s) => Some(s@),
            None => None,
        },
        source_public_url: match d.source_public_url {
            Some(s) => Some(s@),
            None => None,
        },
        source_git_url: match d.source_git_url {
            Some(s) => Some(s@),
            None => None,
        },
        source_token: match d.source_token {
            Some(s) => Some(s@),
            None => None,
        },
        target_public_url: match d.target_public_url {
            Some(s) => Some(s@),
            None => None,
        },
        target_git_url: match d.target_git_url {
            Some(s) => Some(s@),
            None => None,
        },
        target_token: match d.target_token {
            Some(s) => Some(s@),
            None => None,
        },
        ignore_empty_repos: d.ignore_empty_repos,
        remove_target_repo_after_clone_error: d.remove_target_repo_after_clone_error,
        section: d.section,
    }
}

/// A value slice with one leading space removed.
fn strip_one_space<'a>(v: &'a str) -> (r: &'a str)
    ensures
        r@ == spec_strip_one_space(v@),
{
    let n = v.unicode_len();
    if n > 0 {
        if v.get_char(0) == ' ' {
            let r = v.substring_char(1, n);
            proof {
                assert(r@ =~= v@.drop_first());
            }
            return r;
        }
    }
    v
}

/// The boolean a value denotes, if any.
fn parse_bool_value(v: &str) -> (r: Option<bool>)
    ensures
        r == spec_bool_value(v@),
{
    if str_eq(v, "true") {
        Some(true)
    } else if str_eq(v, "false") {
        Some(false)
    } else {
        None
    }
}

/// Open the section a header names.
fn apply_section(d: &mut Draft, name: &str)
    ensures
        draft_view(*final(d)) == (DraftView {
            section: spec_section_named(name@),
            ..draft_view(*old(d))
        }),
{
    if str_eq(name, "source") {
        d.section = ConfigSection::Source;
    } else if str_eq(name, "target") {
        d.section = ConfigSection::Target;
    } else if str_eq(name, "migration") {
        d.section = ConfigSection::Migration;
    } else if str_eq(name, "error-handlers") {
        d.section = ConfigSection::ErrorHandlers;
    } else {
        d.section = ConfigSection::Unknown;
    }
}

/// Apply a top-level `key: value` entry.
fn apply_top(d: &mut Draft, key: &str, value: &str)
    ensures
        draft_view(*final(d)) == spec_apply_top(draft_view(*old(d)), key@, value@),
{
    if str_eq(key, "log-level") {
        d.log_level = Some(String::from_str(value));
    } else if str_eq(key, "git-bin-path") {
        d.git_bin_path = Some(String::from_str(value));
    }
}

/// Apply an indented `key: value` entry of the open section.
fn apply_entry(d: &mut Draft, key: &str, value: &str)
    ensures
        draft_view(*final(d)) == spec_apply_entry(draft_view(*old(d)), key@, value@),
{
    match d.section {
        ConfigSection::Source => {
            if str_eq(key, "public-url") {
                d.source_public_url = Some(String::from_str(value));
            } else if str_eq(key, "git-url") {
                d.source_git_url = Some(String::from_str(value));
            } else if str_eq(key, "token") {
                d.source_token = Some(String::from_str(value));
            }
        },
        ConfigSection::Target => {
            if str_eq(key, "public-url") {
                d.target_public_url = Some(String::from_str(value));
            } else if str_eq(key, "git-url") {
                d.target_git_url = Some(String::from_str(value));
            } else if str_eq(key, "token") {
                d.target_token = Some(String::from_str(value));
            }
        },
        ConfigSection::Migration => {
            if str_eq(key, "ignore-empty-repos") {
                match parse_bool_value(value) {
                    Some(b) => {
                        d.ignore_empty_repos = Some(b);
                    },
                    None => {},
                }
            }
        },
        ConfigSection::ErrorHandlers => {
            if str_eq(key, "remove-target-repo-after-clone-error") {
                match parse_bool_value(value) {
                    Some(b) => {
                        d.remove_target_repo_after_clone_error = Some(b);
                    },
                    None => {},
                }
            }
        },
        _ => {},
    }
}

/// Apply one line of the file to the working state.
fn apply_line(d: &mut Draft, line: &String)
    ensures
        draft_view(*final(d)) == spec_apply_line(draft_view(*old(d)), line@),
{
    let s = line.as_str();
    let n = s.unicode_len();
    let indented = n >= 2 && s.get_char(0) == ' ' && s.get_char(1) == ' ';
    if indented {
        let content = s.substring_char(2, n);
        proof {
            assert(content@ =~= s@.skip(2));
        }
        let content_n = content.unicode_len();
        match find_char(content, ':') {
            None => {},
            Some(ci) => {
                proof {
                    lemma_first_char_at(content@, ':', 0);
                }
                let key = content.substring_char(0, ci);
                let raw = content.substring_char(ci + 1, content_n);
                proof {
                    assert(raw@ =~= content@.skip(ci as int + 1));
                }
                let value = strip_one_space(raw);
                apply_entry(d, key, value);
            },
        }
    } else {
        match find_char(s, ':') {
            None => {},
            Some(ci) => {
                proof {
                    lemma_first_char_at(s@, ':', 0);
                }
                let key = s.substring_char(0, ci);
                let rest = s.substring_char(ci + 1, n);
                proof {
                    assert(rest@ =~= s@.skip(ci as int + 1));
                }
                if rest.unicode_len() == 0 {
                    apply_section(d, key);
                } else {
                    let value = strip_one_space(rest);
                    apply_top(d, key, value);
                }
            },
        }
    }
}

/// Parse the text of a configuration file.  Succeeds exactly when every
/// required entry is present; unknown keys and sections are ignored.
pub fn load_config_from_file(config_text: &str) -> (r: Result<AppConfig, ConfigError>)
    ensures
        match r {
            Ok(c) => spec_parse_config(config_text@) == Some(c@),
            Err(_) => spec_parse_config(config_text@) is None,
        },
{
    let lines = split_on_char(config_text, '\n');
    let ghost line_views = views_of(lines@);
    let mut draft = Draft {
        log_level: None,
        git_bin_path: None,
        source_public_url: None,
        source_git_url: None,
        source_token: None,
        target_public_url: None,
        target_git_url: None,
        target_token: None,
        ignore_empty_repos: None,
        remove_target_repo_after_clone_error: None,
        section: ConfigSection::Preamble,
    };
    proof {
        assert(draft_view(draft) == spec_apply_prefix(line_views, 0));
    }
    let mut i: usize = 0;
    while i < lines.len()
        invariant
            i <= lines@.len(),
            line_views == views_of(lines@),
            line_views == spec_split(config_text@, '\n'),
            draft_view(draft) == spec_apply_prefix(line_views, i as int),
        decreases lines@.len() - i,
    {
        apply_line(&mut draft, &lines[i]);
        proof {
            assert(lines@[i as int]@ == line_views[i as int]);
            assert(draft_view(draft) == spec_apply_prefix(line_views, i as int + 1));
        }
        i += 1;
    }
    proof {
        assert(draft_view(draft) == spec_final_draft(config_text@));
    }
    let Draft {
        log_level,
        git_bin_path,
        source_public_url,
        source_git_url,
        source_token,
        target_public_url,
        target_git_url,
        target_token,
        ignore_empty_repos,
        remove_target_repo_after_clone_error,
        section: _,
    } = draft;
    match (log_level, git_bin_path, source_public_url, source_git_url, source_token,
        target_public_url, target_git_url, target_token, ignore_empty_repos,
        remove_target_repo_after_clone_error,
    ) {
        (
            Some(log_level),
            Some(git_bin_path),
            Some(source_public_url),
            Some(source_git_url),
            Some(source_token),
            Some(target_public_url),
            Some(target_git_url),
            Some(target_token),
            Some(ignore_empty_repos),
            Some(remove_target_repo_after_clone_error),
        ) => {
            let config = AppConfig {
                log_level,
                git_bin_path,
                source: InstanceConfig {
                    public_url: source_public_url,
                    git_url: source_git_url,
                    token: source_token,
                },
                target: InstanceConfig {
                    public_url: target_public_url,
                    git_url: target_git_url,
                    token: target_token,
                },
                migration: MigrationConfig { ignore_empty_repos },
                error_handlers: ErrorHandlersConfig { remove_target_repo_after_clone_error },
            };
            Ok(config)
        },
        _ => Err(ConfigError::MissingEntry),
    }
}

} // verus!

use vstd::prelude::*;
use crate::config::AppConfig;
use crate::config::{opt_pattern, opt_text};
use crate::filter::{accepted_globs, lines_of, without_boms, FilterError, PathFilter};
use crate::repo::{GitwatchRepo, RepoError};
use crate::watcher::FileWatcher;

verus! {

/// Why the application could not be set up.
#[derive(Debug)]
pub enum AppError {
    /// The repository could not be opened or checked.
    Repo(RepoError),
    /// The path filter could not be built.
    Filter(FilterError),
}

/// The pipeline's parts, put together from one configuration.
pub struct App {
    commit_on_start: bool,
    path_filter: PathFilter,
    repo: GitwatchRepo,
    repo_path: String,
    watch: bool,
    watcher: FileWatcher,
}

impl App {
    pub closed spec fn wf(&self) -> bool {
        self.path_filter.wf() && self.repo.wf() && self.repo_path@ == self.path_filter.root()
    }

    pub closed spec fn spec_filter(&self) -> PathFilter {
        self.path_filter
    }

    pub closed spec fn spec_repo(&self) -> GitwatchRepo {
        self.repo
    }

    pub closed spec fn spec_watcher(&self) -> FileWatcher {
        self.watcher
    }

    pub closed spec fn spec_commit_on_start(&self) -> bool {
        self.commit_on_start
    }

    pub closed spec fn spec_watch(&self) -> bool {
        self.watch
    }

    /// Opens the repository and builds the filter and the watcher from
    /// `config`. `script_exists` tells whether the commit-message script, if
    /// any, exists; `ignore_file_text` is the text of the ignore file at the
    /// repository root (empty where there is none).
    pub fn new(config: AppConfig, script_exists: bool, ignore_file_text: &str) -> (r: Result<
        App,
        AppError,
    >)
        requires
            config.commit_message is Some || config.commit_message_script is Some,
        ensures
            r matches Ok(app) ==> {
                &&& app.wf()
                &&& app.spec_commit_on_start() == config.commit_on_start
                &&& app.spec_watch() == config.watch
                &&& app.spec_repo().spec_dry_run() == config.dry_run
                &&& app.spec_filter().root() == config.repository@
                &&& app.spec_filter().globs() == accepted_globs(
                    lines_of(without_boms(ignore_file_text@)),
                )
                &&& app.spec_filter().regex() == opt_pattern(config.ignore_regex)
                &&& app.spec_repo().spec_regex() == opt_pattern(config.ignore_regex)
                &&& app.spec_repo().spec_repo_path() == config.repository@
                &&& app.spec_repo().spec_remote() == opt_text(config.remote)
                &&& app.spec_repo().spec_commit_message() == opt_text(config.commit_message)
                &&& app.spec_repo().spec_script() == opt_text(config.commit_message_script)
                &&& app.spec_watcher().spec_debounce_seconds() == config.debounce_seconds
                &&& app.spec_watcher().spec_retry_count() == config.retries
            },
    {
        let staging_regex = match &config.ignore_regex {
            Some(re) => Some(re.duplicate()),
            None => None,
        };
        let repo = match GitwatchRepo::new(
            config.repository.as_str(),
            config.commit_message,
            config.commit_message_script,
            staging_regex,
            config.dry_run,
            config.remote,
            script_exists,
        ) {
            Ok(r) => r,
            Err(e) => return Err(AppError::Repo(e)),
        };
        let watcher = FileWatcher::new(config.debounce_seconds, config.retries);
        let path_filter = match PathFilter::new(
            config.repository.as_str(),
            ignore_file_text,
            config.ignore_regex,
        ) {
            Ok(f) => f,
            Err(e) => return Err(AppError::Filter(e)),
        };
        Ok(
            App {
                commit_on_start: config.commit_on_start,
                path_filter,
                repo,
                repo_path: config.repository,
                watch: config.watch,
                watcher,
            },
        )
    }

    /// Whether the pipeline runs once at start.
    pub fn commit_on_start(&self) -> (r: bool)
        ensures
            r == self.spec_commit_on_start(),
    {
        self.commit_on_start
    }

    /// Whether the working tree is watched.
    pub fn watch_enabled(&self) -> (r: bool)
        ensures
            r == self.spec_watch(),
    {
        self.watch
    }

    /// The repository path.
    pub fn repo_path(&self) -> (r: &str)
        requires
            self.wf(),
        ensures
            r@ == self.spec_filter().root(),
    {
        self.repo_path.as_str()
    }

    /// The path filter.
    pub fn path_filter(&self) -> (r: &PathFilter)
        requires
            self.wf(),
        ensures
            *r == self.spec_filter(),
            r.wf(),
    {
        &self.path_filter
    }

    /// The repository.
    pub fn repo(&self) -> (r: &GitwatchRepo)
        requires
            self.wf(),
        ensures
            *r == self.spec_repo(),
            r.wf(),
    {
        &self.repo
    }

    /// The watcher.
    pub fn watcher(&self) -> (r: &FileWatcher)
        ensures
            *r == self.spec_watcher(),
    {
        &self.watcher
    }
}

} // verus!

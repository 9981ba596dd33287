use vstd::prelude::*;
use crate::filter::IgnoreRegex;

verus! {

#[verifier::external_type_specification]
#[verifier::external_body]
pub struct ExLevelFilter(log::LevelFilter);

/// How much is logged.
#[derive(Clone, Copy, Debug, PartialEq, Eq, Structural)]
pub enum LogLevel {
    Trace,
    Debug,
    Info,
    Warn,
    Error,
}

impl Default for LogLevel {
    fn default() -> (r: LogLevel)
        ensures
            r == LogLevel::Info,
    {
        LogLevel::Info
    }
}

impl From<LogLevel> for log::LevelFilter {
    /// Relies on `log::LevelFilter` having a variant of each level's name.
    #[verifier::external_body]
    fn from(level: LogLevel) -> (r: log::LevelFilter) {
        match level {
            LogLevel::Trace => log::LevelFilter::Trace,
            LogLevel::Debug => log::LevelFilter::Debug,
            LogLevel::Info => log::LevelFilter::Info,
            LogLevel::Warn => log::LevelFilter::Warn,
            LogLevel::Error => log::LevelFilter::Error,
        }
    }
}


/// The commit-message options of the command line; at most one is set.
pub struct CommitMessageOptions {
    /// A static commit message.
    pub message: Option<String>,
    /// The path of a script that prints the commit message.
    pub script: Option<String>,
}

/// The watch options of the command line.
pub struct CliOptions {
    pub repository: String,
    pub commit_message: CommitMessageOptions,
    pub commit_on_start: bool,
    pub debounce_seconds: u64,
    pub dry_run: bool,
    pub ignore_regex: Option<IgnoreRegex>,
    pub log_level: LogLevel,
    pub remote: Option<String>,
    pub retries: i32,
    pub watch: bool,
}

/// The settings of the configuration file; each may be absent.
pub struct ConfigFile {
    pub commit_message: Option<String>,
    pub commit_message_script: Option<String>,
    pub commit_on_start: Option<bool>,
    pub debounce_seconds: Option<u64>,
    pub dry_run: Option<bool>,
    pub ignore_regex: Option<IgnoreRegex>,
    pub remote: Option<String>,
    pub retries: Option<i32>,
    pub watch: Option<bool>,
}

impl Default for ConfigFile {
    fn default() -> (r: ConfigFile)
        ensures
            r.commit_message is None,
            r.commit_message_script is None,
            r.commit_on_start is None,
            r.debounce_seconds is None,
            r.dry_run is None,
            r.ignore_regex is None,
            r.remote is None,
            r.retries is None,
            r.watch is None,
    {
        ConfigFile {
            commit_message: None,
            commit_message_script: None,
            commit_on_start: None,
            debounce_seconds: None,
            dry_run: None,
            ignore_regex: None,
            remote: None,
            retries: None,
            watch: None,
        }
    }
}

/// The settings the application runs with.
pub struct AppConfig {
    pub commit_message: Option<String>,
    pub commit_message_script: Option<String>,
    pub commit_on_start: bool,
    pub debounce_seconds: u64,
    pub dry_run: bool,
    pub ignore_regex: Option<IgnoreRegex>,
    pub remote: Option<String>,
    pub repository: String,
    pub retries: i32,
    pub watch: bool,
}

/// `a` where it is set, else `b`.
pub open spec fn first_of<T>(a: Option<T>, b: Option<T>) -> Option<T> {
    match a {
        Some(x) => Some(x),
        None => b,
    }
}

/// `a` where it is set, else `b`.
pub open spec fn or_else<T>(a: Option<T>, b: T) -> T {
    match a {
        Some(x) => x,
        None => b,
    }
}

pub open spec fn opt_text(o: Option<String>) -> Option<Seq<char>> {
    match o {
        Some(s) => Some(s@),
        None => None,
    }
}

pub open spec fn opt_pattern(o: Option<IgnoreRegex>) -> Option<Seq<char>> {
    match o {
        Some(r) => Some(r@),
        None => None,
    }
}

/// The path `p` read relative to the directory `dir`: `p` itself where it
/// is absolute, else `p` after `dir` and a separator.
pub open spec fn joined(dir: Seq<char>, p: Seq<char>) -> Seq<char> {
    if p.len() > 0 && p[0] == '/' {
        p
    } else if dir.len() > 0 && dir.last() == '/' {
        dir + p
    } else {
        dir + seq!['/'] + p
    }
}

/// Reads `p` relative to the directory `dir`.
pub fn join_path(dir: &str, p: &str) -> (r: String)
    ensures
        r@ == joined(dir@, p@),
{
    let plen = p.unicode_len();
    if plen > 0 && p.get_char(0) == '/' {
        return String::from_str(p);
    }
    let dlen = dir.unicode_len();
    let mut s = String::from_str(dir);
    if !(dlen > 0 && dir.get_char(dlen - 1) == '/') {
        s.append("/");
        proof {
            reveal_strlit("/");
        }
    }
    s.append(p);
    s
}

/// Why a configuration was refused.
#[derive(Debug, PartialEq, Eq, Structural)]
pub enum ConfigError {
    /// The retry count is below `-1`.
    RetryCount,
    /// The repository path does not exist.
    RepositoryMissing,
    /// Neither a commit message nor a commit-message script is set.
    NoMessageSource,
    /// Both a commit message and a commit-message script are set.
    BothMessageSources,
    /// The commit-message script does not exist.
    ScriptMissing,
    /// The commit-message script path is not a file.
    ScriptNotFile,
}

impl ConfigError {
    /// The text that describes the error.
    pub open spec fn description(&self) -> Seq<char> {
        match self {
            ConfigError::RetryCount => "Retry count must be >= -1"@,
            ConfigError::RepositoryMissing => "Repository path does not exist"@,
            ConfigError::NoMessageSource => "Either commit-message or commit-message-script must be set"@,
            ConfigError::BothMessageSources => "Only one of commit-message or commit-message-script can be set"@,
            ConfigError::ScriptMissing => "Commit message script does not exist"@,
            ConfigError::ScriptNotFile => "Commit message script path is not a file"@,
        }
    }

    /// A one-line description of the error.
    pub fn describe(&self) -> (r: String)
        ensures
            r@ == self.description(),
    {
        match self {
            ConfigError::RetryCount => String::from_str("Retry count must be >= -1"),
            ConfigError::RepositoryMissing => String::from_str("Repository path does not exist"),
            ConfigError::NoMessageSource => String::from_str(
                "Either commit-message or commit-message-script must be set",
            ),
            ConfigError::BothMessageSources => String::from_str(
                "Only one of commit-message or commit-message-script can be set",
            ),
            ConfigError::ScriptMissing => String::from_str("Commit message script does not exist"),
            ConfigError::ScriptNotFile => String::from_str(
                "Commit message script path is not a file",
            ),
        }
    }
}

/// What the file system says of the paths a configuration names.
pub struct PathFacts {
    pub repository_exists: bool,
    pub script_exists: bool,
    pub script_is_file: bool,
}

impl AppConfig {
    /// Merges the command line and the configuration file: each setting of
    /// the file takes precedence over the command line's. A relative script
    /// path is read relative to `repository`.
    pub fn merge_configs(repository: String, cli_config: CliOptions, file_config: ConfigFile) -> (r:
        AppConfig)
        ensures
            r.repository@ == repository@,
            opt_text(r.commit_message) == first_of(
                opt_text(file_config.commit_message),
                opt_text(cli_config.commit_message.message),
            ),
            opt_text(r.commit_message_script) == match first_of(
                opt_text(file_config.commit_message_script),
                opt_text(cli_config.commit_message.script),
            ) {
                Some(p) => Some(joined(repository@, p)),
                None => None,
            },
            r.commit_on_start == or_else(file_config.commit_on_start, cli_config.commit_on_start),
            r.debounce_seconds == or_else(file_config.debounce_seconds, cli_config.debounce_seconds),
            r.dry_run == or_else(file_config.dry_run, cli_config.dry_run),
            opt_pattern(r.ignore_regex) == first_of(
                opt_pattern(file_config.ignore_regex),
                opt_pattern(cli_config.ignore_regex),
            ),
            opt_text(r.remote) == first_of(opt_text(file_config.remote), opt_text(cli_config.remote)),
            r.retries == or_else(file_config.retries, cli_config.retries),
            r.watch == or_else(file_config.watch, cli_config.watch),
    {
        let commit_message = match file_config.commit_message {
            Some(m) => Some(m),
            None => cli_config.commit_message.message,
        };
        let script = match file_config.commit_message_script {
            Some(p) => Some(p),
            None => cli_config.commit_message.script,
        };
        let commit_message_script = match script {
            Some(p) => Some(join_path(repository.as_str(), p.as_str())),
            None => None,
        };
        let commit_on_start = match file_config.commit_on_start {
            Some(b) => b,
            None => cli_config.commit_on_start,
        };
        let debounce_seconds = match file_config.debounce_seconds {
            Some(d) => d,
            None => cli_config.debounce_seconds,
        };
        let dry_run = match file_config.dry_run {
            Some(b) => b,
            None => cli_config.dry_run,
        };
        let ignore_regex = match file_config.ignore_regex {
            Some(re) => Some(re),
            None => cli_config.ignore_regex,
        };
        let remote = match file_config.remote {
            Some(name) => Some(name),
            None => cli_config.remote,
        };
        let retries = match file_config.retries {
            Some(n) => n,
            None => cli_config.retries,
        };
        let watch = match file_config.watch {
            Some(b) => b,
            None => cli_config.watch,
        };
        AppConfig {
            commit_message,
            commit_message_script,
            commit_on_start,
            debounce_seconds,
            dry_run,
            ignore_regex,
            remote,
            repository,
            retries,
            watch,
        }
    }

    /// Checks the configuration, in this order: the retry count is at least
    /// `-1`; the repository exists; exactly one commit-message source is
    /// set; a script, where set, exists and is a file.
    pub fn validate(&self, facts: &PathFacts) -> (r: Result<(), ConfigError>)
        ensures
            r == if self.retries < -1 {
                Err(ConfigError::RetryCount)
            } else if !facts.repository_exists {
                Err(ConfigError::RepositoryMissing)
            } else if self.commit_message is None && self.commit_message_script is None {
                Err(ConfigError::NoMessageSource)
            } else if self.commit_message is Some && self.commit_message_script is Some {
                Err(ConfigError::BothMessageSources)
            } else if self.commit_message_script is Some && !facts.script_exists {
                Err(ConfigError::ScriptMissing)
            } else if self.commit_message_script is Some && !facts.script_is_file {
                Err(ConfigError::ScriptNotFile)
            } else {
                Ok(())
            },
    {
        if self.retries < -1 {
            return Err(ConfigError::RetryCount);
        }
        if !facts.repository_exists {
            return Err(ConfigError::RepositoryMissing);
        }
        match (&self.commit_message, &self.commit_message_script) {
            (None, None) => Err(ConfigError::NoMessageSource),
            (Some(_), Some(_)) => Err(ConfigError::BothMessageSources),
            (None, Some(_)) => {
                if !facts.script_exists {
                    Err(ConfigError::ScriptMissing)
                } else if !facts.script_is_file {
                    Err(ConfigError::ScriptNotFile)
                } else {
                    Ok(())
                }
            },
            (Some(_), None) => Ok(()),
        }
    }
}

} // verus!

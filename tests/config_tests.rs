use gitwatch_rs::config::{
    AppConfig, CliOptions, CommitMessageOptions, ConfigError, ConfigFile, LogLevel, PathFacts,
};
use gitwatch_rs::filter::IgnoreRegex;
use log::LevelFilter;

#[test]
fn test_loglevel_conversion() {
    let conversions = [
        (LogLevel::Trace, LevelFilter::Trace),
        (LogLevel::Debug, LevelFilter::Debug),
        (LogLevel::Info, LevelFilter::Info),
        (LogLevel::Warn, LevelFilter::Warn),
        (LogLevel::Error, LevelFilter::Error),
    ];

    for (input, expected) in conversions {
        assert_eq!(LevelFilter::from(input), expected);
    }
}

fn valid_config(repo: &str) -> AppConfig {
    AppConfig {
        repository: repo.to_string(),
        commit_message: Some("test".to_string()),
        commit_message_script: None,
        commit_on_start: true,
        debounce_seconds: 0,
        ignore_regex: None,
        watch: true,
        retries: 3,
        dry_run: false,
        remote: None,
    }
}

fn all_exist() -> PathFacts {
    PathFacts { repository_exists: true, script_exists: true, script_is_file: true }
}

#[test]
fn test_config_validation() {
    let valid = valid_config("/repo");
    assert!(valid.validate(&all_exist()).is_ok());

    let missing = AppConfig { commit_message: None, ..valid_config("/repo") };
    let err = missing.validate(&all_exist()).unwrap_err();
    assert_eq!(err, ConfigError::NoMessageSource);
    assert_eq!(err.describe(), "Either commit-message or commit-message-script must be set");

    let both = AppConfig {
        commit_message_script: Some("/repo/commit-msg.sh".to_string()),
        ..valid_config("/repo")
    };
    assert_eq!(
        both.validate(&all_exist()).unwrap_err().describe(),
        "Only one of commit-message or commit-message-script can be set"
    );

    let with_script = AppConfig {
        commit_message: None,
        commit_message_script: Some("/repo/commit-msg.sh".to_string()),
        ..valid_config("/repo")
    };
    assert!(with_script.validate(&all_exist()).is_ok());

    let bad_retries = AppConfig { retries: -2, ..valid_config("/repo") };
    assert!(bad_retries
        .validate(&all_exist())
        .unwrap_err()
        .describe()
        .contains("Retry count must be >= -1"));

    let facts = PathFacts { repository_exists: true, script_exists: false, script_is_file: false };
    assert!(with_script
        .validate(&facts)
        .unwrap_err()
        .describe()
        .contains("Commit message script does not exist"));

    let facts = PathFacts { repository_exists: true, script_exists: true, script_is_file: false };
    assert!(with_script
        .validate(&facts)
        .unwrap_err()
        .describe()
        .contains("Commit message script path is not a file"));

    let facts = PathFacts { repository_exists: false, script_exists: true, script_is_file: true };
    assert!(valid_config("/nonexistent/path")
        .validate(&facts)
        .unwrap_err()
        .describe()
        .contains("Repository path does not exist"));
}

fn cli_options(repo: &str) -> CliOptions {
    CliOptions {
        repository: repo.to_string(),
        commit_message: CommitMessageOptions { message: Some("cli message".to_string()), script: None },
        commit_on_start: true,
        debounce_seconds: 1,
        dry_run: false,
        ignore_regex: Some(IgnoreRegex::new("cli_ignore.*").unwrap()),
        log_level: LogLevel::Info,
        remote: Some("cli_remote".to_string()),
        retries: 3,
        watch: true,
    }
}

#[test]
fn test_config_precedence_cli_only() {
    let config = AppConfig::merge_configs("/repo".to_string(), cli_options("/repo"), ConfigFile::default());
    assert_eq!(config.commit_message.unwrap(), "cli message");
    assert_eq!(None, config.commit_message_script);
    assert!(config.commit_on_start);
    assert_eq!(config.debounce_seconds, 1);
    assert!(!config.dry_run);
    assert_eq!(config.ignore_regex.unwrap().as_str(), "cli_ignore.*");
    assert_eq!(config.remote.unwrap(), "cli_remote");
    assert_eq!(config.retries, 3);
    assert!(config.watch);
}

#[test]
fn test_config_precedence_with_file() {
    let file = ConfigFile {
        commit_message: Some("file message".to_string()),
        commit_message_script: None,
        commit_on_start: Some(false),
        debounce_seconds: Some(5),
        dry_run: Some(true),
        ignore_regex: Some(IgnoreRegex::new("file_ignore.*").unwrap()),
        remote: Some("file_remote".to_string()),
        retries: Some(5),
        watch: Some(false),
    };
    let config = AppConfig::merge_configs("/repo".to_string(), cli_options("/repo"), file);
    assert_eq!(None, config.commit_message_script);
    assert_eq!(config.commit_message.unwrap(), "file message");
    assert!(!config.commit_on_start);
    assert_eq!(config.debounce_seconds, 5);
    assert!(config.dry_run);
    assert_eq!(config.ignore_regex.unwrap().as_str(), "file_ignore.*");
    assert_eq!(config.remote.unwrap(), "file_remote");
    assert_eq!(config.retries, 5);
    assert!(!config.watch);
}

#[test]
fn test_config_partial_file() {
    let file = ConfigFile {
        debounce_seconds: Some(5),
        remote: Some("file_remote".to_string()),
        ..ConfigFile::default()
    };
    let config = AppConfig::merge_configs("/repo".to_string(), cli_options("/repo"), file);
    assert_eq!(config.debounce_seconds, 5);
    assert_eq!(config.remote.unwrap(), "file_remote");
    assert!(config.commit_on_start);
    assert!(!config.dry_run);
    assert_eq!(config.ignore_regex.unwrap().as_str(), "cli_ignore.*");
    assert_eq!(config.retries, 3);
}

#[test]
fn test_relative_paths() {
    let mut cli = cli_options("/work/repo");
    cli.commit_message = CommitMessageOptions { message: None, script: Some("./commit-msg.sh".to_string()) };
    let config = AppConfig::merge_configs("/work/repo".to_string(), cli, ConfigFile::default());
    assert_eq!(config.commit_message_script.unwrap(), "/work/repo/./commit-msg.sh");
}

#[test]
fn test_absolute_paths() {
    let mut cli = cli_options("/work/repo");
    cli.commit_message = CommitMessageOptions { message: None, script: Some("/elsewhere/commit-msg.sh".to_string()) };
    let config = AppConfig::merge_configs("/work/repo".to_string(), cli, ConfigFile::default());
    assert_eq!(config.commit_message_script.unwrap(), "/elsewhere/commit-msg.sh");
}

#[test]
fn test_join_path_with_trailing_separator() {
    assert_eq!(gitwatch_rs::config::join_path("/repo/", "a.sh"), "/repo/a.sh");
    assert_eq!(gitwatch_rs::config::join_path("/repo", "a.sh"), "/repo/a.sh");
}

#[test]
fn test_config_validation_order() {
    let config = AppConfig { retries: -2, commit_message: None, ..valid_config("/x") };
    let facts = PathFacts { repository_exists: false, script_exists: false, script_is_file: false };
    assert_eq!(config.validate(&facts), Err(ConfigError::RetryCount));
}

#[test]
fn test_config_from_cli_invalid() {
    let mut cli = cli_options("/repo");
    cli.retries = -2;
    let config = AppConfig::merge_configs("/repo".to_string(), cli, ConfigFile::default());
    let result = config.validate(&all_exist());
    assert!(result.is_err());
    assert!(result.unwrap_err().describe().contains("Retry count must be >= -1"));
}

#[test]
fn test_load_empty_config() {
    let config = ConfigFile::default();
    assert!(config.commit_message.is_none());
    assert!(config.commit_message_script.is_none());
    assert!(config.commit_on_start.is_none());
    assert!(config.debounce_seconds.is_none());
    assert!(config.dry_run.is_none());
    assert!(config.ignore_regex.is_none());
    assert!(config.remote.is_none());
    assert!(config.retries.is_none());
    assert!(config.watch.is_none());
}

#[test]
fn test_default_log_level() {
    assert_eq!(LogLevel::default(), LogLevel::Info);
}

use std::io::Write;
use std::path::Path;

use git2::{Repository, Signature};
use gitwatch_rs::filter::IgnoreRegex;
use gitwatch_rs::message::ScriptRun;
use gitwatch_rs::repo::{GitwatchRepo, Outcome, RepoError};
use tempfile::TempDir;

fn no_script(_script: &str, _dir: &str) -> ScriptRun {
    ScriptRun::NotStarted("no script expected".to_string())
}

fn init_repo(dir: &Path) -> Repository {
    let repo = Repository::init(dir).unwrap();
    let mut config = repo.config().unwrap();
    config.set_str("user.name", "Tester").unwrap();
    config.set_str("user.email", "tester@example.com").unwrap();
    repo
}

fn write(dir: &Path, name: &str, content: &str) {
    let mut file = tempfile::NamedTempFile::new_in(dir).unwrap();
    file.write_all(content.as_bytes()).unwrap();
    file.persist(dir.join(name)).unwrap();
}

fn delete(dir: &Path, name: &str) {
    drop(tempfile::TempPath::from_path(dir.join(name)));
}

fn initial_commit(dir: &Path, repo: &Repository) {
    write(dir, "initial.txt", "initial content");
    let mut index = repo.index().unwrap();
    index.add_path(Path::new("initial.txt")).unwrap();
    index.write().unwrap();
    let tree_id = index.write_tree().unwrap();
    let tree = repo.find_tree(tree_id).unwrap();
    let who = Signature::now("Tester", "tester@example.com").unwrap();
    repo.commit(Some("HEAD"), &who, &who, "feat: initial commit", &tree, &[]).unwrap();
}

fn commit_count(repo: &Repository) -> usize {
    let mut walk = repo.revwalk().unwrap();
    walk.push_head().unwrap();
    walk.count()
}

fn head_message(repo: &Repository) -> String {
    repo.head().unwrap().peel_to_commit().unwrap().message().unwrap().to_string()
}

fn dir_str(dir: &TempDir) -> String {
    dir.path().to_str().unwrap().to_string()
}

fn open(dir: &TempDir, message: &str, regex: Option<&str>, dry_run: bool, remote: Option<&str>) -> GitwatchRepo {
    GitwatchRepo::new(
        &dir_str(dir),
        Some(message.to_string()),
        None,
        regex.map(|r| IgnoreRegex::new(r).unwrap()),
        dry_run,
        remote.map(|r| r.to_string()),
        true,
    )
    .unwrap()
}

#[test]
fn test_empty_repo() {
    let temp_dir = TempDir::new().unwrap();
    let result = GitwatchRepo::new(&dir_str(&temp_dir), Some("test".to_string()), None, None, false, None, true);
    let err_str = result.err().unwrap().describe();
    assert!(
        err_str.contains("could not find repository"),
        "Expected error about missing repository, got: {err_str}"
    );
}

#[test]
fn test_invalid_commit_message_script() {
    let temp_dir = TempDir::new().unwrap();
    init_repo(temp_dir.path());
    let result = GitwatchRepo::new(
        &dir_str(&temp_dir),
        None,
        Some("/nonexistent/script".to_string()),
        None,
        false,
        None,
        false,
    );
    let err = result.err().unwrap();
    assert!(err.describe().contains("Commit message script not found"));
}

#[test]
fn test_invalid_remote() {
    let temp_dir = TempDir::new().unwrap();
    init_repo(temp_dir.path());
    let result = GitwatchRepo::new(
        &dir_str(&temp_dir),
        Some("test".to_string()),
        None,
        None,
        false,
        Some("nonexistent-remote".to_string()),
        true,
    );
    let err_str = result.err().unwrap().describe();
    assert!(
        err_str.contains("Remote 'nonexistent-remote' not found"),
        "Expected error about missing remote, got: {err_str}"
    );
}

#[test]
fn test_commit_and_push() {
    let temp_dir = TempDir::new().unwrap();
    let git = init_repo(temp_dir.path());
    git.remote("origin", "foo://nowhere/repo").unwrap();
    let repo = open(&temp_dir, "test", None, false, Some("origin"));

    // commit with empty index: nothing is staged, and no commit is created
    assert!(matches!(repo.process_changes(no_script), Ok(Outcome::Clean)));
    assert!(git.head().is_err(), "Head should not exist as no commit should have been created");

    // a tracked file deleted: the change is staged, but the index is empty
    initial_commit(temp_dir.path(), &git);
    delete(temp_dir.path(), "initial.txt");
    assert!(matches!(repo.process_changes(no_script), Ok(Outcome::EmptyIndex)));
    assert_eq!(commit_count(&git), 1);

    // a push that fails still leaves the commit
    write(temp_dir.path(), "again.txt", "content");
    let err = repo.process_changes(no_script).unwrap_err();
    match &err {
        RepoError::Push { remote, commit, reason } => {
            assert_eq!(remote, "origin");
            assert_eq!(commit, &git.head().unwrap().target().unwrap().to_string());
            assert!(!reason.is_empty(), "Unexpected error message: {reason}");
        }
        other => panic!("Unexpected error: {other:?}"),
    }
    assert_eq!(commit_count(&git), 2);
}

#[test]
fn app_test_commit_on_start() {
    // a first commit needs a parent: a repository without history is refused
    let temp_dir = TempDir::new().unwrap();
    let git = init_repo(temp_dir.path());
    write(temp_dir.path(), "foo.txt", "bar");
    let repo = open(&temp_dir, "test message", None, false, None);
    let result = repo.process_changes(no_script);
    assert!(matches!(result, Err(RepoError::NoParentCommit(_))));
    assert!(!git.statuses(None).unwrap().is_empty());
}

#[test]
fn test_watch_false() {
    // with watching off and no commit at start, the change stays uncommitted
    let temp_dir = TempDir::new().unwrap();
    let git = init_repo(temp_dir.path());
    write(temp_dir.path(), "foo.txt", "bar");
    let config = gitwatch_rs::config::AppConfig {
        repository: dir_str(&temp_dir),
        commit_message: Some("test message".to_string()),
        commit_message_script: None,
        commit_on_start: false,
        debounce_seconds: 1,
        dry_run: false,
        ignore_regex: None,
        remote: None,
        retries: 3,
        watch: false,
    };
    let app = gitwatch_rs::app::App::new(config, true, "").unwrap();
    assert!(!app.watch_enabled());
    assert!(!app.commit_on_start());
    assert!(!git.statuses(None).unwrap().is_empty());
}

#[test]
fn repo_test_ignore_regex() {
    let temp_dir = TempDir::new().unwrap();
    let git = init_repo(temp_dir.path());
    initial_commit(temp_dir.path(), &git);
    let repo = open(&temp_dir, "test", Some(".*foo.txt.*"), false, None);
    write(temp_dir.path(), "foo.txt", "test content");
    assert!(
        matches!(repo.process_changes(no_script), Ok(Outcome::Clean)),
        "Index should be empty when file is ignored"
    );
    assert_eq!(commit_count(&git), 1);
}

#[test]
fn integration_tests_test_commit_on_start() {
    let temp_dir = TempDir::new().unwrap();
    let git = init_repo(temp_dir.path());
    initial_commit(temp_dir.path(), &git);
    write(temp_dir.path(), "new.txt", "content");
    let repo = open(&temp_dir, "init", None, false, None);
    let outcome = repo.process_changes(no_script).unwrap();
    assert!(matches!(outcome, Outcome::Committed { ref message, .. } if message == "init"));
    assert_eq!(commit_count(&git), 2, "commit not found in git log");
    assert_eq!(head_message(&git), "init");
    let head = git.head().unwrap().peel_to_commit().unwrap();
    assert!(head.tree().unwrap().get_name("new.txt").is_some());
}

#[test]
fn test_second_run_is_noop() {
    let temp_dir = TempDir::new().unwrap();
    let git = init_repo(temp_dir.path());
    initial_commit(temp_dir.path(), &git);
    write(temp_dir.path(), "a.txt", "a");
    let repo = open(&temp_dir, "snap", None, false, None);
    assert!(matches!(repo.process_changes(no_script), Ok(Outcome::Committed { .. })));
    assert!(matches!(repo.process_changes(no_script), Ok(Outcome::Clean)));
    assert_eq!(commit_count(&git), 2);
}

#[test]
fn test_watch() {
    // a later change, here a deletion, gives a second commit
    let temp_dir = TempDir::new().unwrap();
    let git = init_repo(temp_dir.path());
    initial_commit(temp_dir.path(), &git);
    let repo = open(&temp_dir, "test", None, false, None);
    write(temp_dir.path(), "file.txt", "content");
    assert!(matches!(repo.process_changes(no_script), Ok(Outcome::Committed { .. })));
    delete(temp_dir.path(), "file.txt");
    assert!(matches!(repo.process_changes(no_script), Ok(Outcome::Committed { .. })));
    assert_eq!(commit_count(&git), 3);
}

#[test]
fn test_dry_run() {
    let temp_dir = TempDir::new().unwrap();
    let git = init_repo(temp_dir.path());
    initial_commit(temp_dir.path(), &git);
    write(temp_dir.path(), "file.txt", "content");
    let repo = open(&temp_dir, "test", None, true, None);
    for _ in 0..2 {
        match repo.process_changes(no_script).unwrap() {
            Outcome::DryRun { message, staged_files } => {
                assert_eq!(message, "test");
                assert_eq!(staged_files, vec!["file.txt".to_string()]);
            }
            _ => panic!("Expected no commit"),
        }
    }
    assert_eq!(commit_count(&git), 1, "Expected no commit");
}

#[test]
fn test_commit_message_script() {
    let temp_dir = TempDir::new().unwrap();
    let git = init_repo(temp_dir.path());
    initial_commit(temp_dir.path(), &git);
    write(temp_dir.path(), "file.txt", "content");
    let repo = GitwatchRepo::new(
        &dir_str(&temp_dir),
        None,
        Some("/scripts/msg.sh".to_string()),
        None,
        false,
        None,
        true,
    )
    .unwrap();
    let expected_dir = dir_str(&temp_dir);
    let outcome = repo.process_changes(|script: &str, dir: &str| {
        assert_eq!(script, "/scripts/msg.sh");
        assert_eq!(dir, expected_dir);
        ScriptRun::Finished {
            success: true,
            status: "exit status: 0".to_string(),
            stdout: Some("generated commit message\n".to_string()),
            stderr: String::new(),
        }
    });
    assert!(matches!(outcome, Ok(Outcome::Committed { .. })));
    assert_eq!(head_message(&git), "generated commit message\n");
}

#[test]
fn test_failing_script_makes_no_commit() {
    let temp_dir = TempDir::new().unwrap();
    let git = init_repo(temp_dir.path());
    initial_commit(temp_dir.path(), &git);
    write(temp_dir.path(), "file.txt", "content");
    let repo = GitwatchRepo::new(&dir_str(&temp_dir), None, Some("s.sh".to_string()), None, false, None, true)
        .unwrap();
    let outcome = repo.process_changes(|_s: &str, _d: &str| ScriptRun::Finished {
        success: false,
        status: "exit status: 1".to_string(),
        stdout: Some(String::new()),
        stderr: "oops".to_string(),
    });
    assert!(matches!(outcome, Err(RepoError::Message(_))));
    assert_eq!(commit_count(&git), 1);
}

#[test]
fn test_push() {
    let temp_dir = TempDir::new().unwrap();
    let remote_dir = TempDir::new().unwrap();
    let git = init_repo(temp_dir.path());
    Repository::init_bare(remote_dir.path()).unwrap();
    git.remote("origin", remote_dir.path().to_str().unwrap()).unwrap();
    initial_commit(temp_dir.path(), &git);
    let repo = open(&temp_dir, "pushed", None, false, Some("origin"));
    write(temp_dir.path(), "file.txt", "content");
    assert!(matches!(repo.process_changes(no_script), Ok(Outcome::Committed { .. })));
    let bare = Repository::open_bare(remote_dir.path()).unwrap();
    let branch = git.head().unwrap().shorthand().unwrap().to_string();
    let remote_head = bare
        .find_reference(&format!("refs/heads/{branch}"))
        .unwrap()
        .peel_to_commit()
        .unwrap();
    assert_eq!(remote_head.message().unwrap(), "pushed", "Remote commit message doesn't match");
}

#[test]
fn test_push_invalid_remote() {
    let temp_dir = TempDir::new().unwrap();
    let remote_dir = TempDir::new().unwrap();
    let git = init_repo(temp_dir.path());
    Repository::init_bare(remote_dir.path()).unwrap();
    git.remote("origin", remote_dir.path().to_str().unwrap()).unwrap();
    initial_commit(temp_dir.path(), &git);
    let repo = open(&temp_dir, "test", None, false, Some("origin"));
    git.remote_delete("origin").unwrap();
    write(temp_dir.path(), "file.txt", "content");
    let err = repo.process_changes(no_script).unwrap_err();
    assert!(
        err.describe().contains("Failed to push to remote 'origin'"),
        "Unexpected error message: {}",
        err.describe()
    );
    assert!(matches!(err, RepoError::Push { ref remote, .. } if remote == "origin"));
    assert_eq!(commit_count(&git), 2);
    assert_eq!(head_message(&git), "test");
}

#[test]
fn test_dirty_paths() {
    let temp_dir = TempDir::new().unwrap();
    let git = init_repo(temp_dir.path());
    initial_commit(temp_dir.path(), &git);
    write(temp_dir.path(), "new.txt", "x");
    let repo = open(&temp_dir, "m", None, false, None);
    assert_eq!(repo.dirty_paths().unwrap(), vec!["new.txt".to_string()]);
}

#[test]
fn test_staging_exclusion_uses_regex_only() {
    let temp_dir = TempDir::new().unwrap();
    init_repo(temp_dir.path());
    let repo = open(&temp_dir, "m", Some("\\.tmp$"), false, None);
    assert!(repo.excluded_from_staging("a/b.tmp"));
    assert!(!repo.excluded_from_staging(".git/config"));
    let plain = open(&temp_dir, "m", None, false, None);
    assert!(!plain.excluded_from_staging("a/b.tmp"));
}

use gitwatch_rs::repo::{
    has_staged_changes, plan_after_staging, refspec_for, staged_file_paths, EntryStatus, Plan,
    INDEX_MODIFIED, INDEX_NEW, INDEX_RENAMED,
};

fn entry(bits: u32, path: &str) -> EntryStatus {
    EntryStatus { bits, path: Some(path.to_string()) }
}

const WT_NEW: u32 = 1 << 7;

#[test]
fn test_staged_detection() {
    assert!(!has_staged_changes(&vec![entry(WT_NEW, "a")]));
    assert!(has_staged_changes(&vec![entry(WT_NEW, "a"), entry(INDEX_RENAMED, "b")]));
    assert!(!has_staged_changes(&vec![]));
}

#[test]
fn test_staged_file_paths() {
    let entries = vec![
        entry(INDEX_NEW, "new.txt"),
        entry(INDEX_RENAMED, "moved.txt"),
        entry(INDEX_MODIFIED | WT_NEW, "changed.txt"),
        EntryStatus { bits: INDEX_NEW, path: None },
    ];
    assert_eq!(
        staged_file_paths(&entries),
        vec!["new.txt".to_string(), "moved.txt".to_string(), "changed.txt".to_string()]
    );
}

#[test]
fn test_plan_after_staging() {
    let clean = vec![entry(WT_NEW, "a")];
    let dirty = vec![entry(INDEX_NEW, "a")];
    assert_eq!(plan_after_staging(&clean, false), Plan::NothingStaged);
    assert_eq!(plan_after_staging(&clean, true), Plan::NothingStaged);
    assert_eq!(plan_after_staging(&dirty, true), Plan::Report);
    assert_eq!(plan_after_staging(&dirty, false), Plan::Commit);
}

#[test]
fn test_refspec_for() {
    assert_eq!(refspec_for("main"), "HEAD:refs/heads/main");
}

#[test]
fn test_process_staged_clean_is_noop() {
    let temp_dir = TempDir::new().unwrap();
    let git = init_repo(temp_dir.path());
    initial_commit(temp_dir.path(), &git);
    let repo = open(&temp_dir, "m", None, false, None);
    let outcome = repo.process_staged(&vec![entry(WT_NEW, "x")], &no_script);
    assert!(matches!(outcome, Ok(Outcome::Clean)));
    assert_eq!(commit_count(&git), 1);
}

#[test]
fn test_process_staged_dry_run_reports() {
    let temp_dir = TempDir::new().unwrap();
    let git = init_repo(temp_dir.path());
    initial_commit(temp_dir.path(), &git);
    let repo = open(&temp_dir, "would commit", None, true, None);
    let entries = vec![entry(INDEX_NEW, "a.txt"), entry(INDEX_RENAMED, "b.txt")];
    match repo.process_staged(&entries, &no_script).unwrap() {
        Outcome::DryRun { message, staged_files } => {
            assert_eq!(message, "would commit");
            assert_eq!(staged_files, vec!["a.txt".to_string(), "b.txt".to_string()]);
        }
        other => panic!("unexpected {other:?}"),
    }
}

use gitwatch_rs::message::MessageError;
use gitwatch_rs::repo::finish_commit;

#[test]
fn test_finish_commit_empty_index() {
    assert!(matches!(finish_commit(true, None, None, None, None), Ok(Outcome::EmptyIndex)));
}

#[test]
fn test_finish_commit_message_error() {
    let r = finish_commit(false, Some(Err(MessageError::Empty)), None, None, None);
    assert!(matches!(r, Err(RepoError::Message(MessageError::Empty))));
}

#[test]
fn test_finish_commit_commit_error() {
    let r = finish_commit(
        false,
        Some(Ok("m".to_string())),
        Some(Err(RepoError::Commit("no".to_string()))),
        None,
        None,
    );
    assert!(matches!(r, Err(RepoError::Commit(ref e)) if e == "no"));
}

#[test]
fn test_finish_commit_push_failure() {
    let r = finish_commit(
        false,
        Some(Ok("m".to_string())),
        Some(Ok("abc".to_string())),
        Some("origin".to_string()),
        Some(Err("down".to_string())),
    );
    match r {
        Err(RepoError::Push { remote, commit, reason }) => {
            assert_eq!((remote.as_str(), commit.as_str(), reason.as_str()), ("origin", "abc", "down"));
        }
        other => panic!("unexpected {other:?}"),
    }
}

#[test]
fn test_finish_commit_committed() {
    let r = finish_commit(
        false,
        Some(Ok("m".to_string())),
        Some(Ok("abc".to_string())),
        Some("origin".to_string()),
        Some(Ok(())),
    );
    assert!(matches!(r, Ok(Outcome::Committed { ref id, ref message }) if id == "abc" && message == "m"));
    let r = finish_commit(false, Some(Ok("m".to_string())), Some(Ok("abc".to_string())), None, None);
    assert!(matches!(r, Ok(Outcome::Committed { .. })));
}

#[test]
fn test_staged_deletion_is_listed() {
    let temp_dir = TempDir::new().unwrap();
    let git = init_repo(temp_dir.path());
    initial_commit(temp_dir.path(), &git);
    write(temp_dir.path(), "keep.txt", "k");
    delete(temp_dir.path(), "initial.txt");
    let repo = open(&temp_dir, "dry", None, true, None);
    match repo.process_changes(no_script).unwrap() {
        Outcome::DryRun { staged_files, .. } => {
            let mut files = staged_files.clone();
            files.sort();
            assert_eq!(files, vec!["initial.txt".to_string(), "keep.txt".to_string()]);
        }
        other => panic!("unexpected {other:?}"),
    }
}

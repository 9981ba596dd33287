use vstd::prelude::*;
use auth_git2::GitAuthenticator;
use git2::{Commit, Index, IndexAddOption, Oid, Reference, Remote, Repository, Signature, StatusOptions, Tree};
use crate::filter::{regex_finds, IgnoreRegex};
use crate::message::{generate_commit_message, script_result, MessageError, ScriptRun};

verus! {

#[verifier::external_type_specification]
#[verifier::external_body]
pub struct ExRepository(Repository);

#[verifier::external_type_specification]
#[verifier::external_body]
pub struct ExIndex(Index);

#[verifier::external_type_specification]
#[verifier::external_body]
pub struct ExOid(Oid);

#[verifier::external_type_specification]
#[verifier::external_body]
pub struct ExRemote<'a>(Remote<'a>);

#[verifier::external_type_specification]
#[verifier::external_body]
pub struct ExReference<'a>(Reference<'a>);

#[verifier::external_type_specification]
#[verifier::external_body]
pub struct ExCommit<'a>(Commit<'a>);

#[verifier::external_type_specification]
#[verifier::external_body]
pub struct ExTree<'a>(Tree<'a>);

#[verifier::external_type_specification]
#[verifier::external_body]
pub struct ExSignature<'a>(Signature<'a>);

#[verifier::external_type_specification]
#[verifier::external_body]
pub struct ExGitAuthenticator(GitAuthenticator);

/// Relies on `git2::Repository::open`.
#[verifier::external_body]
fn open_repository(path: &str) -> (r: Result<Repository, String>) {
    Repository::open(path).map_err(|e| e.message().to_string())
}

/// Relies on `git2::Repository::find_remote`.
#[verifier::external_body]
fn find_remote<'a>(repo: &'a Repository, name: &str) -> (r: Result<Remote<'a>, String>) {
    repo.find_remote(name).map_err(|e| e.message().to_string())
}

/// Relies on `git2::Repository::head`.
#[verifier::external_body]
fn head<'a>(repo: &'a Repository) -> (r: Result<Reference<'a>, String>) {
    repo.head().map_err(|e| e.message().to_string())
}

/// Relies on `git2::Reference::peel_to_commit`.
#[verifier::external_body]
fn peel_to_commit<'a>(reference: &Reference<'a>) -> (r: Result<Commit<'a>, String>) {
    reference.peel_to_commit().map_err(|e| e.message().to_string())
}

/// Relies on `git2::Reference::shorthand`.
#[verifier::external_body]
fn shorthand(reference: &Reference) -> (r: Option<String>) {
    reference.shorthand().map(|s| s.to_string())
}

/// Relies on `git2::Repository::statuses`, asked for untracked files (also
/// inside untracked directories) and not for ignored ones; each entry is
/// handed out as its status bits and its path.
#[verifier::external_body]
fn statuses(repo: &Repository) -> (r: Result<Vec<EntryStatus>, String>) {
    let mut options = StatusOptions::new();
    options.include_ignored(false).include_untracked(true).recurse_untracked_dirs(true);
    match repo.statuses(Some(&mut options)) {
        Ok(list) => Ok(
            list.iter().map(
                |e| EntryStatus { bits: e.status().bits(), path: e.path().map(|p| p.to_string()) },
            ).collect(),
        ),
        Err(e) => Err(e.message().to_string()),
    }
}

/// Relies on `git2::Repository::index`.
#[verifier::external_body]
fn repo_index(repo: &Repository) -> (r: Result<Index, String>) {
    repo.index().map_err(|e| e.message().to_string())
}

/// Relies on `git2::Index::add_all` with the pathspec `*`, asking
/// `GitwatchRepo::excluded_from_staging` whether to skip each path.
#[verifier::external_body]
fn add_all(index: &mut Index, owner: &GitwatchRepo) -> (r: Result<(), String>) {
    let mut skip = |path: &std::path::Path, _spec: &[u8]| -> i32 {
        if owner.excluded_from_staging(&path.to_string_lossy()) { 1 } else { 0 }
    };
    index.add_all(["*"].iter(), IndexAddOption::DEFAULT, Some(&mut skip)).map_err(
        |e| e.message().to_string(),
    )
}

/// Relies on `git2::Index::write`.
#[verifier::external_body]
fn write_index(index: &mut Index) -> (r: Result<(), String>) {
    index.write().map_err(|e| e.message().to_string())
}

/// Relies on `git2::Index::is_empty`.
#[verifier::external_body]
fn index_is_empty(index: &Index) -> (r: bool) {
    index.is_empty()
}

/// Relies on `git2::Index::write_tree`.
#[verifier::external_body]
fn write_tree(index: &mut Index) -> (r: Result<Oid, String>) {
    index.write_tree().map_err(|e| e.message().to_string())
}

/// Relies on `git2::Repository::find_tree`.
#[verifier::external_body]
fn find_tree(repo: &Repository, id: Oid) -> (r: Result<Tree<'_>, String>) {
    repo.find_tree(id).map_err(|e| e.message().to_string())
}

/// Relies on `git2::Repository::signature`.
#[verifier::external_body]
fn signature(repo: &Repository) -> (r: Result<Signature<'static>, String>) {
    repo.signature().map_err(|e| e.message().to_string())
}

/// Relies on `git2::Repository::commit`, updating `HEAD`, with one parent;
/// the new commit's id is handed out as hex text.
#[verifier::external_body]
fn create_commit(
    repo: &Repository,
    who: &Signature,
    message: &str,
    tree: &Tree,
    parent: &Commit,
) -> (r: Result<String, String>) {
    repo.commit(Some("HEAD"), who, who, message, tree, &[parent]).map(|id| id.to_string()).map_err(
        |e| e.message().to_string(),
    )
}

/// Relies on `auth_git2::GitAuthenticator::new`.
#[verifier::external_body]
fn authenticator() -> (r: GitAuthenticator) {
    GitAuthenticator::new()
}

/// Relies on `auth_git2::GitAuthenticator::push` with the one refspec given.
#[verifier::external_body]
fn push_refspec(
    auth: &GitAuthenticator,
    repo: &Repository,
    remote: &mut Remote,
    refspec: &str,
) -> (r: Result<(), String>) {
    auth.push(repo, remote, &[refspec]).map_err(|e| e.message().to_string())
}

/// One entry of the repository's status: the status bits and the path.
pub struct EntryStatus {
    pub bits: u32,
    pub path: Option<String>,
}

/// Status bit of a file new in the index relative to `HEAD`.
pub const INDEX_NEW: u32 = 1;

/// Status bit of a file modified in the index relative to `HEAD`.
pub const INDEX_MODIFIED: u32 = 2;

/// Status bit of a file deleted from the index relative to `HEAD`.
pub const INDEX_DELETED: u32 = 4;

/// Status bit of a file renamed in the index relative to `HEAD`.
pub const INDEX_RENAMED: u32 = 8;

/// Status bit of a file whose type changed in the index relative to `HEAD`.
pub const INDEX_TYPECHANGE: u32 = 16;

/// Whether the status bits `bits` show a change staged in the index: a file
/// that is new, modified, deleted, renamed or changed in type.
pub open spec fn is_staged(bits: u32) -> bool {
    bits & INDEX_NEW != 0 || bits & INDEX_MODIFIED != 0 || bits & INDEX_DELETED != 0 || bits
        & INDEX_RENAMED != 0 || bits & INDEX_TYPECHANGE != 0
}

/// Whether some entry of `entries` shows a staged change.
pub open spec fn any_staged(entries: Seq<EntryStatus>) -> bool {
    exists|i: int| 0 <= i < entries.len() && is_staged(#[trigger] entries[i].bits)
}

/// The paths of the entries that show a staged change, in order.
pub open spec fn staged_files(entries: Seq<EntryStatus>) -> Seq<Seq<char>>
    decreases entries.len(),
{
    if entries.len() == 0 {
        Seq::empty()
    } else {
        let prev = staged_files(entries.drop_last());
        match entries.last().path {
            Some(p) => if is_staged(entries.last().bits) {
                prev.push(p@)
            } else {
                prev
            },
            None => prev,
        }
    }
}

/// The paths of the entries whose status is not current, in order; an
/// entry without a path is named "Unknown path".
pub open spec fn changed_paths(entries: Seq<EntryStatus>) -> Seq<Seq<char>>
    decreases entries.len(),
{
    if entries.len() == 0 {
        Seq::empty()
    } else {
        let prev = changed_paths(entries.drop_last());
        if entries.last().bits == 0 {
            prev
        } else {
            match entries.last().path {
                Some(p) => prev.push(p@),
                None => prev.push("Unknown path"@),
            }
        }
    }
}

/// The paths of the entries whose status is not current.
pub fn changed_entry_paths(entries: &Vec<EntryStatus>) -> (r: Vec<String>)
    ensures
        r@.map_values(|s: String| s@) == changed_paths(entries@),
{
    let mut out: Vec<String> = Vec::new();
    let mut i: usize = 0;
    while i < entries.len()
        invariant
            i <= entries@.len(),
            out@.map_values(|s: String| s@) == changed_paths(entries@.subrange(0, i as int)),
        decreases entries.len() - i,
    {
        assert(entries@.subrange(0, i + 1).drop_last() =~= entries@.subrange(0, i as int));
        if entries[i].bits != 0 {
            let name = match &entries[i].path {
                Some(p) => String::from_str(p.as_str()),
                None => String::from_str("Unknown path"),
            };
            let ghost pre = out@;
            out.push(name);
            assert(out@.map_values(|s: String| s@) =~= pre.map_values(|s: String| s@).push(name@));
        }
        i = i + 1;
    }
    assert(entries@.subrange(0, entries@.len() as int) =~= entries@);
    out
}

/// Whether some entry shows a staged change.
pub fn has_staged_changes(entries: &Vec<EntryStatus>) -> (r: bool)
    ensures
        r == any_staged(entries@),
{
    let mut i: usize = 0;
    while i < entries.len()
        invariant
            i <= entries@.len(),
            forall|k: int| 0 <= k < i ==> !is_staged(#[trigger] entries@[k].bits),
        decreases entries.len() - i,
    {
        let b = entries[i].bits;
        if b & INDEX_NEW != 0 || b & INDEX_MODIFIED != 0 || b & INDEX_DELETED != 0 || b
            & INDEX_RENAMED != 0 || b & INDEX_TYPECHANGE != 0 {
            return true;
        }
        i = i + 1;
    }
    false
}

/// The paths of the entries that show a staged change.
pub fn staged_file_paths(entries: &Vec<EntryStatus>) -> (r: Vec<String>)
    ensures
        r@.map_values(|s: String| s@) == staged_files(entries@),
{
    let mut out: Vec<String> = Vec::new();
    let mut i: usize = 0;
    while i < entries.len()
        invariant
            i <= entries@.len(),
            out@.map_values(|s: String| s@) == staged_files(entries@.subrange(0, i as int)),
        decreases entries.len() - i,
    {
        assert(entries@.subrange(0, i + 1).drop_last() =~= entries@.subrange(0, i as int));
        let b = entries[i].bits;
        match &entries[i].path {
            Some(p) => {
                if b & INDEX_NEW != 0 || b & INDEX_MODIFIED != 0 || b & INDEX_DELETED != 0 || b
                    & INDEX_RENAMED != 0 || b & INDEX_TYPECHANGE != 0 {
                    let ghost pre = out@;
                    out.push(String::from_str(p.as_str()));
                    assert(out@.map_values(|s: String| s@) =~= pre.map_values(|s: String| s@).push(
                        p@,
                    ));
                }
            },
            None => {},
        }
        i = i + 1;
    }
    assert(entries@.subrange(0, entries@.len() as int) =~= entries@);
    out
}


/// The text of a refspec that pushes `HEAD` to the branch `branch` of a remote.
pub open spec fn refspec_text(branch: Seq<char>) -> Seq<char> {
    "HEAD:refs/heads/"@ + branch
}

/// The refspec that pushes `HEAD` to the branch `branch`.
pub fn refspec_for(branch: &str) -> (r: String)
    ensures
        r@ == refspec_text(branch@),
{
    let mut s = String::from_str("HEAD:refs/heads/");
    s.append(branch);
    s
}

/// Why the snapshot pipeline, or opening the repository, failed.
#[derive(Debug)]
pub enum RepoError {
    /// No repository could be opened at the path; the reason.
    Open(String),
    /// The commit-message script at this path does not exist.
    ScriptNotFound(String),
    /// The repository has no remote of this name.
    RemoteNotFound(String),
    /// The status of the repository could not be read; the reason.
    Status(String),
    /// The changes could not be staged; the reason.
    Stage(String),
    /// No commit message could be had.
    Message(MessageError),
    /// `HEAD` names no commit to be the parent; the reason.
    NoParentCommit(String),
    /// The commit could not be created; the reason.
    Commit(String),
    /// The commit `commit` was created, but pushing it to `remote` failed.
    Push { remote: String, commit: String, reason: String },
}

impl RepoError {
    /// The text that describes the error.
    pub open spec fn description(&self) -> Seq<char> {
        match self {
            RepoError::Open(reason) => "Failed to open git repository: "@ + reason@,
            RepoError::ScriptNotFound(path) => "Commit message script not found: "@ + path@,
            RepoError::RemoteNotFound(name) => "Remote '"@ + name@ + "' not found in repository"@,
            RepoError::Status(reason) => "Failed to read git status: "@ + reason@,
            RepoError::Stage(reason) => "Failed to stage changes: "@ + reason@,
            RepoError::Message(e) => "Failed to generate commit message: "@ + e.description(),
            RepoError::NoParentCommit(reason) => "Creating git commit failed: Head commit not found: "@
                + reason@,
            RepoError::Commit(reason) => "Creating git commit failed: "@ + reason@,
            RepoError::Push { remote, commit, reason } => "Failed to push to remote '"@ + remote@
                + "' (commit "@ + commit@ + " was created): "@ + reason@,
        }
    }

    /// A one-line description of the error.
    pub fn describe(&self) -> (r: String)
        ensures
            r@ == self.description(),
    {
        match self {
            RepoError::Open(reason) => {
                let mut s = String::from_str("Failed to open git repository: ");
                s.append(reason.as_str());
                s
            },
            RepoError::ScriptNotFound(path) => {
                let mut s = String::from_str("Commit message script not found: ");
                s.append(path.as_str());
                s
            },
            RepoError::RemoteNotFound(name) => {
                let mut s = String::from_str("Remote '");
                s.append(name.as_str());
                s.append("' not found in repository");
                s
            },
            RepoError::Status(reason) => {
                let mut s = String::from_str("Failed to read git status: ");
                s.append(reason.as_str());
                s
            },
            RepoError::Stage(reason) => {
                let mut s = String::from_str("Failed to stage changes: ");
                s.append(reason.as_str());
                s
            },
            RepoError::Message(e) => {
                let mut s = String::from_str("Failed to generate commit message: ");
                let d = e.describe();
                s.append(d.as_str());
                s
            },
            RepoError::NoParentCommit(reason) => {
                let mut s = String::from_str("Creating git commit failed: Head commit not found: ");
                s.append(reason.as_str());
                s
            },
            RepoError::Commit(reason) => {
                let mut s = String::from_str("Creating git commit failed: ");
                s.append(reason.as_str());
                s
            },
            RepoError::Push { remote, commit, reason } => {
                let mut s = String::from_str("Failed to push to remote '");
                s.append(remote.as_str());
                s.append("' (commit ");
                s.append(commit.as_str());
                s.append(" was created): ");
                s.append(reason.as_str());
                s
            },
        }
    }
}

/// What one run of the snapshot pipeline did.
#[derive(Debug)]
pub enum Outcome {
    /// Nothing was staged: the working tree is clean.
    Clean,
    /// Dry run: the commit that would have been made, with the staged files.
    DryRun { message: String, staged_files: Vec<String> },
    /// The index is empty: nothing was ever tracked.
    EmptyIndex,
    /// A commit was created (and pushed, where a remote is configured).
    Committed { id: String, message: String },
}

/// Whether a result of the pipeline records a commit made in the repository.
pub open spec fn made_commit(r: Result<Outcome, RepoError>) -> bool {
    r matches Ok(Outcome::Committed { .. }) || r matches Err(RepoError::Push { .. })
}

/// The repository whose working tree is snapshotted into commits.
pub struct GitwatchRepo {
    commit_message: Option<String>,
    commit_message_script: Option<String>,
    dry_run: bool,
    ignore_regex: Option<IgnoreRegex>,
    remote: Option<String>,
    git_repo: Repository,
    repo_path: String,
}

pub open spec fn opt_view(o: Option<String>) -> Option<Seq<char>> {
    match o {
        Some(s) => Some(s@),
        None => None,
    }
}

impl GitwatchRepo {
    pub closed spec fn wf(&self) -> bool {
        self.commit_message is Some || self.commit_message_script is Some
    }

    pub closed spec fn spec_dry_run(&self) -> bool {
        self.dry_run
    }

    pub closed spec fn spec_remote(&self) -> Option<Seq<char>> {
        opt_view(self.remote)
    }

    pub closed spec fn spec_commit_message(&self) -> Option<Seq<char>> {
        opt_view(self.commit_message)
    }

    pub closed spec fn spec_script(&self) -> Option<Seq<char>> {
        opt_view(self.commit_message_script)
    }

    pub closed spec fn spec_regex(&self) -> Option<Seq<char>> {
        match self.ignore_regex {
            Some(re) => Some(re@),
            None => None,
        }
    }

    pub closed spec fn spec_repo_path(&self) -> Seq<char> {
        self.repo_path@
    }

    /// Whether `m` is what resolving the commit message gives: the static
    /// message where one is set, else the checked output of a run of the
    /// script, by `run_script`, in the repository directory.
    pub open spec fn message_from<F: Fn(&str, &str) -> ScriptRun>(
        &self,
        run_script: &F,
        m: Result<String, MessageError>,
    ) -> bool {
        match self.spec_commit_message() {
            Some(text) => m matches Ok(x) && x@ == text,
            None => exists|sp: &str, d: &str, run: ScriptRun|
                {
                    &&& Some(sp@) == self.spec_script()
                    &&& d@ == self.spec_repo_path()
                    &&& #[trigger] run_script.ensures((sp, d), run)
                    &&& script_result(sp@, run, m)
                },
        }
    }

    /// Opens the repository at `repo_path`. `script_exists` tells whether the
    /// commit-message script, where one is configured, exists. Fails where
    /// no repository opens, where the script does not exist, where the
    /// remote is not configured, or where the status cannot be read.
    pub fn new(
        repo_path: &str,
        commit_message: Option<String>,
        commit_message_script: Option<String>,
        ignore_regex: Option<IgnoreRegex>,
        dry_run: bool,
        remote: Option<String>,
        script_exists: bool,
    ) -> (r: Result<GitwatchRepo, RepoError>)
        requires
            commit_message is Some || commit_message_script is Some,
        ensures
            r matches Ok(g) ==> {
                &&& g.wf()
                &&& g.spec_repo_path() == repo_path@
                &&& g.spec_commit_message() == opt_view(commit_message)
                &&& g.spec_script() == opt_view(commit_message_script)
                &&& g.spec_dry_run() == dry_run
                &&& g.spec_remote() == opt_view(remote)
                &&& g.spec_regex() == match ignore_regex {
                    Some(re) => Some(re@),
                    None => None::<Seq<char>>,
                }
            },
            match commit_message_script {
                Some(sc) => !script_exists ==> (r matches Err(RepoError::Open(_)) || (r matches Err(
                    RepoError::ScriptNotFound(p),
                ) && p@ == sc@)),
                None => true,
            },
            r matches Err(RepoError::ScriptNotFound(p)) ==> opt_view(commit_message_script) == Some(
                p@,
            ) && !script_exists,
            r matches Err(RepoError::RemoteNotFound(n)) ==> opt_view(remote) == Some(n@),
    {
        let git_repo = match open_repository(repo_path) {
            Ok(g) => g,
            Err(e) => return Err(RepoError::Open(e)),
        };
        if let Some(script) = &commit_message_script {
            if !script_exists {
                return Err(RepoError::ScriptNotFound(script.clone()));
            }
        }
        if let Some(name) = &remote {
            if find_remote(&git_repo, name.as_str()).is_err() {
                return Err(RepoError::RemoteNotFound(name.clone()));
            }
        }
        if let Err(e) = statuses(&git_repo) {
            return Err(RepoError::Status(e));
        }
        Ok(
            GitwatchRepo {
                commit_message,
                commit_message_script,
                dry_run,
                ignore_regex,
                remote,
                git_repo,
                repo_path: String::from_str(repo_path),
            },
        )
    }

    /// Whether staging skips the path `path` (relative to the repository):
    /// only the user regex decides this; the staging primitive applies the
    /// ignore file and skips the metadata directory itself.
    pub fn excluded_from_staging(&self, path: &str) -> (r: bool)
        ensures
            r == (self.spec_regex() matches Some(p) && regex_finds(p, path@)),
    {
        match &self.ignore_regex {
            Some(re) => re.is_match(path),
            None => false,
        }
    }

    /// The paths of the entries whose status is not current, for reporting.
    pub fn dirty_paths(&self) -> (r: Result<Vec<String>, RepoError>)
        ensures
            r matches Err(e) ==> e is Status,
    {
        match statuses(&self.git_repo) {
            Ok(list) => Ok(changed_entry_paths(&list)),
            Err(e) => Err(RepoError::Status(e)),
        }
    }

    /// Stages every path under the root but those the user regex excludes,
    /// writes the index, and tells whether the index now differs from `HEAD`.
    fn stage_changes(&self) -> (r: Result<Vec<EntryStatus>, RepoError>)
        ensures
            r matches Err(e) ==> e is Stage,
    {
        let mut index = match repo_index(&self.git_repo) {
            Ok(i) => i,
            Err(e) => return Err(RepoError::Stage(e)),
        };
        if let Err(e) = add_all(&mut index, self) {
            return Err(RepoError::Stage(e));
        }
        if let Err(e) = write_index(&mut index) {
            return Err(RepoError::Stage(e));
        }
        match statuses(&self.git_repo) {
            Ok(list) => Ok(list),
            Err(e) => Err(RepoError::Stage(e)),
        }
    }

    /// The commit message: the static one where configured, else what the
    /// script gives, run by `run_script` in the repository directory.
    fn generate_commit_message<F: Fn(&str, &str) -> ScriptRun>(&self, run_script: &F) -> (r:
        Result<String, MessageError>)
        requires
            self.wf(),
            forall|s: &str, d: &str| #[trigger] run_script.requires((s, d)),
        ensures
            self.message_from(run_script, r),
    {
        match &self.commit_message {
            Some(m) => Ok(m.clone()),
            None => {
                let script = self.commit_message_script.as_ref().unwrap();
                generate_commit_message(script.as_str(), self.repo_path.as_str(), run_script)
            },
        }
    }

    /// The refspec of the current branch.
    fn get_current_refspec(&self) -> (r: Result<String, String>)
        ensures
            r matches Ok(x) ==> exists|b: Seq<char>| x@ == refspec_text(b),
    {
        let reference = match head(&self.git_repo) {
            Ok(h) => h,
            Err(_) => return Err(String::from_str("Failed to parse refspec")),
        };
        match shorthand(&reference) {
            Some(branch) => {
                let spec = refspec_for(branch.as_str());
                assert(spec@ == refspec_text(branch@));
                Ok(spec)
            },
            None => Err(String::from_str("Failed to parse refspec")),
        }
    }

    /// Pushes the current branch to the same-named branch of `remote_name`.
    fn push_changes(&self, remote_name: &str) -> (r: Result<(), String>) {
        let mut remote = find_remote(&self.git_repo, remote_name)?;
        let refspec = self.get_current_refspec()?;
        let auth = authenticator();
        push_refspec(&auth, &self.git_repo, &mut remote, refspec.as_str())
    }

    /// Creates a commit of the index with `message`, whose one parent is the
    /// commit `HEAD` names; hands out its id.
    fn create_git_commit(&self, message: &str) -> (r: Result<String, RepoError>)
        ensures
            r matches Err(e) ==> (e is Commit || e is NoParentCommit),
    {
        let mut index = match repo_index(&self.git_repo) {
            Ok(i) => i,
            Err(e) => return Err(RepoError::Commit(e)),
        };
        let tree_id = match write_tree(&mut index) {
            Ok(t) => t,
            Err(e) => return Err(RepoError::Commit(e)),
        };
        let tree = match find_tree(&self.git_repo, tree_id) {
            Ok(t) => t,
            Err(e) => return Err(RepoError::Commit(e)),
        };
        let who = match signature(&self.git_repo) {
            Ok(s) => s,
            Err(e) => return Err(RepoError::Commit(e)),
        };
        let reference = match head(&self.git_repo) {
            Ok(h) => h,
            Err(e) => return Err(RepoError::NoParentCommit(e)),
        };
        let parent = match peel_to_commit(&reference) {
            Ok(c) => c,
            Err(e) => return Err(RepoError::NoParentCommit(e)),
        };
        match create_commit(&self.git_repo, &who, message, &tree, &parent) {
            Ok(id) => Ok(id),
            Err(e) => Err(RepoError::Commit(e)),
        }
    }

    /// Whether `r` is what committing yields: an error from reading the
    /// index, or the result that `finish_commit` gives from what the steps
    /// saw, with the message resolved as `message_from` says.
    pub open spec fn commit_done<F: Fn(&str, &str) -> ScriptRun>(
        &self,
        run_script: &F,
        r: Result<Outcome, RepoError>,
    ) -> bool {
        ||| r matches Err(RepoError::Stage(_))
        ||| exists|
            index_empty: bool,
            message: Option<Result<String, MessageError>>,
            commit: Option<Result<String, RepoError>>,
            push: Option<Result<(), String>>,
        |
            {
                &&& #[trigger] commit_step(index_empty, message, commit, self.spec_remote(), push, r)
                &&& message matches Some(m) ==> self.message_from(run_script, m)
                &&& commit matches Some(Err(e)) ==> (e is Commit || e is NoParentCommit)
            }
    }

    /// Commits the index, unless it is empty, with the resolved message,
    /// then pushes the current branch where a remote is configured. A failed
    /// push leaves the commit in place.
    fn commit_and_push<F: Fn(&str, &str) -> ScriptRun>(&self, run_script: &F) -> (r: Result<
        Outcome,
        RepoError,
    >)
        requires
            self.wf(),
            forall|s: &str, d: &str| #[trigger] run_script.requires((s, d)),
        ensures
            self.commit_done(run_script, r),
    {
        let index = match repo_index(&self.git_repo) {
            Ok(i) => i,
            Err(e) => return Err(RepoError::Stage(e)),
        };
        let remote = match &self.remote {
            Some(name) => Some(String::from_str(name.as_str())),
            None => None,
        };
        assert(opt_view(remote) == self.spec_remote());
        if index_is_empty(&index) {
            let r = finish_commit(true, None, None, remote, None);
            assert(commit_step(true, None, None, self.spec_remote(), None, r));
            return r;
        }
        let message = self.generate_commit_message(run_script);
        let text = match &message {
            Ok(m) => String::from_str(m.as_str()),
            Err(_) => {
                let ghost g = message;
                let r = finish_commit(false, Some(message), None, remote, None);
                assert(commit_step(false, Some(g), None, self.spec_remote(), None, r));
                return r;
            },
        };
        let commit = self.create_git_commit(text.as_str());
        let ghost gm = message;
        let ghost gc = commit;
        if commit.is_err() {
            let r = finish_commit(false, Some(message), Some(commit), remote, None);
            assert(commit_step(false, Some(gm), Some(gc), self.spec_remote(), None, r));
            return r;
        }
        let push = match &self.remote {
            Some(name) => Some(self.push_changes(name.as_str())),
            None => None,
        };
        let ghost gp = push;
        let r = finish_commit(false, Some(message), Some(commit), remote, push);
        assert(commit_step(false, Some(gm), Some(gc), self.spec_remote(), gp, r));
        r
    }

    /// Runs the snapshot pipeline once: stages the changes, then goes on as
    /// `process_staged` says. `run_script` runs a commit-message script in a
    /// directory.
    pub fn process_changes<F: Fn(&str, &str) -> ScriptRun>(&self, run_script: F) -> (r: Result<
        Outcome,
        RepoError,
    >)
        requires
            self.wf(),
            forall|s: &str, d: &str| #[trigger] run_script.requires((s, d)),
        ensures
            r matches Ok(Outcome::DryRun { .. }) ==> self.spec_dry_run(),
            r matches Ok(Outcome::Committed { .. }) ==> !self.spec_dry_run(),
            r matches Ok(Outcome::EmptyIndex) ==> !self.spec_dry_run(),
            self.spec_dry_run() ==> !made_commit(r),
            r matches Ok(Outcome::DryRun { message, .. }) ==> (self.spec_commit_message() matches Some(
                m,
            ) ==> message@ == m),
            r matches Ok(Outcome::Committed { message, .. }) ==> (self.spec_commit_message() matches Some(
                m,
            ) ==> message@ == m),
            r matches Err(RepoError::Push { remote, .. }) ==> self.spec_remote() == Some(remote@),
    {
        let entries = self.stage_changes()?;
        self.process_staged(&entries, &run_script)
    }

    /// Goes on from the staged state `entries`: where nothing is staged,
    /// does nothing more; in a dry run, reports the would-be commit message
    /// and the files staged as new or modified; else commits the index,
    /// unless it is empty, and pushes where a remote is configured.
    pub fn process_staged<F: Fn(&str, &str) -> ScriptRun>(
        &self,
        entries: &Vec<EntryStatus>,
        run_script: &F,
    ) -> (r: Result<Outcome, RepoError>)
        requires
            self.wf(),
            forall|s: &str, d: &str| #[trigger] run_script.requires((s, d)),
        ensures
            !any_staged(entries@) ==> r matches Ok(Outcome::Clean),
            any_staged(entries@) && self.spec_dry_run() ==> match r {
                Ok(Outcome::DryRun { message, staged_files: files }) => {
                    &&& files@.map_values(|s: String| s@) == staged_files(entries@)
                    &&& self.message_from(run_script, Ok(message))
                },
                Err(RepoError::Message(e)) => self.message_from(run_script, Err(e)),
                _ => false,
            },
            any_staged(entries@) && !self.spec_dry_run() ==> self.commit_done(run_script, r),
    {
        match plan_after_staging(entries, self.dry_run) {
            Plan::NothingStaged => Ok(Outcome::Clean),
            Plan::Report => {
                let message = match self.generate_commit_message(run_script) {
                    Ok(m) => m,
                    Err(e) => return Err(RepoError::Message(e)),
                };
                let staged_files = staged_file_paths(entries);
                Ok(Outcome::DryRun { message, staged_files })
            },
            Plan::Commit => self.commit_and_push(run_script),
        }
    }
}

/// The plan for each staged state: nothing staged plans nothing, in a dry
/// run or not; a staged change plans a report in a dry run and a commit
/// otherwise.
pub proof fn lemma_plan_idempotent(entries: Seq<EntryStatus>, dry_run: bool)
    ensures
        !any_staged(entries) ==> plan_for(entries, dry_run) == Plan::NothingStaged,
        any_staged(entries) && !dry_run ==> plan_for(entries, dry_run) == Plan::Commit,
        any_staged(entries) && dry_run ==> plan_for(entries, dry_run) == Plan::Report,
{
}

/// Whether `r` follows from what the commit steps saw, each step run only
/// where the one before let it: an empty index gives `EmptyIndex`; else a
/// message error is handed on; else a commit error is handed on; else a
/// failed push, where a remote `n` is configured, gives a push error with
/// `n` and the new commit; else the commit is reported with its message.
pub open spec fn commit_step(
    index_empty: bool,
    message: Option<Result<String, MessageError>>,
    commit: Option<Result<String, RepoError>>,
    remote: Option<Seq<char>>,
    push: Option<Result<(), String>>,
    r: Result<Outcome, RepoError>,
) -> bool {
    &&& (index_empty <==> message is None)
    &&& (message matches Some(Ok(_)) <==> commit is Some)
    &&& ((commit matches Some(Ok(_)) && remote is Some) <==> push is Some)
    &&& if index_empty {
        r matches Ok(Outcome::EmptyIndex)
    } else {
        match message {
            Some(Err(e)) => r == Err::<Outcome, RepoError>(RepoError::Message(e)),
            Some(Ok(m)) => match commit {
                Some(Err(e)) => r == Err::<Outcome, RepoError>(e),
                Some(Ok(id)) => match (remote, push) {
                    (Some(n), Some(Err(reason))) => r matches Err(
                        RepoError::Push { remote: x, commit: c, reason: y },
                    ) && x@ == n && c@ == id@ && y@ == reason@,
                    _ => r matches Ok(Outcome::Committed { id: x, message: y }) && x@ == id@ && y@
                        == m@,
                },
                None => false,
            },
            None => false,
        }
    }
}

/// Decides the result of the commit step from what its parts gave: whether
/// the index was empty, the resolved message, the commit, and the push.
/// Each is `None` where its step did not run.
pub fn finish_commit(
    index_empty: bool,
    message: Option<Result<String, MessageError>>,
    commit: Option<Result<String, RepoError>>,
    remote: Option<String>,
    push: Option<Result<(), String>>,
) -> (r: Result<Outcome, RepoError>)
    requires
        index_empty <==> message is None,
        message matches Some(Ok(_)) <==> commit is Some,
        (commit matches Some(Ok(_)) && remote is Some) <==> push is Some,
    ensures
        commit_step(index_empty, message, commit, opt_view(remote), push, r),
{
    if index_empty {
        return Ok(Outcome::EmptyIndex);
    }
    match message {
        Some(Err(e)) => Err(RepoError::Message(e)),
        Some(Ok(m)) => match commit {
            Some(Err(e)) => Err(e),
            Some(Ok(id)) => match (remote, push) {
                (Some(n), Some(Err(reason))) => Err(RepoError::Push { remote: n, commit: id, reason }),
                _ => Ok(Outcome::Committed { id, message: m }),
            },
            None => Err(RepoError::Commit(String::new())),
        },
        None => Ok(Outcome::EmptyIndex),
    }
}

/// What the pipeline does once the changes are staged.
#[derive(Clone, Copy, Debug, PartialEq, Eq, Structural)]
pub enum Plan {
    /// Nothing differs from `HEAD`: stop.
    NothingStaged,
    /// Dry run: report the would-be commit.
    Report,
    /// Commit, and push where a remote is configured.
    Commit,
}

/// The plan for the staged state `entries`, in a dry run or not.
pub open spec fn plan_for(entries: Seq<EntryStatus>, dry_run: bool) -> Plan {
    if !any_staged(entries) {
        Plan::NothingStaged
    } else if dry_run {
        Plan::Report
    } else {
        Plan::Commit
    }
}

/// Decides what follows staging from the status entries.
pub fn plan_after_staging(entries: &Vec<EntryStatus>, dry_run: bool) -> (r: Plan)
    ensures
        r == plan_for(entries@, dry_run),
{
    if !has_staged_changes(entries) {
        Plan::NothingStaged
    } else if dry_run {
        Plan::Report
    } else {
        Plan::Commit
    }
}

} // verus!

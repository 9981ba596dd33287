use vstd::prelude::*;
use ignore::gitignore::{Gitignore, GitignoreBuilder};
use regex::Regex;
use crate::paths::{in_metadata_dir, is_metadata_path, relative_to, stays_relative, strip_root};

verus! {

#[verifier::external_type_specification]
#[verifier::external_body]
pub struct ExRegex(Regex);

#[verifier::external_type_specification]
#[verifier::external_body]
pub struct ExRegexError(regex::Error);

#[verifier::external_type_specification]
#[verifier::external_body]
pub struct ExGitignore(Gitignore);

#[verifier::external_type_specification]
#[verifier::external_body]
pub struct ExGitignoreBuilder(GitignoreBuilder);

#[verifier::external_type_specification]
#[verifier::external_body]
pub struct ExIgnoreError(ignore::Error);

/// Whether `pattern` is a regular expression that compiles.
pub uninterp spec fn regex_compiles(pattern: Seq<char>) -> bool;

/// Whether the compiled `pattern` matches somewhere in `text`.
pub uninterp spec fn regex_finds(pattern: Seq<char>, text: Seq<char>) -> bool;

/// Whether `line` of an ignore file holds a glob that is accepted.
pub uninterp spec fn ignore_line_accepted(line: Seq<char>) -> bool;

/// Whether the globs `globs`, read relative to `root`, compile together into
/// one matcher.
pub uninterp spec fn ignore_globs_build(root: Seq<char>, globs: Seq<Seq<char>>) -> bool;

/// Whether the ignore-file globs `globs`, read relative to `root`, ignore the
/// relative path `path` (`is_dir` telling whether it names a directory) or
/// one of its parent directories.
pub uninterp spec fn ignore_globs_match(
    root: Seq<char>,
    globs: Seq<Seq<char>>,
    path: Seq<char>,
    is_dir: bool,
) -> bool;

/// Relies on `regex::Regex::new`: whether it compiles depends on the pattern alone.
#[verifier::external_body]
fn compile_regex(pattern: &str) -> (r: Result<Regex, regex::Error>)
    ensures
        r.is_ok() == regex_compiles(pattern@),
{
    Regex::new(pattern)
}

/// Relies on `regex::Regex::is_match` on the regex compiled from `re`'s
/// pattern: the answer depends on the pattern and the text alone.
#[verifier::external_body]
fn regex_is_match(re: &IgnoreRegex, text: &str) -> (r: bool)
    ensures
        r == regex_finds(re.pattern@, text@),
{
    re.compiled.is_match(text)
}

/// Relies on `Clone` for `regex::Regex`: the clone matches as the original does.
#[verifier::external_body]
fn clone_regex(re: &Regex) -> (r: Regex) {
    re.clone()
}

/// Relies on `ignore::gitignore::GitignoreBuilder::new`.
#[verifier::external_body]
fn gitignore_builder(root: &str) -> (r: GitignoreBuilder) {
    GitignoreBuilder::new(root)
}

/// Relies on `GitignoreBuilder::add_line`: whether a line is accepted depends
/// on the line alone.
#[verifier::external_body]
fn gitignore_add_line(builder: &mut GitignoreBuilder, line: &str) -> (r: bool)
    ensures
        r == ignore_line_accepted(line@),
{
    builder.add_line(None, line).is_ok()
}

/// Relies on `GitignoreBuilder::build` on the builder of `pending`: whether
/// it succeeds depends on its root and its accepted globs alone.
#[verifier::external_body]
fn gitignore_build(pending: &PendingIgnoreFile) -> (r: Result<Gitignore, ignore::Error>)
    ensures
        r.is_ok() == ignore_globs_build(pending.root@, views(pending.globs@)),
{
    pending.builder.build()
}

/// Relies on `Gitignore::matched_path_or_any_parents` on the matcher that
/// `rules` was built with: the answer depends on its root, its accepted
/// globs, the path and `is_dir` alone, and a matcher without globs matches
/// nothing. The outside function takes off a leading `./` and asserts that
/// what is left has no root; with an absolute root it strips nothing more.
#[verifier::external_body]
fn gitignore_matched(rules: &IgnoreFile, rel: &str, is_dir: bool) -> (r: bool)
    requires
        rules.root@.len() > 0 && rules.root@[0] == '/',
        stays_relative(rel@),
    ensures
        r == ignore_globs_match(rules.root@, views(rules.globs@), rel@, is_dir),
        rules.globs@.len() == 0 ==> !r,
{
    rules.matcher.matched_path_or_any_parents(rel, is_dir).is_ignore()
}

/// Why a filter could not be built.
#[derive(Debug, PartialEq, Eq, Structural)]
pub enum FilterError {
    /// The user regex does not compile.
    InvalidRegex,
    /// The watch root is not an absolute path.
    RelativeRoot,
    /// The ignore-file globs could not be compiled together.
    InvalidIgnoreFile,
}

/// A user regex over watch-root-relative paths. `compiled` is always the
/// regex compiled from `pattern`: only `new` and `duplicate` make one.
pub struct IgnoreRegex {
    pattern: String,
    compiled: Regex,
}

impl View for IgnoreRegex {
    type V = Seq<char>;

    closed spec fn view(&self) -> Seq<char> {
        self.pattern@
    }
}

impl IgnoreRegex {
    /// Compiles `pattern`; fails exactly where the pattern does not compile.
    pub fn new(pattern: &str) -> (r: Result<IgnoreRegex, FilterError>)
        ensures
            r is Ok <==> regex_compiles(pattern@),
            r matches Ok(re) ==> re@ == pattern@,
            r matches Err(e) ==> e == FilterError::InvalidRegex,
    {
        match compile_regex(pattern) {
            Ok(compiled) => Ok(IgnoreRegex { pattern: String::from_str(pattern), compiled }),
            Err(_) => Err(FilterError::InvalidRegex),
        }
    }

    /// Another regex of the same pattern.
    pub fn duplicate(&self) -> (r: IgnoreRegex)
        ensures
            r@ == self@,
    {
        IgnoreRegex { pattern: self.pattern.clone(), compiled: clone_regex(&self.compiled) }
    }

    /// The pattern this regex was compiled from.
    pub fn as_str(&self) -> (r: &str)
        ensures
            r@ == self@,
    {
        self.pattern.as_str()
    }

    /// Whether the regex matches somewhere in `text`.
    pub fn is_match(&self, text: &str) -> (r: bool)
        ensures
            r == regex_finds(self@, text@),
    {
        regex_is_match(self, text)
    }
}


/// A line with a final carriage return taken off.
pub open spec fn without_cr(line: Seq<char>) -> Seq<char> {
    if line.len() > 0 && line.last() == '\r' {
        line.drop_last()
    } else {
        line
    }
}

/// The lines completed so far in `s`, and the line still open at its end.
pub open spec fn line_split(s: Seq<char>) -> (Seq<Seq<char>>, Seq<char>)
    decreases s.len(),
{
    if s.len() == 0 {
        (Seq::empty(), Seq::empty())
    } else {
        let (done, open) = line_split(s.drop_last());
        if s.last() == '\n' {
            (done.push(without_cr(open)), Seq::empty())
        } else {
            (done, open.push(s.last()))
        }
    }
}

/// The lines of `s`: split at line feeds, a line ended by one without a
/// final carriage return, and no empty line after a final line feed.
pub open spec fn lines_of(s: Seq<char>) -> Seq<Seq<char>> {
    let (done, open) = line_split(s);
    if open.len() > 0 {
        done.push(open)
    } else {
        done
    }
}

/// `s` without the byte-order marks at its start.
pub open spec fn without_boms(s: Seq<char>) -> Seq<char>
    decreases s.len(),
{
    if s.len() > 0 && s[0] == '\u{feff}' {
        without_boms(s.drop_first())
    } else {
        s
    }
}

proof fn lemma_without_boms_at(s: Seq<char>, i: int)
    requires
        0 <= i <= s.len(),
        forall|k: int| 0 <= k < i ==> #[trigger] s[k] == '\u{feff}',
        i == s.len() || s[i] != '\u{feff}',
    ensures
        without_boms(s) == s.skip(i),
    decreases i,
{
    if i > 0 {
        assert forall|k: int| 0 <= k < i - 1 implies #[trigger] s.drop_first()[k] == '\u{feff}' by {
            assert(s.drop_first()[k] == s[k + 1]);
        }
        if i < s.len() {
            assert(s.drop_first()[i - 1] == s[i]);
        }
        lemma_without_boms_at(s.drop_first(), i - 1);
        assert(s.drop_first().skip(i - 1) =~= s.skip(i));
    } else {
        assert(s.skip(0) =~= s);
    }
}

/// Takes the byte-order marks off the start of `s`.
pub fn strip_boms(s: &str) -> (r: &str)
    ensures
        r@ == without_boms(s@),
{
    let n = s.unicode_len();
    let mut i: usize = 0;
    while i < n && s.get_char(i) == '\u{feff}'
        invariant
            n == s@.len(),
            i <= n,
            forall|k: int| 0 <= k < i ==> #[trigger] s@[k] == '\u{feff}',
        decreases n - i,
    {
        i = i + 1;
    }
    proof {
        lemma_without_boms_at(s@, i as int);
    }
    s.substring_char(i, n)
}

/// The lines among `lines` that hold an accepted glob, in order.
pub open spec fn accepted_globs(lines: Seq<Seq<char>>) -> Seq<Seq<char>>
    decreases lines.len(),
{
    if lines.len() == 0 {
        Seq::empty()
    } else if ignore_line_accepted(lines.last()) {
        accepted_globs(lines.drop_last()).push(lines.last())
    } else {
        accepted_globs(lines.drop_last())
    }
}

pub open spec fn views(v: Seq<String>) -> Seq<Seq<char>> {
    v.map_values(|x: String| x@)
}

fn chop_cr(line: &str) -> (r: String)
    ensures
        r@ == without_cr(line@),
{
    let n = line.unicode_len();
    if n > 0 && line.get_char(n - 1) == '\r' {
        String::from_str(line.substring_char(0, n - 1))
    } else {
        String::from_str(line)
    }
}

/// Splits `s` into its lines.
pub fn split_lines(s: &str) -> (r: Vec<String>)
    ensures
        views(r@) == lines_of(s@),
{
    let n = s.unicode_len();
    let mut done: Vec<String> = Vec::new();
    let mut start: usize = 0;
    let mut i: usize = 0;
    while i < n
        invariant
            n == s@.len(),
            start <= i <= n,
            line_split(s@.subrange(0, i as int)) == (views(done@), s@.subrange(
                start as int,
                i as int,
            )),
        decreases n - i,
    {
        let c = s.get_char(i);
        let ghost prev = s@.subrange(0, i as int);
        assert(s@.subrange(0, i + 1).drop_last() =~= prev);
        if c == '\n' {
            let line = chop_cr(s.substring_char(start, i));
            let ghost pre = done@;
            done.push(line);
            assert(views(done@) =~= views(pre).push(line@));
            start = i + 1;
            assert(s@.subrange(start as int, i + 1) =~= Seq::<char>::empty());
        } else {
            assert(s@.subrange(start as int, i + 1) =~= s@.subrange(start as int, i as int).push(c));
        }
        i = i + 1;
    }
    assert(s@.subrange(0, n as int) =~= s@);
    if start < n {
        let line = String::from_str(s.substring_char(start, n));
        let ghost pre = done@;
        done.push(line);
        assert(views(done@) =~= views(pre).push(line@));
    }
    done
}

/// An ignore-file matcher being built. `builder` was made from `root`, and
/// has had exactly the lines in `globs` added, in order: only
/// `IgnoreFile::new` makes one.
struct PendingIgnoreFile {
    root: String,
    globs: Vec<String>,
    builder: GitignoreBuilder,
}

/// The globs of an ignore file at the watch root. `matcher` is always built
/// from `root` and exactly the lines in `globs`, in order: only `new` makes one.
pub struct IgnoreFile {
    root: String,
    globs: Vec<String>,
    matcher: Gitignore,
}

impl IgnoreFile {
    /// The directory the globs are read relative to.
    pub closed spec fn root(&self) -> Seq<char> {
        self.root@
    }

    /// The accepted globs, in file order.
    pub closed spec fn globs(&self) -> Seq<Seq<char>> {
        views(self.globs@)
    }

    /// Compiles the ignore file whose text is `contents`, lying in `root`.
    /// Byte-order marks at its start are dropped, and lines without an
    /// accepted glob are skipped; it fails exactly where the accepted globs
    /// do not compile together.
    pub fn new(root: &str, contents: &str) -> (r: Result<IgnoreFile, FilterError>)
        ensures
            r is Ok <==> ignore_globs_build(root@, accepted_globs(lines_of(without_boms(contents@)))),
            r matches Ok(f) ==> f.root() == root@ && f.globs() == accepted_globs(
                lines_of(without_boms(contents@)),
            ),
            r matches Err(e) ==> e == FilterError::InvalidIgnoreFile,
    {
        let lines = split_lines(strip_boms(contents));
        let mut pending = PendingIgnoreFile {
            root: String::from_str(root),
            globs: Vec::new(),
            builder: gitignore_builder(root),
        };
        let mut i: usize = 0;
        while i < lines.len()
            invariant
                i <= lines@.len(),
                views(lines@) == lines_of(without_boms(contents@)),
                pending.root@ == root@,
                views(pending.globs@) == accepted_globs(views(lines@).subrange(0, i as int)),
            decreases lines.len() - i,
        {
            let ghost before = views(lines@).subrange(0, i as int);
            assert(views(lines@).subrange(0, i + 1).drop_last() =~= before);
            if gitignore_add_line(&mut pending.builder, lines[i].as_str()) {
                let ghost pre = pending.globs@;
                let line = String::from_str(lines[i].as_str());
                pending.globs.push(line);
                assert(views(pending.globs@) =~= views(pre).push(lines@[i as int]@));
            }
            i = i + 1;
        }
        assert(views(lines@).subrange(0, lines@.len() as int) =~= views(lines@));
        match gitignore_build(&pending) {
            Ok(matcher) => Ok(IgnoreFile { root: pending.root, globs: pending.globs, matcher }),
            Err(_) => Err(FilterError::InvalidIgnoreFile),
        }
    }

    /// Whether the globs ignore the relative path `rel`.
    pub fn matches(&self, rel: &str, is_dir: bool) -> (r: bool)
        requires
            self.root().len() > 0 && self.root()[0] == '/',
            stays_relative(rel@),
        ensures
            r == ignore_globs_match(self.root(), self.globs(), rel@, is_dir),
    {
        gitignore_matched(self, rel, is_dir)
    }
}


/// Whether a path is ignored by the rules with watch root `root`, ignore-file
/// globs `globs` and optional user regex `regex`: it lies under the root, and
/// its relative form lies in the metadata directory, or is matched by the
/// globs, or is matched by the regex.
pub open spec fn path_ignored(
    root: Seq<char>,
    globs: Seq<Seq<char>>,
    regex: Option<Seq<char>>,
    path: Seq<char>,
    is_dir: bool,
) -> bool {
    match relative_to(root, path) {
        None => false,
        Some(rel) => in_metadata_dir(rel) || ignore_globs_match(root, globs, rel, is_dir) || (
        regex matches Some(p) && regex_finds(p, rel)),
    }
}

/// The ignore rules consulted on every changed path under the watch root.
pub struct PathFilter {
    repo_path: String,
    ignore_file: IgnoreFile,
    ignore_regex: Option<IgnoreRegex>,
}

impl PathFilter {
    /// The watch root.
    pub closed spec fn root(&self) -> Seq<char> {
        self.repo_path@
    }

    /// The accepted ignore-file globs.
    pub closed spec fn globs(&self) -> Seq<Seq<char>> {
        self.ignore_file.globs()
    }

    /// The pattern of the user regex, if one is configured.
    pub closed spec fn regex(&self) -> Option<Seq<char>> {
        match self.ignore_regex {
            Some(re) => Some(re@),
            None => None,
        }
    }

    pub closed spec fn wf(&self) -> bool {
        &&& self.ignore_file.root() == self.repo_path@
        &&& self.repo_path@.len() > 0 && self.repo_path@[0] == '/'
    }

    /// Whether this filter ignores `path`.
    pub open spec fn ignores(&self, path: Seq<char>, is_dir: bool) -> bool {
        path_ignored(self.root(), self.globs(), self.regex(), path, is_dir)
    }

    /// Builds the filter for the absolute watch root `repo_path`, from the
    /// text of its ignore file (empty where there is none) and the optional
    /// user regex.
    pub fn new(repo_path: &str, ignore_file_text: &str, ignore_regex: Option<IgnoreRegex>) -> (r:
        Result<PathFilter, FilterError>)
        ensures
            r matches Ok(f) ==> {
                &&& f.wf()
                &&& f.root() == repo_path@
                &&& f.regex() == match ignore_regex {
                    Some(re) => Some(re@),
                    None => None::<Seq<char>>,
                }
            },
            r is Ok <==> (repo_path@.len() > 0 && repo_path@[0] == '/' && ignore_globs_build(
                repo_path@,
                accepted_globs(lines_of(without_boms(ignore_file_text@))),
            )),
            r matches Ok(f) ==> f.globs() == accepted_globs(lines_of(without_boms(ignore_file_text@))),
            r matches Err(e) ==> (e == FilterError::RelativeRoot <==> !(repo_path@.len() > 0
                && repo_path@[0] == '/')),
            r matches Err(e) ==> (e == FilterError::RelativeRoot || e
                == FilterError::InvalidIgnoreFile),
    {
        let n = repo_path.unicode_len();
        if n == 0 || repo_path.get_char(0) != '/' {
            return Err(FilterError::RelativeRoot);
        }
        let ignore_file = IgnoreFile::new(repo_path, ignore_file_text)?;
        Ok(PathFilter { repo_path: String::from_str(repo_path), ignore_file, ignore_regex })
    }

    /// Whether the absolute path `path` is ignored; `is_dir` tells whether it
    /// names a directory. A path outside the watch root is not ignored.
    pub fn is_path_ignored(&self, path: &str, is_dir: bool) -> (r: bool)
        requires
            self.wf(),
        ensures
            r == self.ignores(path@, is_dir),
    {
        let rel = match strip_root(self.repo_path.as_str(), path) {
            Some(rel) => rel,
            None => return false,
        };
        if is_metadata_path(rel.as_str()) {
            return true;
        }
        if self.ignore_file.matches(rel.as_str(), is_dir) {
            return true;
        }
        match &self.ignore_regex {
            Some(re) => re.is_match(rel.as_str()),
            None => false,
        }
    }
}

} // verus!

use vstd::prelude::*;

verus! {

/// The characters with Unicode's White_Space property.
pub open spec fn is_space(c: char) -> bool {
    ('\u{9}' <= c <= '\u{d}') || c == ' ' || c == '\u{85}' || c == '\u{a0}' || c == '\u{1680}'
        || ('\u{2000}' <= c <= '\u{200a}') || c == '\u{2028}' || c == '\u{2029}' || c
        == '\u{202f}' || c == '\u{205f}' || c == '\u{3000}'
}

/// Whether `c` is a white-space character.
pub fn is_space_char(c: char) -> (r: bool)
    ensures
        r == is_space(c),
{
    ('\u{9}' <= c && c <= '\u{d}') || c == ' ' || c == '\u{85}' || c == '\u{a0}' || c
        == '\u{1680}' || ('\u{2000}' <= c && c <= '\u{200a}') || c == '\u{2028}' || c
        == '\u{2029}' || c == '\u{202f}' || c == '\u{205f}' || c == '\u{3000}'
}

/// Whether `s` holds white space only (or nothing).
pub open spec fn is_blank(s: Seq<char>) -> bool {
    forall|i: int| 0 <= i < s.len() ==> is_space(#[trigger] s[i])
}

/// `s` without its leading white space.
pub open spec fn trim_start(s: Seq<char>) -> Seq<char>
    decreases s.len(),
{
    if s.len() > 0 && is_space(s[0]) {
        trim_start(s.drop_first())
    } else {
        s
    }
}

/// `s` without its trailing white space.
pub open spec fn trim_end(s: Seq<char>) -> Seq<char>
    decreases s.len(),
{
    if s.len() > 0 && is_space(s.last()) {
        trim_end(s.drop_last())
    } else {
        s
    }
}

/// `s` without its leading and trailing white space.
pub open spec fn trimmed(s: Seq<char>) -> Seq<char> {
    trim_end(trim_start(s))
}

proof fn lemma_trim_start_at(s: Seq<char>, i: int)
    requires
        0 <= i <= s.len(),
        forall|k: int| 0 <= k < i ==> is_space(#[trigger] s[k]),
        i == s.len() || !is_space(s[i]),
    ensures
        trim_start(s) == s.skip(i),
    decreases i,
{
    if i > 0 {
        assert forall|k: int| 0 <= k < i - 1 implies is_space(#[trigger] s.drop_first()[k]) by {
            assert(s.drop_first()[k] == s[k + 1]);
        }
        if i < s.len() {
            assert(s.drop_first()[i - 1] == s[i]);
        }
        lemma_trim_start_at(s.drop_first(), i - 1);
        assert(s.drop_first().skip(i - 1) =~= s.skip(i));
    } else {
        assert(s.skip(0) =~= s);
    }
}

proof fn lemma_trim_end_at(s: Seq<char>, j: int)
    requires
        0 <= j <= s.len(),
        forall|k: int| j <= k < s.len() ==> is_space(#[trigger] s[k]),
        j == 0 || !is_space(s[j - 1]),
    ensures
        trim_end(s) == s.take(j),
    decreases s.len() - j,
{
    if j < s.len() {
        assert forall|k: int| j <= k < s.len() - 1 implies is_space(#[trigger] s.drop_last()[k]) by {
            assert(s.drop_last()[k] == s[k]);
        }
        if j > 0 {
            assert(s.drop_last()[j - 1] == s[j - 1]);
        }
        lemma_trim_end_at(s.drop_last(), j);
        assert(s.drop_last().take(j) =~= s.take(j));
    } else {
        assert(s.take(j) =~= s);
    }
}

/// Whether `s` holds white space only.
pub fn blank(s: &str) -> (r: bool)
    ensures
        r == is_blank(s@),
{
    let n = s.unicode_len();
    let mut i: usize = 0;
    while i < n
        invariant
            n == s@.len(),
            i <= n,
            forall|k: int| 0 <= k < i ==> is_space(#[trigger] s@[k]),
        decreases n - i,
    {
        if !is_space_char(s.get_char(i)) {
            return false;
        }
        i = i + 1;
    }
    true
}

/// `s` without its leading and trailing white space.
pub fn trim(s: &str) -> (r: String)
    ensures
        r@ == trimmed(s@),
{
    let n = s.unicode_len();
    let mut i: usize = 0;
    while i < n && is_space_char(s.get_char(i))
        invariant
            n == s@.len(),
            i <= n,
            forall|k: int| 0 <= k < i ==> is_space(#[trigger] s@[k]),
        decreases n - i,
    {
        i = i + 1;
    }
    proof {
        lemma_trim_start_at(s@, i as int);
    }
    let ghost rest = s@.skip(i as int);
    let mut j: usize = n;
    while j > i && is_space_char(s.get_char(j - 1))
        invariant
            n == s@.len(),
            i <= j <= n,
            rest == s@.skip(i as int),
            forall|k: int| j <= k < n ==> is_space(#[trigger] s@[k]),
        decreases j,
    {
        j = j - 1;
    }
    proof {
        assert forall|k: int| j - i <= k < rest.len() implies is_space(#[trigger] rest[k]) by {
            assert(rest[k] == s@[k + i]);
        }
        if j > i {
            assert(rest[j - i - 1] == s@[j - 1]);
        }
        lemma_trim_end_at(rest, j - i);
        assert(rest.take(j - i) =~= s@.subrange(i as int, j as int));
    }
    String::from_str(s.substring_char(i, j))
}

/// What running a commit-message script gave.
pub enum ScriptRun {
    /// The script could not be started; the reason, as text.
    NotStarted(String),
    /// The script ran to its end.
    Finished {
        /// Whether it exited with status zero.
        success: bool,
        /// Its exit status, as text.
        status: String,
        /// Its standard output; `None` where that is not valid UTF-8.
        stdout: Option<String>,
        /// Its standard error, decoded leniently.
        stderr: String,
    },
}

/// Why no commit message could be had.
#[derive(Debug)]
pub enum MessageError {
    /// The script at `script` could not be started.
    NotStarted { script: String, reason: String },
    /// The script exited with a failure status.
    Failed { script: String, status: String, stderr: String },
    /// The script's output is not valid UTF-8.
    NotUtf8,
    /// The script's output is blank.
    Empty,
}

impl MessageError {
    /// The text that describes the error.
    pub open spec fn description(&self) -> Seq<char> {
        match self {
            MessageError::NotStarted { script, reason } => "Failed to execute commit message script '"@
                + script@ + "': "@ + reason@,
            MessageError::Failed { script, status, stderr } => "Commit message script '"@ + script@
                + "' failed with exit code "@ + status@ + ".\nError: "@ + stderr@,
            MessageError::NotUtf8 => "Commit message script output is not valid UTF-8"@,
            MessageError::Empty => "Commit message script output is empty"@,
        }
    }

    /// A one-line description of the error.
    pub fn describe(&self) -> (r: String)
        ensures
            r@ == self.description(),
    {
        match self {
            MessageError::NotStarted { script, reason } => {
                let mut s = String::from_str("Failed to execute commit message script '");
                s.append(script.as_str());
                s.append("': ");
                s.append(reason.as_str());
                s
            },
            MessageError::Failed { script, status, stderr } => {
                let mut s = String::from_str("Commit message script '");
                s.append(script.as_str());
                s.append("' failed with exit code ");
                s.append(status.as_str());
                s.append(".\nError: ");
                s.append(stderr.as_str());
                s
            },
            MessageError::NotUtf8 => String::from_str(
                "Commit message script output is not valid UTF-8",
            ),
            MessageError::Empty => String::from_str("Commit message script output is empty"),
        }
    }
}

/// Whether `r` is what a run `run` of the script `script` yields: the whole
/// standard output, where the script exited with success and its output is
/// valid UTF-8 and not blank; else the error for what went wrong.
pub open spec fn script_result(script: Seq<char>, run: ScriptRun, r: Result<String, MessageError>) -> bool {
    match run {
        ScriptRun::NotStarted(reason) => r matches Err(MessageError::NotStarted { script: s, reason: m })
            && s@ == script && m@ == reason@,
        ScriptRun::Finished { success, status, stdout, stderr } => if !success {
            r matches Err(MessageError::Failed { script: s, status: st, stderr: e }) && s@
                == script && st@ == status@ && e@ == trimmed(stderr@)
        } else {
            match stdout {
                None => r matches Err(MessageError::NotUtf8),
                Some(out) => if is_blank(out@) {
                    r matches Err(MessageError::Empty)
                } else {
                    r matches Ok(m) && m@ == out@
                },
            }
        },
    }
}

/// Turns what the script at `script` gave into a commit message: the whole
/// standard output, where the script exited with success and its output is
/// valid UTF-8 and not blank.
pub fn check_script_output(script: &str, run: ScriptRun) -> (r: Result<String, MessageError>)
    ensures
        script_result(script@, run, r),
{
    match run {
        ScriptRun::NotStarted(reason) => Err(
            MessageError::NotStarted { script: String::from_str(script), reason },
        ),
        ScriptRun::Finished { success, status, stdout, stderr } => {
            if !success {
                return Err(
                    MessageError::Failed {
                        script: String::from_str(script),
                        status,
                        stderr: trim(stderr.as_str()),
                    },
                );
            }
            match stdout {
                None => Err(MessageError::NotUtf8),
                Some(out) => {
                    if blank(out.as_str()) {
                        Err(MessageError::Empty)
                    } else {
                        Ok(out)
                    }
                },
            }
        },
    }
}


/// Runs the commit-message script `script_path` through `run_script`, in the
/// directory `repo_path`, and checks what it gave as `check_script_output`
/// does.
pub fn generate_commit_message<F: Fn(&str, &str) -> ScriptRun>(
    script_path: &str,
    repo_path: &str,
    run_script: &F,
) -> (r: Result<String, MessageError>)
    requires
        forall|s: &str, d: &str| #[trigger] run_script.requires((s, d)),
    ensures
        exists|run: ScriptRun|
            {
                &&& run_script.ensures((script_path, repo_path), run)
                &&& script_result(script_path@, run, r)
            },
{
    let run = run_script(script_path, repo_path);
    check_script_output(script_path, run)
}

} // verus!

use vstd::prelude::*;

verus! {

/// The rest of `path` after the directory `root`, where `path` lies at or
/// under `root`: components are compared whole, so `/a/bc` is not under `/a/b`.
pub open spec fn rest_after(root: Seq<char>, path: Seq<char>) -> Option<Seq<char>> {
    if root.len() > 0 && root.last() == '/' && root.is_prefix_of(path) {
        Some(path.skip(root.len() as int))
    } else if path == root {
        Some(Seq::empty())
    } else if root.is_prefix_of(path) && path.len() > root.len() && path[root.len() as int]
        == '/' {
        Some(path.skip(root.len() as int + 1))
    } else {
        None
    }
}

/// Whether the relative path `rel` stays relative once a leading `./` is
/// taken off: it starts neither with a separator nor with `./` and another
/// separator.
pub open spec fn stays_relative(rel: Seq<char>) -> bool {
    &&& !(rel.len() > 0 && rel[0] == '/')
    &&& !(rel.len() >= 3 && rel[0] == '.' && rel[1] == '/' && rel[2] == '/')
}

/// The form of `path` relative to `root`; `None` where `path` does not lie
/// under `root`, or where the rest would not stay relative.
pub open spec fn relative_to(root: Seq<char>, path: Seq<char>) -> Option<Seq<char>> {
    match rest_after(root, path) {
        Some(rest) => if stays_relative(rest) {
            Some(rest)
        } else {
            None
        },
        None => None,
    }
}

/// Whether the relative path `rel` names the metadata directory `.git` or
/// something inside it.
pub open spec fn in_metadata_dir(rel: Seq<char>) -> bool {
    let git = seq!['.', 'g', 'i', 't'];
    git.is_prefix_of(rel) && (rel.len() == 4 || rel[4] == '/')
}

/// Whether `p` is a prefix of `s`, given their lengths in characters.
fn prefix_from(p: &str, s: &str, plen: usize, slen: usize) -> (r: bool)
    requires
        plen == p@.len(),
        slen == s@.len(),
    ensures
        r == p@.is_prefix_of(s@),
{
    if plen > slen {
        return false;
    }
    let mut i: usize = 0;
    while i < plen
        invariant
            plen == p@.len(),
            slen == s@.len(),
            plen <= slen,
            i <= plen,
            forall|k: int| 0 <= k < i ==> p@[k] == s@[k],
        decreases plen - i,
    {
        if p.get_char(i) != s.get_char(i) {
            return false;
        }
        i = i + 1;
    }
    true
}

/// Whether `a` and `b` hold the same text.
pub fn same_text(a: &str, b: &str) -> (r: bool)
    ensures
        r == (a@ == b@),
{
    let alen = a.unicode_len();
    let blen = b.unicode_len();
    if alen != blen {
        return false;
    }
    let r = prefix_from(a, b, alen, blen);
    if r {
        assert(a@ =~= b@.subrange(0, alen as int));
        assert(b@.subrange(0, blen as int) =~= b@);
    }
    r
}

/// The rest of `path` after `root`; `None` where it does not lie under it.
fn rest_after_root(root: &str, path: &str) -> (r: Option<String>)
    ensures
        r matches Some(s) ==> rest_after(root@, path@) == Some(s@),
        r is None ==> rest_after(root@, path@) is None,
{
    let rlen = root.unicode_len();
    let plen = path.unicode_len();
    let is_prefix = prefix_from(root, path, rlen, plen);
    if rlen > 0 && root.get_char(rlen - 1) == '/' && is_prefix {
        return Some(String::from_str(path.substring_char(rlen, plen)));
    }
    if is_prefix && rlen == plen {
        assert(path@ =~= root@);
        return Some(String::new());
    }
    if is_prefix && plen > rlen && path.get_char(rlen) == '/' {
        return Some(String::from_str(path.substring_char(rlen + 1, plen)));
    }
    proof {
        if path@ == root@ {
            assert(root@.is_prefix_of(path@));
        }
    }
    None
}

/// Makes `path` relative to `root`; `None` where it does not lie under it.
pub fn strip_root(root: &str, path: &str) -> (r: Option<String>)
    ensures
        r matches Some(s) ==> relative_to(root@, path@) == Some(s@),
        r is None ==> relative_to(root@, path@) is None,
{
    match rest_after_root(root, path) {
        Some(rest) => {
            let n = rest.unicode_len();
            let s = rest.as_str();
            if n > 0 && s.get_char(0) == '/' {
                None
            } else if n >= 3 && s.get_char(0) == '.' && s.get_char(1) == '/' && s.get_char(2) == '/' {
                None
            } else {
                Some(rest)
            }
        },
        None => None,
    }
}

/// Whether the relative path `rel` lies in the metadata directory.
pub fn is_metadata_path(rel: &str) -> (r: bool)
    ensures
        r == in_metadata_dir(rel@),
{
    let n = rel.unicode_len();
    if n < 4 {
        return false;
    }
    let is_git = rel.get_char(0) == '.' && rel.get_char(1) == 'g' && rel.get_char(2) == 'i'
        && rel.get_char(3) == 't';
    assert(is_git == seq!['.', 'g', 'i', 't'].is_prefix_of(rel@)) by {
        if is_git {
            assert(rel@.subrange(0, 4) =~= seq!['.', 'g', 'i', 't']);
        }
    }
    is_git && (n == 4 || rel.get_char(4) == '/')
}

} // verus!

//! The newest commit of a repository, from its `HEAD` reflog.
use vstd::prelude::*;
use vstd::utf8::{decode_utf8, valid_utf8};
use crate::text::{
    byte_lines, byte_views, decode_utf8_chars, split_lines, split_whitespace, string_from_chars,
    tokens, views,
};
use crate::types::TelemetryEvent;

verus! {

/// The last of `lines` that is UTF-8, decoded.
pub open spec fn last_text_line(lines: Seq<Seq<u8>>) -> Option<Seq<char>>
    decreases lines.len(),
{
    if lines.len() == 0 {
        None
    } else if valid_utf8(lines.last()) {
        Some(decode_utf8(lines.last()))
    } else {
        last_text_line(lines.drop_last())
    }
}

/// The hash of the newest reflog entry: the second field of the last line
/// that is text, if that line has one.
pub open spec fn newest_commit_hash(head_log: Seq<u8>) -> Option<Seq<char>> {
    match last_text_line(byte_lines(head_log)) {
        Some(line) => if tokens(line).len() >= 2 {
            Some(tokens(line)[1])
        } else {
            None
        },
        None => None,
    }
}

/// The commit event for the newest entry of a repository's `HEAD` reflog:
/// `repo_name` names the repository and `head_log` holds the bytes of its
/// `.git/logs/HEAD`. Lines that are not UTF-8 are passed over; the newest
/// commit is the second field (the new hash) of the last remaining line.
pub fn parse_git_log_head(repo_name: &str, head_log: &[u8]) -> (r: Option<TelemetryEvent>)
    ensures
        match newest_commit_hash(head_log@) {
            None => r is None,
            Some(h) => r matches Some(TelemetryEvent::DevCommit { repo, hash }) && repo@
                == repo_name@ && hash@ == h,
        },
{
    let lines = split_lines(head_log);
    let ghost all = byte_views(lines@);
    let mut n: usize = lines.len();
    assert(all.take(n as int) =~= all);
    let mut found: Option<Vec<char>> = None;
    while n > 0
        invariant_except_break
            found is None,
        invariant
            n <= lines.len(),
            all == byte_views(lines@),
            all == byte_lines(head_log@),
            last_text_line(all.take(n as int)) == last_text_line(all),
        ensures
            found matches Some(l) ==> last_text_line(all) == Some(l@),
            found is None ==> n == 0,
        decreases n,
    {
        assert(all.take(n as int).last() == lines@[n - 1]@);
        assert(all.take(n as int).drop_last() =~= all.take(n - 1));
        if let Some(chars) = decode_utf8_chars(lines[n - 1].as_slice()) {
            found = Some(chars);
            break;
        }
        n = n - 1;
    }
    assert(n == 0 ==> all.take(n as int) =~= Seq::<Seq<u8>>::empty());
    let line = match found {
        Some(l) => l,
        None => return None,
    };
    let fields = split_whitespace(&line);
    if fields.len() >= 2 {
        assert(views(fields@)[1] == fields@[1]@);
        let hash = string_from_chars(&fields[1]);
        let repo = String::from_str(repo_name);
        Some(TelemetryEvent::DevCommit { repo, hash })
    } else {
        None
    }
}

/// What `serde_json::from_str::<Vec<String>>` gives for the text `text`:
/// the strings of a JSON array of strings, or nothing when the text is not
/// one.
pub uninterp spec fn json_string_array(text: Seq<char>) -> Option<Seq<Seq<char>>>;

/// Calls `serde_json::from_str::<Vec<String>>` on `text`; the contract
/// names its outcome `json_string_array(text@)` and says nothing more of it.
#[verifier::external_body]
fn parse_json_string_array(text: &str) -> (r: Option<Vec<String>>)
    ensures
        match json_string_array(text@) {
            Some(v) => r matches Some(x) && x@.map_values(|s: String| s@) == v,
            None => r is None,
        },
{
    match serde_json::from_str::<Vec<String>>(text) {
        Ok(roots) => Some(roots),
        Err(_) => None,
    }
}

/// The repositories to watch that a configuration file lists: the file
/// holds a JSON array of paths. Gives nothing when it does not.
pub fn configured_watch_roots(config_text: &str) -> (r: Option<Vec<String>>)
    ensures
        match json_string_array(config_text@) {
            Some(v) => r matches Some(x) && x@.map_values(|s: String| s@) == v,
            None => r is None,
        },
{
    parse_json_string_array(config_text)
}

/// The text of each string.
pub open spec fn texts(v: Seq<String>) -> Seq<Seq<char>> {
    v.map_values(|s: String| s@)
}

/// A component of a path names a file or directory: it is not the root
/// (`/`), `.` or `..`. Paths are lists of components, as
/// `std::path::Path::components` gives them, each written as its text.
pub open spec fn names_entry(c: Seq<char>) -> bool {
    c != "/"@ && c != "."@ && c != ".."@
}

/// `Path::file_name`: the last component, when it names an entry.
pub open spec fn file_name_of(path: Seq<Seq<char>>) -> Option<Seq<char>> {
    if path.len() > 0 && names_entry(path.last()) {
        Some(path.last())
    } else {
        None
    }
}

/// `Path::parent`: the path without its last component, unless there is
/// none or it is the root.
pub open spec fn parent_of(path: Seq<Seq<char>>) -> Option<Seq<Seq<char>>> {
    if path.len() > 0 && path.last() != "/"@ {
        Some(path.drop_last())
    } else {
        None
    }
}

/// The repository directory that `path` points at: a path whose last
/// component is `.git` is a repository's git directory and points at its
/// parent; any other path is the repository itself.
pub open spec fn repo_dir_of(path: Seq<Seq<char>>) -> Option<Seq<Seq<char>>> {
    if file_name_of(path) == Some(".git"@) {
        parent_of(path)
    } else {
        Some(path)
    }
}

/// The repository that `path` points at and its name, when its directory
/// has one.
pub open spec fn repo_of(path: Seq<Seq<char>>) -> Option<(Seq<Seq<char>>, Seq<char>)> {
    match repo_dir_of(path) {
        Some(dir) => match file_name_of(dir) {
            Some(name) => Some((dir, name)),
            None => None,
        },
        None => None,
    }
}

/// The repository that the path `path` (its components) points at, whose
/// `.git/logs/HEAD` holds its newest commit: how many leading components of
/// `path` make the repository's directory, and the repository's name.
/// Gives nothing when that directory has no name (it is the root, or ends
/// in `.` or `..`).
pub fn locate_repo(path: &Vec<String>) -> (r: Option<(usize, String)>)
    ensures
        match repo_of(texts(path@)) {
            Some((dir, name)) => r matches Some((k, n)) && k <= path.len() && dir == texts(
                path@,
            ).take(k as int) && n@ == name,
            None => r is None,
        },
{
    let ghost p = texts(path@);
    let git = String::from_str(".git");
    let root = String::from_str("/");
    let cur = String::from_str(".");
    let up = String::from_str("..");
    proof {
        reveal_strlit(".git");
        reveal_strlit("/");
        reveal_strlit(".");
        reveal_strlit("..");
        assert(".git"@.len() != "/"@.len() && ".git"@.len() != "."@.len());
        assert(".git"@[1] != ".."@[1]);
    }
    let n = path.len();
    let k: usize = if n > 0 && path[n - 1] == git {
        n - 1
    } else {
        n
    };
    assert(repo_dir_of(p) == Some(p.take(k as int))) by {
        assert(p.take(n as int) =~= p);
        if n > 0 {
            assert(p.take(n - 1) =~= p.drop_last());
        }
    }
    if k == 0 {
        return None;
    }
    let last = &path[k - 1];
    assert(p.take(k as int).last() == last@);
    if *last == root || *last == cur || *last == up {
        return None;
    }
    Some((k, last.clone()))
}

/// A repository and its git directory point at the same repository: for
/// any path whose last component is not `.git`, the path with `.git`
/// added (`Path::join(".git")`) gives the same directory and name.
pub proof fn law_git_dir_names_its_repo(path: Seq<Seq<char>>)
    requires
        file_name_of(path) != Some(".git"@),
    ensures
        repo_of(path.push(".git"@)) == repo_of(path),
{
    reveal_strlit(".git");
    reveal_strlit("/");
    reveal_strlit(".");
    reveal_strlit("..");
    assert(".git"@.len() != "/"@.len() && ".git"@.len() != "."@.len());
    assert(".git"@[1] != ".."@[1]);
    assert(path.push(".git"@).drop_last() =~= path);
}

/// The commit that the repository `path` points at shows, when
/// `head_log` holds the bytes of its `.git/logs/HEAD` (nothing when that
/// file is missing or cannot be read): the repository's name and the
/// newest hash of the log.
pub open spec fn commit_at_path(path: Seq<Seq<char>>, head_log: Option<Seq<u8>>) -> Option<
    (Seq<char>, Seq<char>),
> {
    match repo_of(path) {
        None => None,
        Some((_, name)) => match head_log {
            None => None,
            Some(log) => match newest_commit_hash(log) {
                Some(h) => Some((name, h)),
                None => None,
            },
        },
    }
}

/// The commit event of the repository that `path` (its components) points
/// at, the repository itself or its `.git` folder. `head_log` holds the
/// bytes of that repository's `.git/logs/HEAD`, in the directory that
/// `locate_repo` gives, or is nothing when the file does not exist or
/// cannot be read.
pub fn commit_at(path: &Vec<String>, head_log: Option<&[u8]>) -> (r: Option<TelemetryEvent>)
    ensures
        match commit_at_path(
            texts(path@),
            match head_log {
                Some(l) => Some(l@),
                None => None,
            },
        ) {
            None => r is None,
            Some((name, hash)) => (r matches Some(TelemetryEvent::DevCommit { repo, hash: h })
                && repo@ == name && h@ == hash),
        },
{
    let name = match locate_repo(path) {
        Some((_, name)) => name,
        None => return None,
    };
    let log = match head_log {
        Some(log) => log,
        None => return None,
    };
    parse_git_log_head(name.as_str(), log)
}

/// One reading of `HEAD`: for a path whose last component is not `.git`,
/// the path and its `.git` folder give the same commit, which is the
/// path's name with the newest hash of the log, and nothing when the path
/// has no name, the log cannot be read or its last text line has no hash.
pub proof fn law_git_dir_gives_same_commit(path: Seq<Seq<char>>, head_log: Option<Seq<u8>>)
    requires
        file_name_of(path) != Some(".git"@),
    ensures
        commit_at_path(path.push(".git"@), head_log) == commit_at_path(path, head_log),
        commit_at_path(path, head_log) == match (file_name_of(path), head_log) {
            (Some(name), Some(log)) => match newest_commit_hash(log) {
                Some(h) => Some((name, h)),
                None => None,
            },
            _ => None,
        },
{
    law_git_dir_names_its_repo(path);
}

/// `prefix` is `path` or one of its ancestors, component by component
/// (`Path::starts_with`).
pub open spec fn is_under(path: Seq<Seq<char>>, prefix: Seq<Seq<char>>) -> bool {
    prefix.len() <= path.len() && path.take(prefix.len() as int) == prefix
}

/// Whether the path `path` lies under `prefix` (both by their components).
pub fn path_is_under(path: &Vec<String>, prefix: &Vec<String>) -> (r: bool)
    ensures
        r == is_under(texts(path@), texts(prefix@)),
{
    if prefix.len() > path.len() {
        return false;
    }
    let mut i: usize = 0;
    while i < prefix.len()
        invariant
            prefix.len() <= path.len(),
            i <= prefix.len(),
            forall|j: int| 0 <= j < i ==> #[trigger] path@[j]@ == prefix@[j]@,
        decreases prefix.len() - i,
    {
        if path[i] != prefix[i] {
            assert(texts(path@).take(prefix.len() as int)[i as int] != texts(prefix@)[i as int]);
            return false;
        }
        i = i + 1;
    }
    assert(texts(path@).take(prefix.len() as int) =~= texts(prefix@));
    true
}

/// The positions of those of the first `n` roots that `path` lies under,
/// in order.
pub open spec fn roots_above(path: Seq<Seq<char>>, roots: Seq<Seq<Seq<char>>>, n: int) -> Seq<
    usize,
>
    decreases n,
{
    if n <= 0 {
        Seq::empty()
    } else if is_under(path, roots[n - 1]) {
        roots_above(path, roots, n - 1).push((n - 1) as usize)
    } else {
        roots_above(path, roots, n - 1)
    }
}

/// For the first `m` of `paths` in turn, the positions of the roots each
/// lies under.
pub open spec fn roots_touched(
    paths: Seq<Seq<Seq<char>>>,
    roots: Seq<Seq<Seq<char>>>,
    m: int,
) -> Seq<usize>
    decreases m,
{
    if m <= 0 {
        Seq::empty()
    } else {
        roots_touched(paths, roots, m - 1) + roots_above(paths[m - 1], roots, roots.len() as int)
    }
}

/// The component lists of each path.
pub open spec fn path_texts(v: Seq<Vec<String>>) -> Seq<Seq<Seq<char>>> {
    v.map_values(|p: Vec<String>| texts(p@))
}

/// Which watched repositories a file-system event concerns, to be read
/// again in this order: none unless the event created or modified
/// something (`is_change`); otherwise, for each of the event's paths in
/// turn, the positions of the roots it lies under.
pub fn roots_to_reread(is_change: bool, paths: &Vec<Vec<String>>, roots: &Vec<Vec<String>>) -> (r:
    Vec<usize>)
    ensures
        !is_change ==> r@ == Seq::<usize>::empty(),
        is_change ==> r@ == roots_touched(
            path_texts(paths@),
            path_texts(roots@),
            paths.len() as int,
        ),
{
    let mut out: Vec<usize> = Vec::new();
    if !is_change {
        return out;
    }
    let ghost ps = path_texts(paths@);
    let ghost rs = path_texts(roots@);
    let mut m: usize = 0;
    while m < paths.len()
        invariant
            m <= paths.len(),
            ps == path_texts(paths@),
            rs == path_texts(roots@),
            out@ == roots_touched(ps, rs, m as int),
        decreases paths.len() - m,
    {
        let ghost before = out@;
        let mut j: usize = 0;
        while j < roots.len()
            invariant
                m < paths.len(),
                j <= roots.len(),
                ps == path_texts(paths@),
                rs == path_texts(roots@),
                out@ == before + roots_above(ps[m as int], rs, j as int),
            decreases roots.len() - j,
        {
            assert(ps[m as int] == texts(paths@[m as int]@));
            assert(rs[j as int] == texts(roots@[j as int]@));
            if path_is_under(&paths[m], &roots[j]) {
                out.push(j);
                assert(out@ =~= before + roots_above(ps[m as int], rs, j + 1));
            } else {
                assert(out@ =~= before + roots_above(ps[m as int], rs, j + 1));
            }
            j = j + 1;
        }
        m = m + 1;
    }
    out
}

} // verus!

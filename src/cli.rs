use vstd::prelude::*;

verus! {

/// What happens to the extracted subdirectory in the source repository
/// once its history has been carried over.
#[derive(Debug, Clone, Copy, PartialEq, Eq, Structural)]
pub enum Remove {
    /// Leave the subdirectory and its history untouched.
    Nothing,
    /// Delete the subdirectory and stage the deletion, without committing.
    Commit,
    /// Rewrite the whole history so that the subdirectory never existed.
    Prune,
}

/// The mode that each accepted name selects: the full names and their
/// one-letter aliases.
pub open spec fn remove_of_name(s: Seq<char>) -> Option<Remove> {
    if s == "nothing"@ || s == "n"@ {
        Some(Remove::Nothing)
    } else if s == "commit"@ || s == "c"@ {
        Some(Remove::Commit)
    } else if s == "prune"@ || s == "p"@ {
        Some(Remove::Prune)
    } else {
        None
    }
}

fn str_eq(a: &str, b: &str) -> (r: bool)
    ensures
        r == (a@ == b@),
{
    let n = a.unicode_len();
    if n != b.unicode_len() {
        return false;
    }
    let mut i: usize = 0;
    while i < n
        invariant
            n == a@.len(),
            n == b@.len(),
            i <= n,
            a@.subrange(0, i as int) == b@.subrange(0, i as int),
        decreases n - i,
    {
        if a.get_char(i) != b.get_char(i) {
            assert(a@[i as int] != b@[i as int]);
            return false;
        }
        assert(a@.subrange(0, i + 1) == a@.subrange(0, i as int).push(a@[i as int]));
        assert(b@.subrange(0, i + 1) == b@.subrange(0, i as int).push(b@[i as int]));
        i = i + 1;
    }
    assert(a@ == a@.subrange(0, n as int));
    assert(b@ == b@.subrange(0, n as int));
    true
}

impl Remove {
    /// Reads a mode from its name (`nothing`, `commit`, `prune`) or its
    /// one-letter alias (`n`, `c`, `p`).
    pub fn from_name(s: &str) -> (r: Option<Remove>)
        ensures
            r == remove_of_name(s@),
    {
        if str_eq(s, "nothing") || str_eq(s, "n") {
            Some(Remove::Nothing)
        } else if str_eq(s, "commit") || str_eq(s, "c") {
            Some(Remove::Commit)
        } else if str_eq(s, "prune") || str_eq(s, "p") {
            Some(Remove::Prune)
        } else {
            None
        }
    }
}

impl Default for Remove {
    fn default() -> (r: Remove)
        ensures
            r == Remove::Nothing,
    {
        Remove::Nothing
    }
}

/// A path as git's command line takes it: each `\\` becomes `/`.
pub open spec fn git_path_of(s: Seq<char>) -> Seq<char> {
    s.map_values(|c: char| if c == '\\' { '/' } else { c })
}

/// Relies on str::replace, which replaces every match of the pattern (here
/// the single character `\\`) by the replacement (here `/`).
#[verifier::external_body]
fn replace_backslashes(s: &str) -> (r: String)
    ensures
        r@ == git_path_of(s@),
{
    s.replace('\\', "/")
}

/// The configuration of one run, built once at start and handed to the run.
#[derive(Debug)]
pub struct Cli {
    /// The source repository.
    pub repo: String,
    /// The subdirectory of `repo` to extract.
    pub path: String,
    /// Where the extracted history goes; created when missing.
    pub target: String,
    /// What to do with `path` in `repo` afterwards.
    pub remove: Remove,
    /// Accepted, and has no effect on the run.
    pub local: Option<String>,
    /// Accepted, and has no effect on the run.
    pub remote: Option<String>,
    /// Accepted, and has no effect on the run.
    pub keep: bool,
}

impl Cli {
    /// The source repository's path as handed to git.
    pub fn repo_git(&self) -> (r: String)
        ensures
            r@ == git_path_of(self.repo@),
    {
        replace_backslashes(self.repo.as_str())
    }

    /// The subdirectory's path as handed to git.
    pub fn path_git(&self) -> (r: String)
        ensures
            r@ == git_path_of(self.path@),
    {
        replace_backslashes(self.path.as_str())
    }
}

/// Builds the run's configuration from the values given on the command line.
/// `remove` is the mode's name or alias, `None` where it was not given (the
/// mode is then `nothing`). Fails, with `None`, on an unknown mode name.
pub fn cli(
    repo: String,
    path: String,
    target: String,
    remove: Option<&str>,
    local: Option<String>,
    remote: Option<String>,
    keep: bool,
) -> (r: Option<Cli>)
    ensures
        match remove {
            None => r is Some,
            Some(name) => r is Some <==> remove_of_name(name@) is Some,
        },
        r matches Some(c) ==> {
            &&& c.repo@ == repo@
            &&& c.path@ == path@
            &&& c.target@ == target@
            &&& c.remove == match remove {
                None => Remove::Nothing,
                Some(name) => remove_of_name(name@).unwrap(),
            }
            &&& c.local == local
            &&& c.remote == remote
            &&& c.keep == keep
        },
{
    let mode = match remove {
        None => Remove::default(),
        Some(name) => match Remove::from_name(name) {
            Some(m) => m,
            None => return None,
        },
    };
    Some(Cli { repo, path, target, remove: mode, local, remote, keep })
}

} // verus!

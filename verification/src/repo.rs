//! Tracked-repository descriptors and their normalizing builder.
//!
//! A [`Repo`] identifies one tracked working copy: a stable key, the
//! working-copy root path, the remote to sync with, and the branch to
//! track. Descriptors are built once, from facts about the repository on
//! disk gathered by the caller into a [`RepoProbe`], and are immutable
//! afterwards.

use vstd::prelude::*;

use crate::error::RepoRsError;

verus! {

/// The identity and configuration record of one tracked repository.
///
/// Two descriptors denote the same repository when their keys match or
/// their paths match; see [`is_same_repository`].
#[derive(Debug)]
pub struct Repo {
    pub key: String,
    pub path: String,
    pub remote: String,
    pub branch: String,
}

/// Two descriptors denote the same repository when either their keys or
/// their paths coincide; both are not required. A candidate whose path
/// matches an existing entry under a different key is still the same
/// repository.
pub open spec fn same_repository(a: Repo, b: Repo) -> bool {
    a.key@ == b.key@ || a.path@ == b.path@
}

/// Decides [`same_repository`]: a match by key or by path.
pub fn is_same_repository(a: &Repo, b: &Repo) -> (r: bool)
    ensures
        r == same_repository(*a, *b),
{
    a.key == b.key || a.path == b.path
}

impl Repo {
    /// A descriptor is valid when its key and branch are non-empty.
    pub open spec fn wf(self) -> bool {
        self.key@.len() > 0 && self.branch@.len() > 0
    }

    /// Starts building a descriptor for the working copy at or above
    /// `path`.
    pub fn new(path: &str) -> (b: RepoBuilder)
        ensures
            b.key is None,
            b.path@ == path@,
            b.remote is None,
            b.branch is None,
    {
        RepoBuilder::new(path)
    }
}

impl Clone for Repo {
    fn clone(&self) -> (r: Self)
        ensures
            r == *self,
    {
        Repo {
            key: self.key.clone(),
            path: self.path.clone(),
            remote: self.remote.clone(),
            branch: self.branch.clone(),
        }
    }
}

impl PartialEq for Repo {
    /// Descriptor equality is the same-repository relation: a match by
    /// key or by path.
    fn eq(&self, other: &Repo) -> (r: bool) {
        is_same_repository(self, other)
    }
}

impl vstd::std_specs::cmp::PartialEqSpecImpl for Repo {
    open spec fn obeys_eq_spec() -> bool {
        true
    }

    open spec fn eq_spec(&self, other: &Repo) -> bool {
        same_repository(*self, *other)
    }
}

/// Length of `s` with every trailing path separator removed.
pub open spec fn trimmed_len(s: Seq<char>) -> int
    decreases s.len(),
{
    if s.len() > 0 && s.last() == '/' {
        trimmed_len(s.drop_last())
    } else {
        s.len() as int
    }
}

/// Start of the last path component of `s` ending at `e`: scans left from
/// `e` to the nearest separator.
pub open spec fn base_start(s: Seq<char>, e: int) -> int
    decreases e,
{
    if e > 0 && s[e - 1] != '/' {
        base_start(s, e - 1)
    } else {
        e
    }
}

/// The base name of a path: its last component, with trailing separators
/// ignored. Empty for the filesystem root and for the empty path.
pub open spec fn base_name_of(s: Seq<char>) -> Seq<char> {
    s.subrange(base_start(s, trimmed_len(s)), trimmed_len(s))
}

/// Computes the base name of a path: the last component of `path`, with
/// trailing separators ignored.
pub fn base_name(path: &str) -> (r: String)
    ensures
        r@ == base_name_of(path@),
{
    let len = path.unicode_len();
    proof {
        assert(path@.take(len as int) =~= path@);
    }
    let mut end: usize = len;
    while end > 0 && path.get_char(end - 1) == '/'
        invariant
            0 <= end <= len,
            len == path@.len(),
            trimmed_len(path@) == trimmed_len(path@.take(end as int)),
        decreases end,
    {
        proof {
            assert(path@.take(end as int).last() == path@[end - 1]);
            assert(path@.take(end as int).drop_last() =~= path@.take(end - 1));
        }
        end = end - 1;
    }
    proof {
        if end > 0 {
            assert(path@.take(end as int).last() == path@[end - 1]);
        }
        assert(trimmed_len(path@.take(end as int)) == end);
    }
    let mut start: usize = end;
    while start > 0 && path.get_char(start - 1) != '/'
        invariant
            0 <= start <= end <= len,
            len == path@.len(),
            end == trimmed_len(path@),
            base_start(path@, end as int) == base_start(path@, start as int),
        decreases start,
    {
        start = start - 1;
    }
    assert(base_start(path@, start as int) == start);
    path.substring_char(start, end).to_owned()
}

/// Facts about the repository on disk, gathered by the caller before a
/// descriptor is built: the discovered working-copy root (`None` when the
/// path is not inside a valid, non-empty working copy), the configured
/// remote names in enumeration order, and the name of the checked-out
/// branch (`None` when HEAD is detached or otherwise unnamed).
#[derive(Debug)]
pub struct RepoProbe {
    pub root: Option<String>,
    pub remotes: Vec<String>,
    pub head_branch: Option<String>,
}

/// Collects the caller's choices for a descriptor before it is built:
/// the path to track and, optionally, an explicit key, remote, and
/// branch. Whatever is not supplied is derived from the probe at build
/// time.
#[derive(Debug)]
pub struct RepoBuilder {
    pub key: Option<String>,
    pub path: String,
    pub remote: Option<String>,
    pub branch: Option<String>,
}

/// The key a build will use: the supplied one, or the base name of the
/// discovered root.
pub open spec fn chosen_key(b: RepoBuilder, root: Seq<char>) -> Seq<char> {
    match b.key {
        Option::Some(k) => k@,
        Option::None => base_name_of(root),
    }
}

/// The branch a build will use: the supplied one, or the currently
/// checked-out branch from the probe, if any.
pub open spec fn chosen_branch(b: RepoBuilder, probe: RepoProbe) -> Option<Seq<char>> {
    match b.branch {
        Option::Some(br) => Option::Some(br@),
        Option::None => match probe.head_branch {
            Option::Some(h) => Option::Some(h@),
            Option::None => Option::None,
        },
    }
}

/// The remote a build will use: the supplied one, or the first remote the
/// probe enumerated, if any.
pub open spec fn chosen_remote(b: RepoBuilder, probe: RepoProbe) -> Option<Seq<char>> {
    match b.remote {
        Option::Some(r) => Option::Some(r@),
        Option::None => if probe.remotes@.len() > 0 {
            Option::Some(probe.remotes@[0]@)
        } else {
            Option::None
        },
    }
}

impl RepoBuilder {
    /// Starts a build for the working copy at or above `path` with no
    /// explicit choices.
    pub fn new(path: &str) -> (b: RepoBuilder)
        ensures
            b.key is None,
            b.path@ == path@,
            b.remote is None,
            b.branch is None,
    {
        RepoBuilder { key: Option::None, path: path.to_owned(), remote: Option::None, branch: Option::None }
    }

    /// Chooses an explicit key for the descriptor.
    pub fn key(&mut self, key: &str)
        ensures
            final(self).key matches Some(k) && k@ == key@,
            final(self).path == old(self).path,
            final(self).remote == old(self).remote,
            final(self).branch == old(self).branch,
    {
        self.key = Option::Some(key.to_owned());
    }

    /// Chooses an explicit remote for the descriptor.
    pub fn remote(&mut self, remote: &str)
        ensures
            final(self).remote matches Some(r) && r@ == remote@,
            final(self).path == old(self).path,
            final(self).key == old(self).key,
            final(self).branch == old(self).branch,
    {
        self.remote = Option::Some(remote.to_owned());
    }

    /// Chooses an explicit branch for the descriptor.
    pub fn branch(&mut self, branch: &str)
        ensures
            final(self).branch matches Some(b) && b@ == branch@,
            final(self).path == old(self).path,
            final(self).key == old(self).key,
            final(self).remote == old(self).remote,
    {
        self.branch = Option::Some(branch.to_owned());
    }

    /// Builds the finished descriptor from the caller's choices and the
    /// probed facts, normalizing as the probe shows:
    ///
    /// - the descriptor's path is the discovered root, never the input
    ///   path; `NoRepo` when no root was discovered, or when the root's
    ///   base name is empty and no key was supplied;
    /// - the key defaults to the root's base name;
    /// - the remote defaults to the first enumerated remote; `NoRemotes`
    ///   when there is none and none was supplied;
    /// - the branch defaults to the currently checked-out branch, and a
    ///   supplied branch is never overridden; `BranchUnknown` when no
    ///   branch can be determined or the determined one is empty.
    pub fn build(self, probe: RepoProbe) -> (r: Result<Repo, RepoRsError>)
        ensures
            (r is Ok <==> (probe.root matches Some(root) && chosen_key(self, root@).len() > 0
                && chosen_remote(self, probe) is Some && (chosen_branch(self, probe) matches Some(
                br,
            ) && br.len() > 0))),
            r matches Ok(repo) ==> {
                &&& probe.root matches Some(root) && repo.path == root && repo.key@ == chosen_key(
                    self,
                    root@,
                )
                &&& Option::Some(repo.remote@) == chosen_remote(self, probe)
                &&& Option::Some(repo.branch@) == chosen_branch(self, probe)
                &&& repo.wf()
            },
            probe.root is None ==> (r matches Err(e) && (e matches RepoRsError::NoRepo(p) && p
                == self.path)),
            probe.root is Some && chosen_key(self, probe.root.unwrap()@).len() == 0 ==> (
            r matches Err(e) && (e matches RepoRsError::NoRepo(p) && p == probe.root.unwrap())),
            probe.root is Some && chosen_key(self, probe.root.unwrap()@).len() > 0 && chosen_remote(
                self,
                probe,
            ) is None ==> (r matches Err(e) && (e matches RepoRsError::NoRemotes(p) && p
                == probe.root.unwrap())),
            probe.root is Some && chosen_key(self, probe.root.unwrap()@).len() > 0 && chosen_remote(
                self,
                probe,
            ) is Some && !(chosen_branch(self, probe) matches Some(br) && br.len() > 0) ==> (
            r matches Err(e) && (e matches RepoRsError::BranchUnknown(k) && k@ == chosen_key(
                self,
                probe.root.unwrap()@,
            ))),
    {
        let root = match probe.root {
            Option::Some(root) => root,
            Option::None => {
                return Result::Err(RepoRsError::NoRepo(self.path));
            },
        };
        let key = match self.key {
            Option::Some(k) => k,
            Option::None => base_name(root.as_str()),
        };
        if key.as_str().is_empty() {
            return Result::Err(RepoRsError::NoRepo(root));
        }
        let remote = match self.remote {
            Option::Some(r) => r,
            Option::None => {
                if probe.remotes.len() > 0 {
                    probe.remotes[0].clone()
                } else {
                    return Result::Err(RepoRsError::NoRemotes(root));
                }
            },
        };
        let branch = match self.branch {
            Option::Some(b) => b,
            Option::None => match probe.head_branch {
                Option::Some(h) => h,
                Option::None => {
                    return Result::Err(RepoRsError::BranchUnknown(key));
                },
            },
        };
        if branch.as_str().is_empty() {
            return Result::Err(RepoRsError::BranchUnknown(key));
        }
        Result::Ok(Repo { key, path: root, remote, branch })
    }
}

} // verus!

//! `owner/name` repository coordinates.

use vstd::prelude::*;
use vstd::string::*;

use crate::git::error::GitError;

verus! {

/// `i` is the position of the single `/` separating two non-empty
/// segments of `s`.
pub open spec fn spec_repo_path_split_at(s: Seq<char>, i: int) -> bool {
    &&& 0 < i
    &&& i + 1 < s.len()
    &&& s[i] == '/'
    &&& forall|j: int| 0 <= j < s.len() && j != i ==> s[j] != '/'
}

/// Whether `s` splits into exactly two non-empty segments on `/`.
pub open spec fn spec_valid_repo_path(s: Seq<char>) -> bool {
    exists|i: int| spec_repo_path_split_at(s, i)
}

/// The split position of a valid repository path is unique.
pub proof fn lemma_repo_path_split_unique(s: Seq<char>, i: int, j: int)
    requires
        spec_repo_path_split_at(s, i),
        spec_repo_path_split_at(s, j),
    ensures
        i == j,
{
    if i != j {
        assert(s[j] != '/');
    }
}

/// The repository name a valid `owner/name` string carries: the part
/// after its single `/`.
pub open spec fn spec_repo_name_of(s: Seq<char>) -> Seq<char>
    recommends
        spec_valid_repo_path(s),
{
    let i = choose|i: int| spec_repo_path_split_at(s, i);
    s.skip(i + 1)
}

/// A path parsed from `s` (owner the part before the slash, name
/// the part after, as [`RepositoryPath::new`] ensures) reassembles
/// to `s`, and its name is what [`spec_repo_name_of`] denotes.
pub proof fn lemma_repo_path_reassembles(p: &RepositoryPath, s: Seq<char>)
    requires
        spec_repo_path_split_at(s, p.owner@.len() as int),
        p.owner@ == s.take(p.owner@.len() as int),
        p.name@ == s.skip(p.owner@.len() + 1int),
    ensures
        p.spec_full_name() == s,
        p.name@ == spec_repo_name_of(s),
{
    reveal_strlit("/");
    let k = p.owner@.len() as int;
    let w = choose|i: int| spec_repo_path_split_at(s, i);
    lemma_repo_path_split_unique(s, k, w);
    assert(p.spec_full_name() =~= s);
}

/// A repository's coordinates at its hosting provider: the owning
/// account and the repository name.  Valid values never contain `/`
/// in either part and neither part is empty.
#[derive(Debug, Clone, PartialEq, Eq)]
pub struct RepositoryPath {
    pub owner: String,
    pub name: String,
}

impl RepositoryPath {
    /// The two segments reassemble to the source string and are
    /// themselves slash-free and non-empty.
    pub open spec fn well_formed(&self) -> bool {
        &&& self.owner@.len() > 0
        &&& self.name@.len() > 0
        &&& forall|j: int| 0 <= j < self.owner@.len() ==> self.owner@[j] != '/'
        &&& forall|j: int| 0 <= j < self.name@.len() ==> self.name@[j] != '/'
    }

    /// The `owner/name` rendering.
    pub open spec fn spec_full_name(&self) -> Seq<char> {
        self.owner@ + "/"@ + self.name@
    }

    /// Splits `repo_path` at its `/` separator.  Succeeds exactly on
    /// strings with one `/` between two non-empty segments.
    pub fn split_repo_path(repo_path: &str) -> (r: Result<(String, String), GitError>)
        ensures
            r is Ok <==> spec_valid_repo_path(repo_path@),
            r matches Ok(p) ==> {
                &&& spec_repo_path_split_at(repo_path@, p.0@.len() as int)
                &&& p.0@ == repo_path@.take(p.0@.len() as int)
                &&& p.1@ == repo_path@.skip(p.0@.len() + 1int)
            },
            r matches Err(e) ==> (e matches GitError::MalformedRepositoryPath(v) && v@ == repo_path@),
    {
        let n = repo_path.unicode_len();
        let mut i: usize = 0;
        let mut slash: usize = 0;
        let mut found = false;
        while i < n
            invariant
                i <= n,
                n == repo_path@.len(),
                !found ==> forall|j: int| 0 <= j < i ==> repo_path@[j] != '/',
                found ==> {
                    &&& slash < i
                    &&& repo_path@[slash as int] == '/'
                    &&& forall|j: int| 0 <= j < i && j != slash ==> repo_path@[j] != '/'
                },
            decreases n - i,
        {
            if repo_path.get_char(i) == '/' {
                if found {
                    proof {
                        assert forall|k: int| !spec_repo_path_split_at(repo_path@, k) by {
                            if spec_repo_path_split_at(repo_path@, k) {
                                if k == slash as int {
                                    assert(repo_path@[i as int] != '/');
                                } else {
                                    assert(repo_path@[slash as int] != '/');
                                }
                            }
                        }
                    }
                    return Err(GitError::MalformedRepositoryPath(repo_path.to_owned()));
                }
                found = true;
                slash = i;
            }
            i += 1;
        }
        if !found {
            proof {
                assert forall|k: int| !spec_repo_path_split_at(repo_path@, k) by {
                    if spec_repo_path_split_at(repo_path@, k) {
                        assert(repo_path@[k] != '/');
                    }
                }
            }
            return Err(GitError::MalformedRepositoryPath(repo_path.to_owned()));
        }
        if slash == 0 || slash + 1 == n {
            proof {
                assert forall|k: int| !spec_repo_path_split_at(repo_path@, k) by {
                    if spec_repo_path_split_at(repo_path@, k) && k != slash as int {
                        assert(repo_path@[slash as int] != '/');
                    }
                }
            }
            return Err(GitError::MalformedRepositoryPath(repo_path.to_owned()));
        }
        let owner = repo_path.substring_char(0, slash);
        let rest = repo_path.substring_char(slash + 1, n);
        proof {
            assert(spec_repo_path_split_at(repo_path@, slash as int));
        }
        Ok((String::from_str(owner), String::from_str(rest)))
    }

    /// Parses an `owner/name` string into its two parts.
    pub fn new(path: &str) -> (r: Result<Self, GitError>)
        ensures
            r is Ok <==> spec_valid_repo_path(path@),
            r matches Ok(p) ==> {
                &&& p.well_formed()
                &&& spec_repo_path_split_at(path@, p.owner@.len() as int)
                &&& p.owner@ == path@.take(p.owner@.len() as int)
                &&& p.name@ == path@.skip(p.owner@.len() + 1int)
            },
            r matches Err(e) ==> (e matches GitError::MalformedRepositoryPath(v) && v@ == path@),
    {
        match Self::split_repo_path(path) {
            Ok((owner, rest)) => {
                proof {
                    let k = owner@.len() as int;
                    assert(spec_repo_path_split_at(path@, k));
                    assert forall|j: int| 0 <= j < owner@.len() implies owner@[j] != '/' by {
                        assert(owner@[j] == path@[j]);
                    }
                    assert forall|j: int| 0 <= j < rest@.len() implies rest@[j] != '/' by {
                        assert(rest@[j] == path@[j + k + 1]);
                    }
                }
                Ok(Self { owner, name: rest })
            },
            Err(e) => Err(e),
        }
    }

    /// The owning account.
    pub fn owner(&self) -> (r: &String)
        ensures
            r@ == self.owner@,
    {
        &self.owner
    }

    /// The repository name.
    pub fn name(&self) -> (r: &String)
        ensures
            r@ == self.name@,
    {
        &self.name
    }

    /// The `owner/name` rendering.
    pub fn full_name(&self) -> (r: String)
        ensures
            r@ == self.spec_full_name(),
    {
        let mut s = self.owner.clone();
        s.append("/");
        s.append(self.name.as_str());
        s
    }
}

} // verus!

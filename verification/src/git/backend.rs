//! Hosting backends and their clone-URL roots.

use vstd::prelude::*;
use vstd::string::*;

use crate::git::error::GitError;

verus! {

/// The hosting service a repository lives at.  The backend only
/// selects the root URL used to build clone URLs.
#[derive(Debug, Clone, PartialEq, Eq)]
pub enum GitBackend {
    GitHub,
    GitLab,
    Custom(String),
}

/// ASCII upper-case letters fold to lower case; every other byte is
/// kept as it is.
pub open spec fn spec_lower_byte(b: u8) -> u8 {
    if 65 <= b <= 90 {
        (b + 32) as u8
    } else {
        b
    }
}

/// Byte-wise ASCII case folding.
pub open spec fn spec_lower_bytes(s: Seq<u8>) -> Seq<u8> {
    s.map_values(|b: u8| spec_lower_byte(b))
}

/// Whether `s` spells `keyword` up to ASCII case.
pub open spec fn spec_eq_ignore_ascii_case(s: &str, keyword: &str) -> bool {
    spec_lower_bytes(s.spec_bytes()) == keyword.spec_bytes()
}

/// Byte-wise comparison of `s` against a (lower-case) keyword,
/// folding ASCII upper-case letters of `s`.
fn eq_ignore_ascii_case(s: &str, keyword: &str) -> (r: bool)
    ensures
        r == spec_eq_ignore_ascii_case(s, keyword),
{
    let a = s.as_bytes_vec();
    let b = keyword.as_bytes_vec();
    if a.len() != b.len() {
        return false;
    }
    let n = a.len();
    let mut i: usize = 0;
    while i < n
        invariant
            i <= n,
            n == a@.len(),
            n == b@.len(),
            a@ == s.spec_bytes(),
            b@ == keyword.spec_bytes(),
            forall|j: int| 0 <= j < i ==> spec_lower_byte(a@[j]) == b@[j],
        decreases n - i,
    {
        let x = a[i];
        let folded = if 65 <= x && x <= 90 {
            x + 32
        } else {
            x
        };
        if folded != b[i] {
            proof {
                assert(spec_lower_bytes(a@)[i as int] == spec_lower_byte(a@[i as int]));
            }
            return false;
        }
        i += 1;
    }
    proof {
        assert(spec_lower_bytes(a@) =~= b@);
    }
    true
}

impl GitBackend {
    /// The root URL from which clone URLs are built.
    pub open spec fn spec_root_url(&self) -> Seq<char> {
        match self {
            GitBackend::GitHub => "https://github.com"@,
            GitBackend::GitLab => "https://gitlab.com"@,
            GitBackend::Custom(url) => url@,
        }
    }

    /// The root URL from which clone URLs are built.
    pub fn root_url(&self) -> (r: &str)
        ensures
            r@ == self.spec_root_url(),
    {
        match self {
            GitBackend::GitHub => "https://github.com",
            GitBackend::GitLab => "https://gitlab.com",
            GitBackend::Custom(url) => url.as_str(),
        }
    }

    /// Selects a backend by name, ignoring ASCII case, or accepts a
    /// `custom:<root-url>` form verbatim.  Anything else is rejected
    /// with the offending input.
    pub fn parse(s: &str) -> (r: Result<GitBackend, GitError>)
        ensures
            spec_eq_ignore_ascii_case(s, "github") ==> (r matches Ok(b) && b is GitHub),
            !spec_eq_ignore_ascii_case(s, "github") && spec_eq_ignore_ascii_case(s, "gitlab")
                ==> (r matches Ok(b) && b is GitLab),
            !spec_eq_ignore_ascii_case(s, "github") && !spec_eq_ignore_ascii_case(s, "gitlab")
                && "custom:"@.is_prefix_of(s@) ==> (r matches Ok(b)
                && b matches GitBackend::Custom(u) && u@ == s@.skip("custom:"@.len() as int)),
            r is Ok <==> (spec_eq_ignore_ascii_case(s, "github")
                || spec_eq_ignore_ascii_case(s, "gitlab") || "custom:"@.is_prefix_of(s@)),
            r matches Err(e) ==> (e matches GitError::UnsupportedGitBackend(v) && v@ == s@),
    {
        if eq_ignore_ascii_case(s, "github") {
            Ok(GitBackend::GitHub)
        } else if eq_ignore_ascii_case(s, "gitlab") {
            Ok(GitBackend::GitLab)
        } else if crate::text::str_starts_with(s, "custom:") {
            let n = "custom:".unicode_len();
            let url = s.substring_char(n, s.unicode_len());
            Ok(GitBackend::Custom(String::from_str(url)))
        } else {
            Err(GitError::UnsupportedGitBackend(s.to_owned()))
        }
    }
}

} // verus!

//! Wire git references: `refs/tags/<name>` and `refs/branches/<name>`.

use vstd::prelude::*;
use vstd::string::*;

use crate::git::error::GitError;
use crate::text::str_starts_with;

verus! {

/// A named pointer into version history, already stripped of its
/// wire prefix.  Branches and tags are treated identically
/// downstream; the variant only records which prefix was seen.
#[derive(Debug, Clone, PartialEq, Eq)]
pub enum RefType {
    Branch(String),
    Tag(String),
}

/// Whether `s` is a reference string this library accepts.
pub open spec fn spec_ref_parses(s: Seq<char>) -> bool {
    "refs/tags/"@.is_prefix_of(s) || "refs/branches/"@.is_prefix_of(s)
}

impl RefType {
    /// The bare reference name, as handed to version-control commands.
    pub open spec fn spec_name(&self) -> Seq<char> {
        match self {
            RefType::Branch(b) => b@,
            RefType::Tag(t) => t@,
        }
    }

    /// Parses a wire reference string.  `refs/tags/X` becomes
    /// `Tag(X)`, `refs/branches/X` becomes `Branch(X)`; anything else
    /// is rejected with the offending input.
    pub fn parse(value: &str) -> (r: Result<RefType, GitError>)
        ensures
            "refs/tags/"@.is_prefix_of(value@) ==> (r matches Ok(t)
                && t matches RefType::Tag(n) && n@ == value@.skip("refs/tags/"@.len() as int)),
            !"refs/tags/"@.is_prefix_of(value@) && "refs/branches/"@.is_prefix_of(value@)
                ==> (r matches Ok(t) && t matches RefType::Branch(n)
                    && n@ == value@.skip("refs/branches/"@.len() as int)),
            !spec_ref_parses(value@) ==> (r matches Err(e)
                && e matches GitError::UnsupportedRefType(v) && v@ == value@),
            r is Ok <==> spec_ref_parses(value@),
    {
        if str_starts_with(value, "refs/tags/") {
            let n = "refs/tags/".unicode_len();
            let stripped = value.substring_char(n, value.unicode_len());
            Ok(RefType::Tag(String::from_str(stripped)))
        } else if str_starts_with(value, "refs/branches/") {
            let n = "refs/branches/".unicode_len();
            let stripped = value.substring_char(n, value.unicode_len());
            Ok(RefType::Branch(String::from_str(stripped)))
        } else {
            Err(GitError::UnsupportedRefType(value.to_owned()))
        }
    }

    /// The bare reference name.
    pub fn name(&self) -> (r: &String)
        ensures
            r@ == self.spec_name(),
    {
        match self {
            RefType::Branch(b) => b,
            RefType::Tag(t) => t,
        }
    }
}

} // verus!

//! Go modules: versioned by git tags only.

use vstd::prelude::*;
use crate::text::{chars_of, string_of, trim, trim_chars};
use super::{FormatError, VersionFile};

verus! {

/// Go modules, whose version is the latest `v*` git tag.
pub struct GoModVersionFile;

/// `s` without its leading `v` characters.
pub open spec fn strip_leading_v(s: Seq<char>) -> Seq<char>
    decreases s.len(),
{
    if s.len() > 0 && s[0] == 'v' {
        strip_leading_v(s.drop_first())
    } else {
        s
    }
}

/// The version a tag names: the tag trimmed, without leading `v`s.
pub open spec fn tag_version(tag: Seq<char>) -> Seq<char> {
    strip_leading_v(trim(tag))
}

fn tag_version_of(tag: &str) -> (res: String)
    ensures
        res@ == tag_version(tag@),
{
    let chars = chars_of(tag);
    let t = trim_chars(chars.as_slice());
    let mut i: usize = 0;
    assert(t@.subrange(0, t@.len() as int) =~= t@);
    while i < t.len() && t[i] == 'v'
        invariant
            i <= t@.len(),
            strip_leading_v(t@) == strip_leading_v(t@.subrange(i as int, t@.len() as int)),
        decreases t@.len() - i,
    {
        assert(t@.subrange(i as int, t@.len() as int).drop_first() =~= t@.subrange(
            i + 1,
            t@.len() as int,
        ));
        i = i + 1;
    }
    let mut rest: Vec<char> = Vec::new();
    let mut k: usize = i;
    while k < t.len()
        invariant
            i <= k <= t@.len(),
            rest@ == t@.subrange(i as int, k as int),
        decreases t@.len() - k,
    {
        rest.push(t[k]);
        k = k + 1;
        assert(rest@ =~= t@.subrange(i as int, k as int));
    }
    proof {
        let r = t@.subrange(i as int, t@.len() as int);
        if r.len() > 0 {
            assert(r[0] == t@[i as int]);
        }
        assert(strip_leading_v(r) == r);
    }
    string_of(rest.as_slice())
}

impl GoModVersionFile {
    /// The version from a run of `git describe --tags --match v* --abbrev=0`:
    /// when it succeeded, the tag it printed without leading `v`s; otherwise
    /// `NoVersionGitTag`.
    pub fn version_from_describe(&self, succeeded: bool, stdout: &str) -> (res: Result<
        String,
        FormatError,
    >)
        ensures
            !succeeded ==> res matches Err(FormatError::NoVersionGitTag),
            succeeded ==> (res matches Ok(v) && v@ == tag_version(stdout@)),
    {
        if !succeeded {
            return Err(FormatError::NoVersionGitTag);
        }
        Ok(tag_version_of(stdout))
    }
}

impl VersionFile for GoModVersionFile {
    open spec fn writable(&self, content: Seq<char>) -> bool {
        true
    }

    /// `content` is what `git describe` printed.
    fn read_version(&self, content: &str) -> (res: Result<String, FormatError>)
        ensures
            res matches Ok(v) && v@ == tag_version(content@),
    {
        Ok(tag_version_of(content))
    }

    /// There is no file to update: the content stays as it is.
    fn write_version(&self, content: &str, version: &str) -> (res: Result<String, FormatError>)
        ensures
            res matches Ok(s) && s@ == content@,
    {
        Ok(content.to_owned())
    }
}

} // verus!

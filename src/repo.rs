use vstd::prelude::*;
use vstd::string::StringExecFns;

use crate::error::SyncError;

verus! {

/// The `origin` URL expected for `account`'s dotfiles repository.
pub open spec fn remote_url_of(account: Seq<char>) -> Seq<char> {
    "git@github.com:"@ + account + "/my-dot-files.git"@
}

/// What an inspection of the repository path found.
#[derive(Debug, Clone, PartialEq, Eq)]
pub enum RepoProbe {
    /// Nothing exists at the path.
    Absent,
    /// Something exists but could not be opened as a checkout; the reason.
    Unreadable(String),
    /// The path holds a bare checkout.
    Bare,
    /// The checkout has no `origin` remote; the reason.
    NoOrigin(String),
    /// The checkout's `origin` remote, with its URL when it has a readable one.
    Origin(Option<String>),
}

/// Whether a checkout is ready to be synced against `expected_url`: not when
/// the path is absent; an error when it holds something else than a working
/// checkout whose `origin` is `expected_url`.
pub open spec fn readiness_of(probe: RepoProbe, expected_url: Seq<char>) -> Result<bool, SyncError> {
    match probe {
        RepoProbe::Absent => Ok(false),
        RepoProbe::Unreadable(m) => Err(SyncError::Repository(m)),
        RepoProbe::Bare => Err(SyncError::InvalidRepoState),
        RepoProbe::NoOrigin(m) => Err(SyncError::Repository(m)),
        RepoProbe::Origin(None) => Err(SyncError::RemoteUrlUnknown),
        RepoProbe::Origin(Some(u)) => if u@ == expected_url {
            Ok(true)
        } else {
            Err(SyncError::RemoteMismatch)
        },
    }
}

/// The `origin` URL for `account`.
pub fn remote_url(account: &str) -> (r: String)
    ensures
        r@ == remote_url_of(account@),
{
    String::from_str("git@github.com:").concat(account).concat("/my-dot-files.git")
}

/// Decides readiness from a probe of the repository path.
pub fn readiness(probe: RepoProbe, expected_url: &String) -> (r: Result<bool, SyncError>)
    ensures
        r == readiness_of(probe, expected_url@),
{
    match probe {
        RepoProbe::Absent => Ok(false),
        RepoProbe::Unreadable(m) => Err(SyncError::Repository(m)),
        RepoProbe::Bare => Err(SyncError::InvalidRepoState),
        RepoProbe::NoOrigin(m) => Err(SyncError::Repository(m)),
        RepoProbe::Origin(None) => Err(SyncError::RemoteUrlUnknown),
        RepoProbe::Origin(Some(u)) => if u.eq(expected_url) {
            Ok(true)
        } else {
            Err(SyncError::RemoteMismatch)
        },
    }
}

pub open spec fn is_line_space(c: char) -> bool {
    c == ' ' || c == '\t' || c == '\n' || c == '\r'
}

/// `s` without the blanks and line ends that close it.
pub open spec fn trim_end_of(s: Seq<char>) -> Seq<char>
    decreases s.len(),
{
    if s.len() > 0 && is_line_space(s.last()) {
        trim_end_of(s.drop_last())
    } else {
        s
    }
}

/// The remote-tracking ref that the branch printed by `git rev-parse
/// --abbrev-ref HEAD` follows.
pub fn upstream_ref(branch_output: &str) -> (r: String)
    ensures
        r@ == "origin/"@ + trim_end_of(branch_output@),
{
    let mut end: usize = branch_output.unicode_len();
    assert(branch_output@.subrange(0, end as int) =~= branch_output@);
    loop
        invariant
            end <= branch_output@.len(),
            trim_end_of(branch_output@.subrange(0, end as int)) == trim_end_of(branch_output@),
        ensures
            end <= branch_output@.len(),
            trim_end_of(branch_output@.subrange(0, end as int)) == trim_end_of(branch_output@),
            trim_end_of(branch_output@.subrange(0, end as int)) == branch_output@.subrange(0, end as int),
        decreases end,
    {
        if end == 0 {
            assert(trim_end_of(branch_output@.subrange(0, 0)) == branch_output@.subrange(0, 0));
            break;
        }
        let c = branch_output.get_char(end - 1);
        assert(branch_output@.subrange(0, end as int).last() == c);
        if !(c == ' ' || c == '\t' || c == '\n' || c == '\r') {
            assert(trim_end_of(branch_output@.subrange(0, end as int)) == branch_output@.subrange(0, end as int));
            break;
        }
        assert(branch_output@.subrange(0, end as int).drop_last() =~= branch_output@.subrange(0, end - 1));
        end = end - 1;
    }
    String::from_str("origin/").concat(branch_output.substring_char(0, end))
}

} // verus!

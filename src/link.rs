use vstd::prelude::*;

verus! {

/// How a tracked dotfile's home-directory path relates to its copy in the
/// repository.
#[derive(Debug, Clone, Copy, PartialEq, Eq)]
pub enum LinkState {
    /// Nothing exists at the home path.
    Absent,
    /// The home path is a link to the repository copy.
    CorrectLink,
    /// The home path is a link to something else.
    WrongTarget,
    /// The home path is a regular file or directory.
    NotALink,
}

/// The state of a home path that `exists`, is a link to `target` when
/// `target` is `Some`, and should link to `expected`.
pub open spec fn link_state_of(exists: bool, target: Option<Seq<char>>, expected: Seq<char>) -> LinkState {
    if !exists {
        LinkState::Absent
    } else {
        match target {
            None => LinkState::NotALink,
            Some(t) => if t == expected {
                LinkState::CorrectLink
            } else {
                LinkState::WrongTarget
            },
        }
    }
}

pub open spec fn target_view(target: Option<String>) -> Option<Seq<char>> {
    match target {
        Some(t) => Some(t@),
        None => None,
    }
}

/// Classifies a home path from what the filesystem says of it.
pub fn link_state(exists: bool, target: &Option<String>, expected: &String) -> (r: LinkState)
    ensures
        r == link_state_of(exists, target_view(*target), expected@),
{
    if !exists {
        LinkState::Absent
    } else {
        match target {
            None => LinkState::NotALink,
            Some(t) => if t.eq(expected) {
                LinkState::CorrectLink
            } else {
                LinkState::WrongTarget
            },
        }
    }
}

} // verus!

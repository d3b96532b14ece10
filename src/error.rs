use vstd::prelude::*;

verus! {

/// What can go wrong while managing worktrees.
#[derive(Clone, Debug, PartialEq, Eq)]
pub enum Error {
    /// The repository engine refused an operation; its message.
    Git2Error(String),
    /// The file system refused an operation; its message.
    IoError(String),
    /// The worktree has staged, unstaged or untracked changes.
    UncommittedChanges,
}

impl Error {
    /// The text shown to the user for this error.
    pub open spec fn spec_message(&self) -> Seq<char> {
        match self {
            Error::Git2Error(m) => m@,
            Error::IoError(m) => m@,
            Error::UncommittedChanges => "Uncommitted changes found in worktree."@,
        }
    }

    /// The text shown to the user for this error.
    pub fn message(&self) -> (r: String)
        ensures
            r@ == self.spec_message(),
    {
        match self {
            Error::Git2Error(m) => m.clone(),
            Error::IoError(m) => m.clone(),
            Error::UncommittedChanges => String::from_str("Uncommitted changes found in worktree."),
        }
    }
}

} // verus!

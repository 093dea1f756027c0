//! The repository handle and the records of the working-copy view.

use vstd::prelude::*;
use std::path::PathBuf;

verus! {

/// `std::path::PathBuf`, carried through as an opaque value.
#[verifier::external_type_specification]
#[verifier::external_body]
pub struct ExPathBuf(PathBuf);

/// A handle on the workspace at a given root.
#[derive(Debug)]
pub struct JjRepo {
    workspace_root: PathBuf,
}

impl JjRepo {
    /// The root directory of the workspace.
    pub closed spec fn root(&self) -> PathBuf {
        self.workspace_root
    }

    /// Opens the workspace at `path`, or at `current_dir` where no path is
    /// given.
    pub fn open(path: Option<PathBuf>, current_dir: PathBuf) -> (repo: JjRepo)
        ensures
            repo.root() == (match path {
                Some(p) => p,
                None => current_dir,
            }),
    {
        let workspace_root = match path {
            Some(p) => p,
            None => current_dir,
        };
        JjRepo { workspace_root }
    }

    /// The root directory of the workspace.
    pub fn workspace_root(&self) -> (p: &PathBuf)
        ensures
            *p == self.root(),
    {
        &self.workspace_root
    }

    /// The changed files as the handle itself knows them: none. The status
    /// of the working copy comes from the status query.
    pub fn get_status(&self) -> (files: Vec<FileStatus>)
        ensures
            files@.len() == 0,
    {
        Vec::new()
    }
}

/// How a file differs from its parent commit.
#[derive(Debug, Clone, Copy, PartialEq, Eq, Structural)]
pub enum ChangeType {
    Added,
    Modified,
    Deleted,
}

impl ChangeType {
    /// The letter that the status listing shows for this kind of change.
    pub open spec fn letter(self) -> char {
        match self {
            ChangeType::Added => 'A',
            ChangeType::Modified => 'M',
            ChangeType::Deleted => 'D',
        }
    }

    /// The kind of change that a letter of the status listing stands for.
    pub open spec fn of_letter(c: char) -> Option<ChangeType> {
        if c == 'A' {
            Some(ChangeType::Added)
        } else if c == 'M' {
            Some(ChangeType::Modified)
        } else if c == 'D' {
            Some(ChangeType::Deleted)
        } else {
            None
        }
    }

    /// The one-letter symbol of this kind of change.
    pub fn symbol(&self) -> (s: &'static str)
        ensures
            s@ == seq![self.letter()],
    {
        proof {
            reveal_strlit("A");
            reveal_strlit("M");
            reveal_strlit("D");
        }
        match self {
            ChangeType::Added => {
                assert("A"@ =~= seq!['A']);
                "A"
            },
            ChangeType::Modified => {
                assert("M"@ =~= seq!['M']);
                "M"
            },
            ChangeType::Deleted => {
                assert("D"@ =~= seq!['D']);
                "D"
            },
        }
    }
}

/// Reading a symbol back gives the kind of change it came from.
pub proof fn lemma_letter_round_trip(t: ChangeType)
    ensures
        ChangeType::of_letter(t.letter()) == Some(t),
{
}

/// One changed file of the working copy.
#[derive(Debug, Clone, PartialEq, Eq)]
pub struct FileStatus {
    pub path: String,
    pub status: ChangeType,
}

/// What a `FileStatus` stands for.
pub struct FileStatusView {
    pub path: Seq<char>,
    pub status: ChangeType,
}

impl View for FileStatus {
    type V = FileStatusView;

    open spec fn view(&self) -> FileStatusView {
        FileStatusView { path: self.path@, status: self.status }
    }
}

} // verus!

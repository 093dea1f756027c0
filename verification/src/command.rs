//! What the interaction core asks of its host, and what the host answers.
//! The core decides; the host does the work on the repository and hands
//! the outcome back.

use vstd::prelude::*;
use vstd::string::*;
use crate::text::joined;

verus! {

/// A change of the repository, or a refresh of what is cached of it.
#[derive(Debug, Clone, PartialEq, Eq)]
pub enum Command {
    Describe { message: String },
    Commit { message: String },
    Rebase { destination: String },
    SetBookmark { name: String },
    Checkout { name: String },
    NewCommit,
    Fetch,
    Push { bookmark: Option<String> },
    Track { name: String },
    Restore,
    Refresh,
}

/// What a `Command` stands for.
pub enum CommandView {
    Describe { message: Seq<char> },
    Commit { message: Seq<char> },
    Rebase { destination: Seq<char> },
    SetBookmark { name: Seq<char> },
    Checkout { name: Seq<char> },
    NewCommit,
    Fetch,
    Push { bookmark: Option<Seq<char>> },
    Track { name: Seq<char> },
    Restore,
    Refresh,
}

/// The characters of an optional text.
pub open spec fn text_view(text: Option<String>) -> Option<Seq<char>> {
    match text {
        Some(t) => Some(t@),
        None => None,
    }
}

impl View for Command {
    type V = CommandView;

    open spec fn view(&self) -> CommandView {
        match self {
            Command::Describe { message } => CommandView::Describe { message: message@ },
            Command::Commit { message } => CommandView::Commit { message: message@ },
            Command::Rebase { destination } => CommandView::Rebase { destination: destination@ },
            Command::SetBookmark { name } => CommandView::SetBookmark { name: name@ },
            Command::Checkout { name } => CommandView::Checkout { name: name@ },
            Command::NewCommit => CommandView::NewCommit,
            Command::Fetch => CommandView::Fetch,
            Command::Push { bookmark } => CommandView::Push { bookmark: text_view(*bookmark) },
            Command::Track { name } => CommandView::Track { name: name@ },
            Command::Restore => CommandView::Restore,
            Command::Refresh => CommandView::Refresh,
        }
    }
}

impl CommandView {
    /// The status message that reports the success of the command.
    pub open spec fn success_text(self) -> Seq<char> {
        match self {
            CommandView::Describe { .. } => "Description updated"@,
            CommandView::Commit { .. } => "Committed successfully"@,
            CommandView::Rebase { destination } => "Rebased to "@ + destination,
            CommandView::SetBookmark { name } => "Set bookmark: "@ + name,
            CommandView::Checkout { name } => "Checked out bookmark: "@ + name,
            CommandView::NewCommit => "Created new commit"@,
            CommandView::Fetch => "Fetched from remote"@,
            CommandView::Push { bookmark } => match bookmark {
                Some(name) => "Pushed bookmark: "@ + name,
                None => "Pushed current change (created temporary bookmark)"@,
            },
            CommandView::Track { name } => "Tracking bookmark: "@ + name,
            CommandView::Restore => "Restored working copy"@,
            CommandView::Refresh => "Refreshed"@,
        }
    }

    /// What an error message says of the command before it gives the cause.
    pub open spec fn failure_prefix(self) -> Seq<char> {
        match self {
            CommandView::Describe { .. } => "Failed to describe: "@,
            CommandView::Commit { .. } => "Failed to commit: "@,
            CommandView::Rebase { .. } => "Failed to rebase: "@,
            CommandView::SetBookmark { .. } => "Failed to set bookmark: "@,
            CommandView::Checkout { .. } => "Failed to checkout bookmark: "@,
            CommandView::NewCommit => "Failed to create new commit: "@,
            CommandView::Fetch => "Failed to fetch: "@,
            CommandView::Push { .. } => "Failed to push: "@,
            CommandView::Track { .. } => "Failed to track bookmark: "@,
            CommandView::Restore => "Failed to restore working copy: "@,
            CommandView::Refresh => "Failed to refresh: "@,
        }
    }

    /// The error message for a failure of the command with the given cause.
    pub open spec fn failure_text(self, cause: Seq<char>) -> Seq<char> {
        self.failure_prefix() + cause
    }

    /// The command runs under the loading indicator.
    pub open spec fn shows_loading(self) -> bool {
        self is Fetch || self is Push
    }

    /// What the host does after the command has succeeded: a refresh of
    /// everything cached, after a checkout with the bookmark tracked first
    /// where that is switched on. A refresh itself has nothing to follow.
    pub open spec fn follow_up(self, auto_track: bool) -> ActionView {
        match self {
            CommandView::Refresh => ActionView::Idle,
            CommandView::Checkout { name } => if auto_track {
                ActionView::TrackAndRefresh { bookmark: name }
            } else {
                ActionView::RefreshAll
            },
            _ => ActionView::RefreshAll,
        }
    }
}

impl Command {
    /// The status message that reports the success of the command.
    pub fn success_message(&self) -> (text: String)
        ensures
            text@ == self@.success_text(),
    {
        match self {
            Command::Describe { .. } => String::from_str("Description updated"),
            Command::Commit { .. } => String::from_str("Committed successfully"),
            Command::Rebase { destination } => joined("Rebased to ", destination.as_str()),
            Command::SetBookmark { name } => joined("Set bookmark: ", name.as_str()),
            Command::Checkout { name } => joined("Checked out bookmark: ", name.as_str()),
            Command::NewCommit => String::from_str("Created new commit"),
            Command::Fetch => String::from_str("Fetched from remote"),
            Command::Push { bookmark } => match bookmark {
                Some(name) => joined("Pushed bookmark: ", name.as_str()),
                None => String::from_str("Pushed current change (created temporary bookmark)"),
            },
            Command::Track { name } => joined("Tracking bookmark: ", name.as_str()),
            Command::Restore => String::from_str("Restored working copy"),
            Command::Refresh => String::from_str("Refreshed"),
        }
    }

    /// The error message for a failure of the command with the given cause.
    pub fn failure_message(&self, cause: &str) -> (text: String)
        ensures
            text@ == self@.failure_text(cause@),
    {
        let prefix = match self {
            Command::Describe { .. } => "Failed to describe: ",
            Command::Commit { .. } => "Failed to commit: ",
            Command::Rebase { .. } => "Failed to rebase: ",
            Command::SetBookmark { .. } => "Failed to set bookmark: ",
            Command::Checkout { .. } => "Failed to checkout bookmark: ",
            Command::NewCommit => "Failed to create new commit: ",
            Command::Fetch => "Failed to fetch: ",
            Command::Push { .. } => "Failed to push: ",
            Command::Track { .. } => "Failed to track bookmark: ",
            Command::Restore => "Failed to restore working copy: ",
            Command::Refresh => "Failed to refresh: ",
        };
        joined(prefix, cause)
    }

    /// Whether the command runs under the loading indicator.
    pub fn shows_loading(&self) -> (b: bool)
        ensures
            b == self@.shows_loading(),
    {
        match self {
            Command::Fetch => true,
            Command::Push { .. } => true,
            _ => false,
        }
    }

    /// What the host does after the command has succeeded.
    pub fn follow_up(&self, auto_track: bool) -> (action: Action)
        ensures
            action@ == self@.follow_up(auto_track),
    {
        match self {
            Command::Refresh => Action::Idle,
            Command::Checkout { name } => {
                if auto_track {
                    Action::TrackAndRefresh { bookmark: name.clone() }
                } else {
                    Action::RefreshAll
                }
            },
            _ => Action::RefreshAll,
        }
    }
}

/// How a command ended.
#[derive(Debug, Clone, PartialEq, Eq)]
pub enum Outcome {
    /// The change is made and persisted.
    Success { message: String },
    /// The input was refused before anything was opened.
    Rejected { reason: String },
    /// There was nothing to do, and nothing was changed.
    Unchanged { message: String },
    /// The repository or the transport failed; nothing was persisted.
    Failed { cause: String },
}

/// What an `Outcome` stands for.
pub enum OutcomeView {
    Success { message: Seq<char> },
    Rejected { reason: Seq<char> },
    Unchanged { message: Seq<char> },
    Failed { cause: Seq<char> },
}

impl View for Outcome {
    type V = OutcomeView;

    open spec fn view(&self) -> OutcomeView {
        match self {
            Outcome::Success { message } => OutcomeView::Success { message: message@ },
            Outcome::Rejected { reason } => OutcomeView::Rejected { reason: reason@ },
            Outcome::Unchanged { message } => OutcomeView::Unchanged { message: message@ },
            Outcome::Failed { cause } => OutcomeView::Failed { cause: cause@ },
        }
    }
}

/// What the host is asked to do next. Each request names the function that
/// takes the answer.
#[derive(Debug, Clone, PartialEq, Eq)]
pub enum Action {
    /// Nothing.
    Idle,
    /// Load the diff of the file at `path`; answered to `update_diff`.
    LoadDiff { path: String },
    /// List the bookmarks; answered to `refresh_bookmarks`.
    RefreshBookmarks,
    /// Read the last `limit` commits of the log; answered to `refresh_log`.
    RefreshLog { limit: usize },
    /// Query status, bookmarks and log; answered to `refresh_all`.
    RefreshAll,
    /// Track the bookmark, ignoring a failure, then do as for `RefreshAll`.
    TrackAndRefresh { bookmark: String },
    /// Ask whether the working copy is empty; answered to
    /// `handle_new_commit`.
    CheckWorkingCopy,
    /// Find the current bookmark; answered to `handle_push`.
    FindBookmarkToPush,
    /// Find the current bookmark; answered to `track_current_bookmark`.
    FindBookmarkToTrack,
    /// List the bookmarks; answered to `show_bookmark_popup`.
    LoadBookmarkCandidates,
    /// Run the command; its outcome is answered to `complete`.
    Run(Command),
}

/// What an `Action` stands for.
pub enum ActionView {
    Idle,
    LoadDiff { path: Seq<char> },
    RefreshBookmarks,
    RefreshLog { limit: usize },
    RefreshAll,
    TrackAndRefresh { bookmark: Seq<char> },
    CheckWorkingCopy,
    FindBookmarkToPush,
    FindBookmarkToTrack,
    LoadBookmarkCandidates,
    Run(CommandView),
}

impl ActionView {
    /// The request asks for a change of the repository.
    pub open spec fn mutates(self) -> bool {
        self matches ActionView::Run(command) && !(command is Refresh)
    }
}

impl View for Action {
    type V = ActionView;

    open spec fn view(&self) -> ActionView {
        match self {
            Action::Idle => ActionView::Idle,
            Action::LoadDiff { path } => ActionView::LoadDiff { path: path@ },
            Action::RefreshBookmarks => ActionView::RefreshBookmarks,
            Action::RefreshLog { limit } => ActionView::RefreshLog { limit: *limit },
            Action::RefreshAll => ActionView::RefreshAll,
            Action::TrackAndRefresh { bookmark } => ActionView::TrackAndRefresh {
                bookmark: bookmark@,
            },
            Action::CheckWorkingCopy => ActionView::CheckWorkingCopy,
            Action::FindBookmarkToPush => ActionView::FindBookmarkToPush,
            Action::FindBookmarkToTrack => ActionView::FindBookmarkToTrack,
            Action::LoadBookmarkCandidates => ActionView::LoadBookmarkCandidates,
            Action::Run(command) => ActionView::Run(command@),
        }
    }
}

} // verus!

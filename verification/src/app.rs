//! The state of the client and its transitions. Key events and the answers
//! of the host come in; the next state and a request to the host come out.
//! The host draws the state and does the work on the repository.

use vstd::prelude::*;
use vstd::string::*;
use crate::command::{text_view, Action, ActionView, Command, CommandView, Outcome, OutcomeView};
use crate::feedback::{debounced, expired, is_debounced, is_expired, spinner_at, spinner_char};
use crate::jj::log::{CommitInfo, CommitView};
use crate::jj::operations::{BookmarkInfo, BookmarkView};
use crate::jj::repo::{FileStatus, FileStatusView, JjRepo};
use crate::key::{KeyCode, KeyEvent};
use crate::popup::{
    bookmark_views,
    clamped,
    BookmarkSelect,
    InputView,
    PopupCallback,
    PopupOutcome,
    PopupOutcomeView,
    PopupState,
    PopupView,
    SelectView,
    TextInput,
};
use crate::buffer::BufferView;
use crate::invariants::{lemma_answers_keep_wf, lemma_key_step_keeps_wf, lemma_refresh_keeps_wf};
use crate::settings::{Settings, SettingsView};
use crate::tab::Tab;
use crate::text::{joined, trim, trimmed};

verus! {

/// Everything the client shows and remembers between two key presses.
#[derive(Debug)]
pub struct App {
    pub current_tab: Tab,
    pub previous_tab: Tab,
    pub settings: Settings,
    pub should_quit: bool,
    pub popup_state: PopupState,
    pub status_message: Option<String>,
    /// When the status message was set.
    pub status_message_timestamp: Option<u64>,
    pub loading_message: Option<String>,
    /// When the loading indicator was switched on.
    pub loading_start: Option<u64>,
    pub selected_file_index: usize,
    pub selected_bookmark_index: usize,
    pub selected_log_index: usize,
    pub diff_scroll_offset: usize,
    pub repo: JjRepo,
    pub files: Vec<FileStatus>,
    pub current_diff: Option<String>,
    pub needs_redraw: bool,
    pub bookmarks: Vec<BookmarkInfo>,
    pub log_commits: Vec<CommitInfo>,
    /// The navigation key that was accepted last, and when.
    pub last_key_event: Option<(KeyCode, u64)>,
}

/// What an `App` stands for.
pub struct AppView {
    pub current_tab: Tab,
    pub previous_tab: Tab,
    pub settings: SettingsView,
    pub should_quit: bool,
    pub popup: PopupView,
    pub status_message: Option<Seq<char>>,
    pub status_message_timestamp: Option<u64>,
    pub loading_message: Option<Seq<char>>,
    pub loading_start: Option<u64>,
    pub selected_file_index: nat,
    pub selected_bookmark_index: nat,
    pub selected_log_index: nat,
    pub diff_scroll_offset: nat,
    pub repo: JjRepo,
    pub files: Seq<FileStatusView>,
    pub current_diff: Option<Seq<char>>,
    pub needs_redraw: bool,
    pub bookmarks: Seq<BookmarkView>,
    pub log_commits: Seq<CommitView>,
    pub last_key_event: Option<(KeyCode, u64)>,
}

/// The views of a list of changed files.
pub open spec fn file_views(files: Seq<FileStatus>) -> Seq<FileStatusView> {
    files.map_values(|f: FileStatus| f@)
}

/// The views of a list of commits.
pub open spec fn commit_views(commits: Seq<CommitInfo>) -> Seq<CommitView> {
    commits.map_values(|c: CommitInfo| c@)
}

/// The views of an optional list of bookmarks.
pub open spec fn optional_bookmark_views(bookmarks: Option<Vec<BookmarkInfo>>) -> Option<
    Seq<BookmarkView>,
> {
    match bookmarks {
        Some(b) => Some(bookmark_views(b@)),
        None => None,
    }
}

/// The views of an optional list of commits.
pub open spec fn optional_commit_views(commits: Option<Vec<CommitInfo>>) -> Option<
    Seq<CommitView>,
> {
    match commits {
        Some(c) => Some(commit_views(c@)),
        None => None,
    }
}

/// The answer to the question whether the working copy is empty, with the
/// cause of a failure taken by its characters.
pub open spec fn answer_view(answer: Result<bool, String>) -> Result<bool, Seq<char>> {
    match answer {
        Ok(b) => Ok(b),
        Err(e) => Err(e@),
    }
}

/// An index brought into a list of `len` items: itself where it names an
/// item, else the last item, and zero where the list is empty.
pub open spec fn clamp_index(index: nat, len: nat) -> nat {
    if len == 0 {
        0
    } else if index < len {
        index
    } else {
        (len - 1) as nat
    }
}

/// Brings an index into a list of `len` items.
pub fn clamp(index: usize, len: usize) -> (r: usize)
    ensures
        r == clamp_index(index as nat, len as nat),
        clamped(r as nat, len as nat),
{
    if len == 0 {
        0
    } else if index < len {
        index
    } else {
        len - 1
    }
}

impl View for App {
    type V = AppView;

    open spec fn view(&self) -> AppView {
        AppView {
            current_tab: self.current_tab,
            previous_tab: self.previous_tab,
            settings: self.settings@,
            should_quit: self.should_quit,
            popup: self.popup_state@,
            status_message: text_view(self.status_message),
            status_message_timestamp: self.status_message_timestamp,
            loading_message: text_view(self.loading_message),
            loading_start: self.loading_start,
            selected_file_index: self.selected_file_index as nat,
            selected_bookmark_index: self.selected_bookmark_index as nat,
            selected_log_index: self.selected_log_index as nat,
            diff_scroll_offset: self.diff_scroll_offset as nat,
            repo: self.repo,
            files: file_views(self.files@),
            current_diff: text_view(self.current_diff),
            needs_redraw: self.needs_redraw,
            bookmarks: bookmark_views(self.bookmarks@),
            log_commits: commit_views(self.log_commits@),
            last_key_event: self.last_key_event,
        }
    }
}

impl AppView {
    /// The state at startup: the working-copy view, nothing cached, no
    /// popup, no message, and a first frame due.
    pub open spec fn initial(settings: SettingsView, repo: JjRepo) -> AppView {
        AppView {
            current_tab: Tab::WorkingCopy,
            previous_tab: Tab::WorkingCopy,
            settings,
            should_quit: false,
            popup: PopupView::Closed,
            status_message: None,
            status_message_timestamp: None,
            loading_message: None,
            loading_start: None,
            selected_file_index: 0,
            selected_bookmark_index: 0,
            selected_log_index: 0,
            diff_scroll_offset: 0,
            repo,
            files: Seq::empty(),
            current_diff: None,
            needs_redraw: true,
            bookmarks: Seq::empty(),
            log_commits: Seq::empty(),
            last_key_event: None,
        }
    }

    /// Each selection is clamped to its list, an open popup is well formed,
    /// and a status message has its time stamp.
    pub open spec fn wf(self) -> bool {
        &&& clamped(self.selected_file_index, self.files.len())
        &&& clamped(self.selected_bookmark_index, self.bookmarks.len())
        &&& clamped(self.selected_log_index, self.log_commits.len())
        &&& self.popup.wf()
        &&& (self.status_message is Some <==> self.status_message_timestamp is Some)
    }

    /// The state with a status message set at `now`.
    pub open spec fn with_status(self, message: Seq<char>, now: u64) -> AppView {
        AppView {
            status_message: Some(message),
            status_message_timestamp: Some(now),
            needs_redraw: true,
            ..self
        }
    }

    /// The state without status message.
    pub open spec fn without_status(self) -> AppView {
        AppView {
            status_message: None,
            status_message_timestamp: None,
            needs_redraw: true,
            ..self
        }
    }

    /// The state after the clock was read at `now`: a status message that
    /// has outlived its time is gone.
    pub open spec fn ticked(self, now: u64) -> AppView {
        match self.status_message_timestamp {
            Some(since) => if expired(since, now) {
                self.without_status()
            } else {
                self
            },
            None => self,
        }
    }

    /// The state with an error popup.
    pub open spec fn with_error(self, message: Seq<char>) -> AppView {
        AppView { popup: PopupView::Error { message }, ..self }
    }

    /// The state with a warning popup.
    pub open spec fn with_warning(self, message: Seq<char>) -> AppView {
        AppView { popup: PopupView::Warning { message }, ..self }
    }

    /// The state with the loading indicator switched on at `now`.
    pub open spec fn with_loading(self, message: Seq<char>, now: u64) -> AppView {
        AppView {
            loading_message: Some(message),
            loading_start: Some(now),
            needs_redraw: true,
            ..self
        }
    }

    /// The state with the loading indicator switched off.
    pub open spec fn without_loading(self) -> AppView {
        AppView { loading_message: None, loading_start: None, needs_redraw: true, ..self }
    }

    /// The state with an empty text input open.
    pub open spec fn with_input(self, title: Seq<char>, callback: PopupCallback) -> AppView {
        AppView {
            popup: PopupView::Input(
                InputView { title, buffer: BufferView::holding(Seq::empty()), callback },
            ),
            ..self
        }
    }

    /// The state with the bookmark chooser open on the given candidates.
    pub open spec fn with_candidates(self, candidates: Seq<BookmarkView>) -> AppView {
        AppView {
            popup: PopupView::BookmarkSelect(
                SelectView { buffer: BufferView::holding(Seq::empty()), candidates, selected: 0 },
            ),
            ..self
        }
    }

    /// What becomes of the diff once the selected file has changed: where a
    /// file is selected its diff is asked for, else no diff is shown.
    pub open spec fn diff_updated(self) -> (AppView, ActionView) {
        if self.selected_file_index < self.files.len() {
            (self, ActionView::LoadDiff { path: self.files[self.selected_file_index as int].path })
        } else {
            (AppView { current_diff: None, ..self }, ActionView::Idle)
        }
    }

    /// The state after the status listing was read anew: the files are
    /// replaced, the first one is selected, the diff starts at its top.
    pub open spec fn with_files(self, files: Seq<FileStatusView>) -> (AppView, ActionView) {
        let replaced = AppView { files, selected_file_index: 0, diff_scroll_offset: 0, ..self };
        let (updated, action) = replaced.diff_updated();
        (AppView { needs_redraw: true, ..updated }, action)
    }

    /// The state after the bookmarks were listed anew. Where the listing
    /// failed nothing changes; else the list is replaced and the selection
    /// clamped to it.
    pub open spec fn with_bookmarks(self, bookmarks: Option<Seq<BookmarkView>>) -> AppView {
        match bookmarks {
            Some(list) => AppView {
                bookmarks: list,
                selected_bookmark_index: clamp_index(self.selected_bookmark_index, list.len()),
                needs_redraw: true,
                ..self
            },
            None => self,
        }
    }

    /// The state after the log was read anew. Where reading failed nothing
    /// changes; else the list is replaced and the selection clamped to it.
    pub open spec fn with_log(self, commits: Option<Seq<CommitView>>) -> AppView {
        match commits {
            Some(list) => AppView {
                log_commits: list,
                selected_log_index: clamp_index(self.selected_log_index, list.len()),
                needs_redraw: true,
                ..self
            },
            None => self,
        }
    }

    /// The state after all three lists were read anew.
    pub open spec fn with_all(
        self,
        files: Seq<FileStatusView>,
        bookmarks: Option<Seq<BookmarkView>>,
        commits: Option<Seq<CommitView>>,
    ) -> (AppView, ActionView) {
        let (refreshed, action) = self.with_files(files);
        (refreshed.with_bookmarks(bookmarks).with_log(commits), action)
    }

    /// The state after a switch to `tab`. A switch to the view that is
    /// shown already changes nothing; a switch to the bookmarks or to the
    /// log asks for that list to be read anew.
    pub open spec fn switched_to(self, tab: Tab) -> (AppView, ActionView) {
        if self.current_tab == tab {
            (self, ActionView::Idle)
        } else {
            (
                AppView { previous_tab: self.current_tab, current_tab: tab, ..self },
                match tab {
                    Tab::Bookmarks => ActionView::RefreshBookmarks,
                    Tab::Log => ActionView::RefreshLog {
                        limit: self.settings.ui.log_commits_count,
                    },
                    Tab::WorkingCopy => ActionView::Idle,
                },
            )
        }
    }
}

impl App {
    /// The state at startup.
    pub fn new(settings: Settings, repo: JjRepo) -> (app: App)
        ensures
            app@ == AppView::initial(settings@, repo),
            app@.wf(),
    {
        let app = App {
            current_tab: Tab::WorkingCopy,
            previous_tab: Tab::WorkingCopy,
            settings,
            should_quit: false,
            popup_state: PopupState::Closed,
            status_message: None,
            status_message_timestamp: None,
            loading_message: None,
            loading_start: None,
            selected_file_index: 0,
            selected_bookmark_index: 0,
            selected_log_index: 0,
            diff_scroll_offset: 0,
            repo,
            files: Vec::new(),
            current_diff: None,
            needs_redraw: true,
            bookmarks: Vec::new(),
            log_commits: Vec::new(),
            last_key_event: None,
        };
        assert(app@.files =~= Seq::empty());
        assert(app@.bookmarks =~= Seq::empty());
        assert(app@.log_commits =~= Seq::empty());
        app
    }

    /// Sets the status message, stamped with the time `now`.
    pub fn set_status_message(&mut self, message: String, now: u64)
        ensures
            final(self)@ == old(self)@.with_status(message@, now),
    {
        self.status_message = Some(message);
        self.status_message_timestamp = Some(now);
        self.needs_redraw = true;
    }

    /// Removes the status message.
    pub fn clear_status_message(&mut self)
        ensures
            final(self)@ == old(self)@.without_status(),
    {
        self.status_message = None;
        self.status_message_timestamp = None;
        self.needs_redraw = true;
    }

    /// Removes the status message once it has outlived its time. The host
    /// calls this once per turn of its loop.
    pub fn update_status_message_timeout(&mut self, now: u64)
        ensures
            final(self)@ == old(self)@.ticked(now),
            old(self)@.wf() ==> final(self)@.wf(),
    {
        match self.status_message_timestamp {
            Some(since) => {
                if is_expired(since, now) {
                    self.clear_status_message();
                }
            },
            None => {},
        }
    }

    /// Opens an error popup in place of whatever popup was open.
    pub fn show_error(&mut self, message: String)
        ensures
            final(self)@ == old(self)@.with_error(message@),
    {
        self.popup_state = PopupState::Error { message };
    }

    /// Opens a warning popup in place of whatever popup was open.
    pub fn show_warning(&mut self, message: String)
        ensures
            final(self)@ == old(self)@.with_warning(message@),
    {
        self.popup_state = PopupState::Warning { message };
    }

    /// Switches the loading indicator on, started at the time `now`.
    pub fn show_loading(&mut self, message: String, now: u64)
        ensures
            final(self)@ == old(self)@.with_loading(message@, now),
    {
        self.loading_message = Some(message);
        self.loading_start = Some(now);
        self.needs_redraw = true;
    }

    /// Switches the loading indicator off.
    pub fn clear_loading(&mut self)
        ensures
            final(self)@ == old(self)@.without_loading(),
    {
        self.loading_message = None;
        self.loading_start = None;
        self.needs_redraw = true;
    }

    /// The glyph of the loading indicator at the time `now`.
    pub fn get_spinner_char(&self, now: u64) -> (c: char)
        ensures
            c == spinner_at(self@.loading_start, now),
    {
        spinner_char(self.loading_start, now)
    }

    /// Whether a frame is due: after a change of the state, and all the
    /// while the loading indicator is on.
    pub fn wants_redraw(&self) -> (b: bool)
        ensures
            b == (self@.needs_redraw || self@.loading_message is Some),
    {
        self.needs_redraw || self.loading_message.is_some()
    }

    /// Decides what becomes of the diff after the selected file changed:
    /// asks for the diff of the selected file, or shows none where no file
    /// is selected.
    pub fn update_diff(&mut self) -> (action: Action)
        ensures
            final(self)@ == old(self)@.diff_updated().0,
            action@ == old(self)@.diff_updated().1,
    {
        if self.selected_file_index < self.files.len() {
            Action::LoadDiff { path: self.files[self.selected_file_index].path.clone() }
        } else {
            self.current_diff = None;
            Action::Idle
        }
    }

    /// Takes the diff that was loaded for the selected file.
    pub fn show_diff(&mut self, diff: String)
        ensures
            final(self)@ == (AppView { current_diff: Some(diff@), ..old(self)@ }),
    {
        self.current_diff = Some(diff);
    }

    /// Replaces the changed files by a fresh status listing.
    pub fn refresh_status(&mut self, files: Vec<FileStatus>) -> (action: Action)
        ensures
            final(self)@ == old(self)@.with_files(file_views(files@)).0,
            action@ == old(self)@.with_files(file_views(files@)).1,
            clamped(final(self)@.selected_file_index, final(self)@.files.len()),
            old(self)@.wf() ==> final(self)@.wf(),
    {
        self.files = files;
        self.selected_file_index = 0;
        self.diff_scroll_offset = 0;
        let action = self.update_diff();
        self.needs_redraw = true;
        action
    }

    /// Replaces the bookmarks by a fresh listing, if there is one.
    pub fn refresh_bookmarks(&mut self, bookmarks: Option<Vec<BookmarkInfo>>)
        ensures
            final(self)@ == old(self)@.with_bookmarks(optional_bookmark_views(bookmarks)),
            old(self)@.wf() || bookmarks is Some ==> clamped(
                final(self)@.selected_bookmark_index,
                final(self)@.bookmarks.len(),
            ),
    {
        match bookmarks {
            Some(list) => {
                self.selected_bookmark_index = clamp(self.selected_bookmark_index, list.len());
                self.bookmarks = list;
                self.needs_redraw = true;
            },
            None => {},
        }
    }

    /// Replaces the log by a fresh reading, if there is one.
    pub fn refresh_log(&mut self, commits: Option<Vec<CommitInfo>>)
        ensures
            final(self)@ == old(self)@.with_log(optional_commit_views(commits)),
            old(self)@.wf() || commits is Some ==> clamped(
                final(self)@.selected_log_index,
                final(self)@.log_commits.len(),
            ),
    {
        match commits {
            Some(list) => {
                self.selected_log_index = clamp(self.selected_log_index, list.len());
                self.log_commits = list;
                self.needs_redraw = true;
            },
            None => {},
        }
    }

    /// Replaces all three lists.
    pub fn refresh_all(
        &mut self,
        files: Vec<FileStatus>,
        bookmarks: Option<Vec<BookmarkInfo>>,
        commits: Option<Vec<CommitInfo>>,
    ) -> (action: Action)
        ensures
            final(self)@ == old(self)@.with_all(
                file_views(files@),
                optional_bookmark_views(bookmarks),
                optional_commit_views(commits),
            ).0,
            action@ == old(self)@.with_all(
                file_views(files@),
                optional_bookmark_views(bookmarks),
                optional_commit_views(commits),
            ).1,
            clamped(final(self)@.selected_file_index, final(self)@.files.len()),
            bookmarks is Some ==> clamped(
                final(self)@.selected_bookmark_index,
                final(self)@.bookmarks.len(),
            ),
            commits is Some ==> clamped(
                final(self)@.selected_log_index,
                final(self)@.log_commits.len(),
            ),
            old(self)@.wf() ==> final(self)@.wf(),
    {
        proof {
            if old(self)@.wf() {
                lemma_refresh_keeps_wf(
                    old(self)@,
                    file_views(files@),
                    optional_bookmark_views(bookmarks),
                    optional_commit_views(commits),
                );
            }
        }
        let action = self.refresh_status(files);
        self.refresh_bookmarks(bookmarks);
        self.refresh_log(commits);
        action
    }

    /// Switches to another view.
    pub fn switch_to_tab(&mut self, new_tab: Tab) -> (action: Action)
        ensures
            final(self)@ == old(self)@.switched_to(new_tab).0,
            action@ == old(self)@.switched_to(new_tab).1,
            old(self)@.wf() ==> final(self)@.wf(),
    {
        if self.current_tab != new_tab {
            self.previous_tab = self.current_tab;
            self.current_tab = new_tab;
            match new_tab {
                Tab::Bookmarks => Action::RefreshBookmarks,
                Tab::Log => Action::RefreshLog { limit: self.settings.ui.log_commits_count },
                Tab::WorkingCopy => Action::Idle,
            }
        } else {
            Action::Idle
        }
    }
}

/// The request that a submitted text input turns into. A rebase goes to
/// the trimmed text, or to the working copy itself where the text is blank.
pub open spec fn callback_command(callback: PopupCallback, text: Seq<char>) -> CommandView {
    match callback {
        PopupCallback::Describe => CommandView::Describe { message: text },
        PopupCallback::Commit => CommandView::Commit { message: text },
        PopupCallback::Rebase => CommandView::Rebase {
            destination: if trimmed(text).len() == 0 {
                "@"@
            } else {
                trimmed(text)
            },
        },
    }
}

/// The index one step down a list of `len` items, stopping at the last.
pub open spec fn index_down(index: nat, len: nat) -> nat {
    if len == 0 {
        index
    } else if index + 1 < len {
        index + 1
    } else {
        (len - 1) as nat
    }
}

/// The index one step up a list, stopping at the first item.
pub open spec fn index_up(index: nat) -> nat {
    if index > 0 {
        (index - 1) as nat
    } else {
        0
    }
}

impl AppView {
    /// The state after the debounce gate has seen a navigation key: where
    /// the key is dropped nothing changes, else the key and its time are
    /// remembered. The flag tells whether the key is accepted.
    pub open spec fn gated(self, code: KeyCode, now: u64) -> (AppView, bool) {
        if debounced(self.last_key_event, code, now) {
            (self, false)
        } else {
            (AppView { last_key_event: Some((code, now)), ..self }, true)
        }
    }

    /// The state after the selection of the shown view moved one step down.
    pub open spec fn moved_down(self) -> (AppView, ActionView) {
        match self.current_tab {
            Tab::WorkingCopy => if self.files.len() > 0 {
                let moved = AppView {
                    selected_file_index: index_down(self.selected_file_index, self.files.len()),
                    ..self
                };
                let (updated, action) = moved.diff_updated();
                (AppView { diff_scroll_offset: 0, ..updated }, action)
            } else {
                (self, ActionView::Idle)
            },
            Tab::Bookmarks => (
                AppView {
                    selected_bookmark_index: index_down(
                        self.selected_bookmark_index,
                        self.bookmarks.len(),
                    ),
                    ..self
                },
                ActionView::Idle,
            ),
            Tab::Log => (
                AppView {
                    selected_log_index: index_down(self.selected_log_index, self.log_commits.len()),
                    ..self
                },
                ActionView::Idle,
            ),
        }
    }

    /// The state after the selection of the shown view moved one step up.
    pub open spec fn moved_up(self) -> (AppView, ActionView) {
        match self.current_tab {
            Tab::WorkingCopy => {
                let moved = AppView {
                    selected_file_index: index_up(self.selected_file_index),
                    ..self
                };
                let (updated, action) = moved.diff_updated();
                (AppView { diff_scroll_offset: 0, ..updated }, action)
            },
            Tab::Bookmarks => (
                AppView {
                    selected_bookmark_index: index_up(self.selected_bookmark_index),
                    ..self
                },
                ActionView::Idle,
            ),
            Tab::Log => (
                AppView { selected_log_index: index_up(self.selected_log_index), ..self },
                ActionView::Idle,
            ),
        }
    }

    /// The state after a navigation key: dropped by the debounce gate, or
    /// the selection moved.
    pub open spec fn navigated(self, code: KeyCode, now: u64, down: bool) -> (AppView, ActionView) {
        let (gated, accepted) = self.gated(code, now);
        if !accepted {
            (self, ActionView::Idle)
        } else if down {
            gated.moved_down()
        } else {
            gated.moved_up()
        }
    }

    /// The state with the diff scrolled one line down: in the working-copy
    /// view, and only while a diff is shown.
    pub open spec fn scrolled_down(self) -> AppView {
        if self.current_tab == Tab::WorkingCopy && self.current_diff is Some
            && self.diff_scroll_offset < usize::MAX {
            AppView { diff_scroll_offset: self.diff_scroll_offset + 1, ..self }
        } else {
            self
        }
    }

    /// The state with the diff scrolled one line up, in the working-copy
    /// view.
    pub open spec fn scrolled_up(self) -> AppView {
        if self.current_tab == Tab::WorkingCopy {
            AppView { diff_scroll_offset: index_up(self.diff_scroll_offset), ..self }
        } else {
            self
        }
    }

    /// What Enter does in the shown view: in the bookmarks view the
    /// selected bookmark is checked out.
    pub open spec fn activated(self) -> (AppView, ActionView) {
        if self.current_tab == Tab::Bookmarks && self.selected_bookmark_index
            < self.bookmarks.len() {
            (
                self,
                ActionView::Run(
                    CommandView::Checkout {
                        name: self.bookmarks[self.selected_bookmark_index as int].name,
                    },
                ),
            )
        } else {
            (self, ActionView::Idle)
        }
    }

    /// The transition on a character key while no popup is open.
    pub open spec fn browse_char(self, c: char, now: u64) -> (AppView, ActionView) {
        let in_working_copy = self.current_tab == Tab::WorkingCopy;
        if c == '?' {
            (AppView { popup: PopupView::Help, ..self }, ActionView::Idle)
        } else if c == 'q' {
            (AppView { should_quit: true, ..self }, ActionView::Idle)
        } else if c == '1' {
            self.switched_to(Tab::WorkingCopy)
        } else if c == '2' {
            self.switched_to(Tab::Bookmarks)
        } else if c == '3' {
            self.switched_to(Tab::Log)
        } else if c == 'j' {
            self.navigated(KeyCode::Char(c), now, true)
        } else if c == 'k' {
            self.navigated(KeyCode::Char(c), now, false)
        } else if c == 'J' {
            (self.scrolled_down(), ActionView::Idle)
        } else if c == 'K' {
            (self.scrolled_up(), ActionView::Idle)
        } else if c == 'd' && in_working_copy {
            (self.with_input("Describe"@, PopupCallback::Describe), ActionView::Idle)
        } else if c == 'c' && in_working_copy {
            (self.with_input("Commit"@, PopupCallback::Commit), ActionView::Idle)
        } else if c == 'n' && in_working_copy {
            (self, ActionView::CheckWorkingCopy)
        } else if c == 'f' {
            (self.with_loading("Fetching from remote"@, now), ActionView::Run(CommandView::Fetch))
        } else if c == 'p' {
            (self.with_loading("Pushing to remote"@, now), ActionView::FindBookmarkToPush)
        } else if c == 'r' {
            (self.with_input("Rebase destination"@, PopupCallback::Rebase), ActionView::Idle)
        } else if c == 'b' {
            (self, ActionView::LoadBookmarkCandidates)
        } else if c == 't' {
            (self, ActionView::FindBookmarkToTrack)
        } else if c == 'R' {
            (self, ActionView::Run(CommandView::Refresh))
        } else if c == 'X' {
            (self, ActionView::Run(CommandView::Restore))
        } else {
            (self, ActionView::Idle)
        }
    }

    /// The transition on a key while no popup is open. Keys without a
    /// binding change nothing.
    pub open spec fn browse_step(self, code: KeyCode, now: u64) -> (AppView, ActionView) {
        match code {
            KeyCode::Char(c) => self.browse_char(c, now),
            KeyCode::Tab => self.switched_to(self.current_tab.successor()),
            KeyCode::BackTab => self.switched_to(self.current_tab.predecessor()),
            KeyCode::Down => self.navigated(code, now, true),
            KeyCode::Up => self.navigated(code, now, false),
            KeyCode::Enter => self.activated(),
            _ => (self, ActionView::Idle),
        }
    }

    /// The transition on a key while a popup is open. The popup takes
    /// every key: nothing but the popup changes, and a request goes out
    /// only where the popup hands a text over.
    pub open spec fn popup_step(self, key: KeyEvent) -> (AppView, ActionView) {
        match self.popup {
            PopupView::Input(input) => match input.step(key).1 {
                PopupOutcomeView::Open => (
                    AppView { popup: PopupView::Input(input.step(key).0), ..self },
                    ActionView::Idle,
                ),
                PopupOutcomeView::Closed => (
                    AppView { popup: PopupView::Closed, ..self },
                    ActionView::Idle,
                ),
                PopupOutcomeView::Submitted(text) => (
                    AppView { popup: PopupView::Closed, ..self },
                    ActionView::Run(callback_command(input.callback, text)),
                ),
            },
            PopupView::BookmarkSelect(select) => match select.step(key.code).1 {
                PopupOutcomeView::Open => (
                    AppView { popup: PopupView::BookmarkSelect(select.step(key.code).0), ..self },
                    ActionView::Idle,
                ),
                PopupOutcomeView::Closed => (
                    AppView { popup: PopupView::Closed, ..self },
                    ActionView::Idle,
                ),
                PopupOutcomeView::Submitted(name) => (
                    AppView { popup: PopupView::Closed, ..self },
                    ActionView::Run(CommandView::SetBookmark { name }),
                ),
            },
            PopupView::Error { .. } | PopupView::Warning { .. } => if key.code == KeyCode::Enter
                || key.code == KeyCode::Esc {
                (AppView { popup: PopupView::Closed, ..self }, ActionView::Idle)
            } else {
                (self, ActionView::Idle)
            },
            PopupView::Help => if key.code == KeyCode::Char('?') || key.code == KeyCode::Char('q')
                || key.code == KeyCode::Esc {
                (AppView { popup: PopupView::Closed, ..self }, ActionView::Idle)
            } else {
                (self, ActionView::Idle)
            },
            PopupView::Closed => (self, ActionView::Idle),
        }
    }

    /// The transition on a key event at the time `now`: to the popup if one
    /// is open, else to the bindings of the views. A frame is due after
    /// every key.
    pub open spec fn key_step(self, key: KeyEvent, now: u64) -> (AppView, ActionView) {
        let (next, action) = if self.popup is Closed {
            self.browse_step(key.code, now)
        } else {
            self.popup_step(key)
        };
        (AppView { needs_redraw: true, ..next }, action)
    }

    /// The state after the host has reported how a command ended. Success
    /// sets the status message; a refusal or a command with nothing to do
    /// opens a warning; a failure opens an error popup that gives the
    /// cause. The loading indicator of the command goes off in each case.
    pub open spec fn completed(self, command: CommandView, outcome: OutcomeView, now: u64) -> (
        AppView,
        ActionView,
    ) {
        let base = if command.shows_loading() {
            self.without_loading()
        } else {
            self
        };
        match outcome {
            OutcomeView::Success { .. } => (
                base.with_status(command.success_text(), now),
                command.follow_up(self.settings.ui.auto_track_on_checkout),
            ),
            OutcomeView::Rejected { reason } => (base.with_warning(reason), ActionView::Idle),
            OutcomeView::Unchanged { message } => (base.with_warning(message), ActionView::Idle),
            OutcomeView::Failed { cause } => (
                base.with_error(command.failure_text(cause)),
                ActionView::Idle,
            ),
        }
    }

    /// The state after the host has answered whether the working copy is
    /// empty: an empty one gets no new commit on top, but a warning.
    pub open spec fn new_commit_step(self, answer: Result<bool, Seq<char>>) -> (
        AppView,
        ActionView,
    ) {
        match answer {
            Ok(empty) => if empty {
                (
                    self.with_warning("Already on an empty commit. Add changes first."@),
                    ActionView::Idle,
                )
            } else {
                (self, ActionView::Run(CommandView::NewCommit))
            },
            Err(cause) => (
                self.with_error("Failed to check working copy: "@ + cause),
                ActionView::Idle,
            ),
        }
    }

    /// The state after the host has looked for the bookmark to track.
    pub open spec fn track_step(self, bookmark: Option<Seq<char>>) -> (AppView, ActionView) {
        match bookmark {
            Some(name) => (self, ActionView::Run(CommandView::Track { name })),
            None => (self.with_warning("No current bookmark to track."@), ActionView::Idle),
        }
    }
}

impl App {
    /// The debounce gate of the navigation keys: tells whether the key
    /// pressed at `now` is to be processed, and remembers it if so.
    pub fn should_process_navigation_key(&mut self, key_code: KeyCode, now: u64) -> (accepted:
        bool)
        ensures
            final(self)@ == old(self)@.gated(key_code, now).0,
            accepted == old(self)@.gated(key_code, now).1,
    {
        if is_debounced(self.last_key_event, key_code, now) {
            false
        } else {
            self.last_key_event = Some((key_code, now));
            true
        }
    }

    /// Moves the selection of the shown view one step down.
    fn move_down(&mut self) -> (action: Action)
        ensures
            final(self)@ == old(self)@.moved_down().0,
            action@ == old(self)@.moved_down().1,
    {
        match self.current_tab {
            Tab::WorkingCopy => {
                if self.files.len() > 0 {
                    self.selected_file_index = step_down(
                        self.selected_file_index,
                        self.files.len(),
                    );
                    let action = self.update_diff();
                    self.diff_scroll_offset = 0;
                    action
                } else {
                    Action::Idle
                }
            },
            Tab::Bookmarks => {
                self.selected_bookmark_index = step_down(
                    self.selected_bookmark_index,
                    self.bookmarks.len(),
                );
                Action::Idle
            },
            Tab::Log => {
                self.selected_log_index = step_down(
                    self.selected_log_index,
                    self.log_commits.len(),
                );
                Action::Idle
            },
        }
    }

    /// Moves the selection of the shown view one step up.
    fn move_up(&mut self) -> (action: Action)
        ensures
            final(self)@ == old(self)@.moved_up().0,
            action@ == old(self)@.moved_up().1,
    {
        match self.current_tab {
            Tab::WorkingCopy => {
                self.selected_file_index = step_up(self.selected_file_index);
                let action = self.update_diff();
                self.diff_scroll_offset = 0;
                action
            },
            Tab::Bookmarks => {
                self.selected_bookmark_index = step_up(self.selected_bookmark_index);
                Action::Idle
            },
            Tab::Log => {
                self.selected_log_index = step_up(self.selected_log_index);
                Action::Idle
            },
        }
    }

    /// Handles a navigation key.
    fn navigate(&mut self, code: KeyCode, now: u64, down: bool) -> (action: Action)
        ensures
            final(self)@ == old(self)@.navigated(code, now, down).0,
            action@ == old(self)@.navigated(code, now, down).1,
    {
        if !self.should_process_navigation_key(code, now) {
            Action::Idle
        } else if down {
            self.move_down()
        } else {
            self.move_up()
        }
    }

    /// Opens the input for a new description of the working copy.
    pub fn show_describe_popup(&mut self)
        ensures
            final(self)@ == old(self)@.with_input("Describe"@, PopupCallback::Describe),
    {
        self.popup_state = PopupState::Input(TextInput::new("Describe", PopupCallback::Describe));
    }

    /// Opens the input for the message of a commit.
    pub fn show_commit_popup(&mut self)
        ensures
            final(self)@ == old(self)@.with_input("Commit"@, PopupCallback::Commit),
    {
        self.popup_state = PopupState::Input(TextInput::new("Commit", PopupCallback::Commit));
    }

    /// Opens the input for the destination of a rebase.
    pub fn show_rebase_popup(&mut self)
        ensures
            final(self)@ == old(self)@.with_input("Rebase destination"@, PopupCallback::Rebase),
    {
        self.popup_state = PopupState::Input(
            TextInput::new("Rebase destination", PopupCallback::Rebase),
        );
    }

    /// Opens the bookmark chooser on the bookmarks that the host has
    /// listed.
    pub fn show_bookmark_popup(&mut self, candidates: Vec<BookmarkInfo>)
        ensures
            final(self)@ == old(self)@.with_candidates(bookmark_views(candidates@)),
            old(self)@.wf() ==> final(self)@.wf(),
    {
        self.popup_state = PopupState::BookmarkSelect(BookmarkSelect::new(candidates));
    }

    /// The request that a submitted text input turns into.
    pub fn execute_popup_callback(callback: PopupCallback, text: String) -> (action: Action)
        ensures
            action@ == ActionView::Run(callback_command(callback, text@)),
    {
        match callback {
            PopupCallback::Describe => Action::Run(Command::Describe { message: text }),
            PopupCallback::Commit => Action::Run(Command::Commit { message: text }),
            PopupCallback::Rebase => {
                let destination = trim(text.as_str());
                if destination.is_empty() {
                    Action::Run(Command::Rebase { destination: String::from_str("@") })
                } else {
                    Action::Run(Command::Rebase { destination: String::from_str(destination) })
                }
            },
        }
    }

    /// What Enter does in the shown view.
    fn handle_bookmark_checkout(&self) -> (action: Action)
        ensures
            action@ == self@.activated().1,
    {
        match self.current_tab {
            Tab::Bookmarks => {
                if self.selected_bookmark_index < self.bookmarks.len() {
                    Action::Run(
                        Command::Checkout {
                            name: self.bookmarks[self.selected_bookmark_index].name.clone(),
                        },
                    )
                } else {
                    Action::Idle
                }
            },
            _ => Action::Idle,
        }
    }

    /// Handles a character key while no popup is open.
    fn handle_browse_char(&mut self, c: char, now: u64) -> (action: Action)
        ensures
            final(self)@ == old(self)@.browse_char(c, now).0,
            action@ == old(self)@.browse_char(c, now).1,
    {
        let in_working_copy = self.current_tab == Tab::WorkingCopy;
        if c == '?' {
            self.popup_state = PopupState::Help;
            Action::Idle
        } else if c == 'q' {
            self.should_quit = true;
            Action::Idle
        } else if c == '1' {
            self.switch_to_tab(Tab::WorkingCopy)
        } else if c == '2' {
            self.switch_to_tab(Tab::Bookmarks)
        } else if c == '3' {
            self.switch_to_tab(Tab::Log)
        } else if c == 'j' {
            self.navigate(KeyCode::Char(c), now, true)
        } else if c == 'k' {
            self.navigate(KeyCode::Char(c), now, false)
        } else if c == 'J' {
            if in_working_copy && self.current_diff.is_some() && self.diff_scroll_offset
                < usize::MAX {
                self.diff_scroll_offset = self.diff_scroll_offset + 1;
            }
            Action::Idle
        } else if c == 'K' {
            if in_working_copy {
                self.diff_scroll_offset = step_up(self.diff_scroll_offset);
            }
            Action::Idle
        } else if c == 'd' && in_working_copy {
            self.show_describe_popup();
            Action::Idle
        } else if c == 'c' && in_working_copy {
            self.show_commit_popup();
            Action::Idle
        } else if c == 'n' && in_working_copy {
            Action::CheckWorkingCopy
        } else if c == 'f' {
            self.handle_fetch(now)
        } else if c == 'p' {
            self.show_loading(String::from_str("Pushing to remote"), now);
            Action::FindBookmarkToPush
        } else if c == 'r' {
            self.show_rebase_popup();
            Action::Idle
        } else if c == 'b' {
            Action::LoadBookmarkCandidates
        } else if c == 't' {
            Action::FindBookmarkToTrack
        } else if c == 'R' {
            Action::Run(Command::Refresh)
        } else if c == 'X' {
            Action::Run(Command::Restore)
        } else {
            Action::Idle
        }
    }

    /// Switches the loading indicator on and asks for a fetch from the
    /// remote.
    pub fn handle_fetch(&mut self, now: u64) -> (action: Action)
        ensures
            final(self)@ == old(self)@.with_loading("Fetching from remote"@, now),
            action@ == ActionView::Run(CommandView::Fetch),
    {
        self.show_loading(String::from_str("Fetching from remote"), now);
        Action::Run(Command::Fetch)
    }

    /// Handles a key while no popup is open.
    fn handle_browse_key(&mut self, code: KeyCode, now: u64) -> (action: Action)
        ensures
            final(self)@ == old(self)@.browse_step(code, now).0,
            action@ == old(self)@.browse_step(code, now).1,
    {
        match code {
            KeyCode::Char(c) => self.handle_browse_char(c, now),
            KeyCode::Tab => self.switch_to_tab(self.current_tab.next()),
            KeyCode::BackTab => self.switch_to_tab(self.current_tab.prev()),
            KeyCode::Down => self.navigate(code, now, true),
            KeyCode::Up => self.navigate(code, now, false),
            KeyCode::Enter => self.handle_bookmark_checkout(),
            _ => Action::Idle,
        }
    }

    /// Handles a key while a popup is open.
    fn handle_popup_key(&mut self, key: KeyEvent) -> (action: Action)
        ensures
            final(self)@ == old(self)@.popup_step(key).0,
            action@ == old(self)@.popup_step(key).1,
    {
        let mut popup = PopupState::Closed;
        std::mem::swap(&mut self.popup_state, &mut popup);
        match popup {
            PopupState::Input(mut input) => {
                match input.handle_key(key) {
                    PopupOutcome::Open => {
                        self.popup_state = PopupState::Input(input);
                        Action::Idle
                    },
                    PopupOutcome::Closed => Action::Idle,
                    PopupOutcome::Submitted(text) => App::execute_popup_callback(
                        input.callback,
                        text,
                    ),
                }
            },
            PopupState::BookmarkSelect(mut select) => {
                match select.handle_key(key.code) {
                    PopupOutcome::Open => {
                        self.popup_state = PopupState::BookmarkSelect(select);
                        Action::Idle
                    },
                    PopupOutcome::Closed => Action::Idle,
                    PopupOutcome::Submitted(name) => Action::Run(Command::SetBookmark { name }),
                }
            },
            PopupState::Error { message } => {
                match key.code {
                    KeyCode::Enter | KeyCode::Esc => {},
                    _ => {
                        self.popup_state = PopupState::Error { message };
                    },
                }
                Action::Idle
            },
            PopupState::Warning { message } => {
                match key.code {
                    KeyCode::Enter | KeyCode::Esc => {},
                    _ => {
                        self.popup_state = PopupState::Warning { message };
                    },
                }
                Action::Idle
            },
            PopupState::Help => {
                match key.code {
                    KeyCode::Char('?') | KeyCode::Char('q') | KeyCode::Esc => {},
                    _ => {
                        self.popup_state = PopupState::Help;
                    },
                }
                Action::Idle
            },
            PopupState::Closed => Action::Idle,
        }
    }

    /// Handles one key event that arrived at the time `now`, and says what
    /// the host is to do next.
    pub fn handle_key_event(&mut self, key: KeyEvent, now: u64) -> (action: Action)
        ensures
            final(self)@ == old(self)@.key_step(key, now).0,
            action@ == old(self)@.key_step(key, now).1,
            old(self)@.wf() ==> final(self)@.wf(),
    {
        proof {
            if old(self)@.wf() {
                lemma_key_step_keeps_wf(old(self)@, key, now);
            }
        }
        let browsing = match self.popup_state {
            PopupState::Closed => true,
            _ => false,
        };
        let action = if browsing {
            self.handle_browse_key(key.code, now)
        } else {
            self.handle_popup_key(key)
        };
        self.needs_redraw = true;
        action
    }

    /// Takes the outcome of a command that the host has run.
    pub fn complete(&mut self, command: &Command, outcome: Outcome, now: u64) -> (action: Action)
        ensures
            final(self)@ == old(self)@.completed(command@, outcome@, now).0,
            action@ == old(self)@.completed(command@, outcome@, now).1,
            old(self)@.wf() ==> final(self)@.wf(),
    {
        proof {
            if old(self)@.wf() {
                lemma_answers_keep_wf(old(self)@, command@, outcome@, Ok(true), None, Seq::empty(), now);
            }
        }
        if command.shows_loading() {
            self.clear_loading();
        }
        match outcome {
            Outcome::Success { .. } => {
                self.set_status_message(command.success_message(), now);
                command.follow_up(self.settings.ui.auto_track_on_checkout)
            },
            Outcome::Rejected { reason } => {
                self.show_warning(reason);
                Action::Idle
            },
            Outcome::Unchanged { message } => {
                self.show_warning(message);
                Action::Idle
            },
            Outcome::Failed { cause } => {
                self.show_error(command.failure_message(cause.as_str()));
                Action::Idle
            },
        }
    }

    /// Takes the answer to the question whether the working copy is empty,
    /// and asks for a new commit on top of it if it is not.
    pub fn handle_new_commit(&mut self, answer: Result<bool, String>) -> (action: Action)
        ensures
            final(self)@ == old(self)@.new_commit_step(answer_view(answer)).0,
            action@ == old(self)@.new_commit_step(answer_view(answer)).1,
            old(self)@.wf() ==> final(self)@.wf(),
    {
        match answer {
            Ok(true) => {
                self.show_warning(
                    String::from_str("Already on an empty commit. Add changes first."),
                );
                Action::Idle
            },
            Ok(false) => Action::Run(Command::NewCommit),
            Err(cause) => {
                self.show_error(joined("Failed to check working copy: ", cause.as_str()));
                Action::Idle
            },
        }
    }

    /// Takes the current bookmark, if there is one, and asks for the push
    /// of it, or of the current change where there is none.
    pub fn handle_push(&self, bookmark: Option<String>) -> (action: Action)
        ensures
            action@ == ActionView::Run(CommandView::Push { bookmark: text_view(bookmark) }),
    {
        Action::Run(Command::Push { bookmark })
    }

    /// Takes the current bookmark, if there is one, and asks for it to be
    /// tracked.
    pub fn track_current_bookmark(&mut self, bookmark: Option<String>) -> (action: Action)
        ensures
            final(self)@ == old(self)@.track_step(text_view(bookmark)).0,
            action@ == old(self)@.track_step(text_view(bookmark)).1,
            old(self)@.wf() ==> final(self)@.wf(),
    {
        match bookmark {
            Some(name) => Action::Run(Command::Track { name }),
            None => {
                self.show_warning(String::from_str("No current bookmark to track."));
                Action::Idle
            },
        }
    }
}

/// One step down a list of `len` items, stopping at the last.
fn step_down(index: usize, len: usize) -> (r: usize)
    ensures
        r == index_down(index as nat, len as nat),
{
    if len == 0 {
        index
    } else if index < len - 1 {
        index + 1
    } else {
        len - 1
    }
}

/// One step up a list, stopping at the first item.
fn step_up(index: usize) -> (r: usize)
    ensures
        r == index_up(index as nat),
{
    if index > 0 {
        index - 1
    } else {
        0
    }
}

} // verus!

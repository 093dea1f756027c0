//! What holds of every state of the client and of every transition.

use vstd::prelude::*;
use crate::app::{clamp_index, AppView};
use crate::command::{ActionView, CommandView, OutcomeView};
use crate::feedback::{debounced, DEBOUNCE_MS, STATUS_TTL_MS};
use crate::jj::log::CommitView;
use crate::jj::operations::BookmarkView;
use crate::jj::repo::FileStatusView;
use crate::key::{KeyCode, KeyEvent};
use crate::tab::Tab;
use crate::popup::{
    clamped,
    lemma_input_step_wf,
    lemma_select_step_wf,
    PopupView,
};

verus! {

/// A key that moves the selection of the shown view.
pub open spec fn is_navigation_key(code: KeyCode) -> bool {
    code == KeyCode::Down || code == KeyCode::Up || code == KeyCode::Char('j') || code
        == KeyCode::Char('k')
}

/// Whether a navigation key moves the selection down.
pub open spec fn moves_down(code: KeyCode) -> bool {
    code == KeyCode::Down || code == KeyCode::Char('j')
}

/// A clamped index names an item of the list, or is zero where the list is
/// empty, whatever the index was before.
pub proof fn lemma_clamp_index(index: nat, len: nat)
    ensures
        clamped(clamp_index(index, len), len),
        len == 0 ==> clamp_index(index, len) == 0,
        len > 0 ==> clamp_index(index, len) < len,
        index < len ==> clamp_index(index, len) == index,
{
}

/// After every refresh the selection of the refreshed list lies inside the
/// list, and is zero where the list is empty; this holds for lists of every
/// length and whatever the state was before. The other lists and their
/// selections stay as they were.
pub proof fn lemma_refresh_clamps_selection(
    s: AppView,
    files: Seq<FileStatusView>,
    bookmarks: Seq<BookmarkView>,
    commits: Seq<CommitView>,
)
    ensures
        s.with_files(files).0.files == files,
        clamped(s.with_files(files).0.selected_file_index, files.len()),
        s.with_files(files).0.selected_file_index == 0,
        s.with_bookmarks(Some(bookmarks)).bookmarks == bookmarks,
        clamped(s.with_bookmarks(Some(bookmarks)).selected_bookmark_index, bookmarks.len()),
        s.with_log(Some(commits)).log_commits == commits,
        clamped(s.with_log(Some(commits)).selected_log_index, commits.len()),
        s.with_bookmarks(None) == s,
        s.with_log(None) == s,
        ({
            let next = s.with_files(files).0;
            &&& next.bookmarks == s.bookmarks
            &&& next.selected_bookmark_index == s.selected_bookmark_index
            &&& next.log_commits == s.log_commits
            &&& next.selected_log_index == s.selected_log_index
        }),
        ({
            let next = s.with_bookmarks(Some(bookmarks));
            &&& next.files == s.files
            &&& next.selected_file_index == s.selected_file_index
            &&& next.log_commits == s.log_commits
            &&& next.selected_log_index == s.selected_log_index
        }),
        ({
            let next = s.with_log(Some(commits));
            &&& next.files == s.files
            &&& next.selected_file_index == s.selected_file_index
            &&& next.bookmarks == s.bookmarks
            &&& next.selected_bookmark_index == s.selected_bookmark_index
        }),
        ({
            let all = s.with_all(files, Some(bookmarks), Some(commits)).0;
            &&& all.files == files
            &&& all.bookmarks == bookmarks
            &&& all.log_commits == commits
            &&& clamped(all.selected_file_index, files.len())
            &&& clamped(all.selected_bookmark_index, bookmarks.len())
            &&& clamped(all.selected_log_index, commits.len())
        }),
{
}

/// A refresh of a well-formed state gives a well-formed state.
pub proof fn lemma_refresh_keeps_wf(
    s: AppView,
    files: Seq<FileStatusView>,
    bookmarks: Option<Seq<BookmarkView>>,
    commits: Option<Seq<CommitView>>,
)
    requires
        s.wf(),
    ensures
        s.with_files(files).0.wf(),
        s.with_bookmarks(bookmarks).wf(),
        s.with_log(commits).wf(),
        s.with_all(files, bookmarks, commits).0.wf(),
{
}

/// Every key takes a well-formed state with an open popup to a well-formed
/// state.
pub proof fn lemma_popup_step_keeps_wf(s: AppView, key: KeyEvent)
    requires
        s.wf(),
    ensures
        s.popup_step(key).0.wf(),
{
    match s.popup {
        PopupView::Input(input) => {
            lemma_input_step_wf(input, key);
        },
        PopupView::BookmarkSelect(select) => {
            lemma_select_step_wf(select, key.code);
        },
        _ => {},
    }
}

/// A move of the selection, a scroll of the diff and a switch of the view
/// take a well-formed state to a well-formed state.
pub proof fn lemma_moves_keep_wf(s: AppView, code: KeyCode, now: u64, down: bool, tab: Tab)
    requires
        s.wf(),
    ensures
        s.moved_down().0.wf(),
        s.moved_up().0.wf(),
        s.gated(code, now).0.wf(),
        s.navigated(code, now, down).0.wf(),
        s.scrolled_down().wf(),
        s.scrolled_up().wf(),
        s.switched_to(tab).0.wf(),
        s.activated().0.wf(),
{
}

/// Every character key takes a well-formed state without popup to a
/// well-formed state.
pub proof fn lemma_browse_char_keeps_wf(s: AppView, c: char, now: u64)
    requires
        s.wf(),
    ensures
        s.browse_char(c, now).0.wf(),
{
    lemma_moves_keep_wf(s, KeyCode::Char(c), now, true, Tab::WorkingCopy);
    lemma_moves_keep_wf(s, KeyCode::Char(c), now, false, Tab::Bookmarks);
    lemma_moves_keep_wf(s, KeyCode::Char(c), now, false, Tab::Log);
}

/// Every key takes a well-formed state without popup to a well-formed
/// state.
pub proof fn lemma_browse_step_keeps_wf(s: AppView, code: KeyCode, now: u64)
    requires
        s.wf(),
    ensures
        s.browse_step(code, now).0.wf(),
{
    match code {
        KeyCode::Char(c) => {
            lemma_browse_char_keeps_wf(s, c, now);
        },
        _ => {
            lemma_moves_keep_wf(s, code, now, true, s.current_tab.successor());
            lemma_moves_keep_wf(s, code, now, false, s.current_tab.predecessor());
        },
    }
}

/// Every key event takes a well-formed state to a well-formed state.
pub proof fn lemma_key_step_keeps_wf(s: AppView, key: KeyEvent, now: u64)
    requires
        s.wf(),
    ensures
        s.key_step(key, now).0.wf(),
{
    lemma_browse_step_keeps_wf(s, key.code, now);
    lemma_popup_step_keeps_wf(s, key);
}

/// Every answer of the host takes a well-formed state to a well-formed
/// state, and so does the reading of the clock.
pub proof fn lemma_answers_keep_wf(
    s: AppView,
    command: CommandView,
    outcome: OutcomeView,
    answer: Result<bool, Seq<char>>,
    bookmark: Option<Seq<char>>,
    candidates: Seq<BookmarkView>,
    now: u64,
)
    requires
        s.wf(),
    ensures
        s.completed(command, outcome, now).0.wf(),
        s.new_commit_step(answer).0.wf(),
        s.track_step(bookmark).0.wf(),
        s.with_candidates(candidates).wf(),
        s.ticked(now).wf(),
{
}

/// Esc on an open text input or bookmark chooser closes the popup and asks
/// nothing of the host, whatever the buffer holds; nothing else of the
/// state changes.
pub proof fn lemma_esc_closes_without_request(s: AppView, alt: bool, now: u64)
    requires
        s.popup is Input || s.popup is BookmarkSelect,
    ensures
        s.key_step(KeyEvent { code: KeyCode::Esc, alt }, now).1 == ActionView::Idle,
        s.key_step(KeyEvent { code: KeyCode::Esc, alt }, now).0 == (AppView {
            popup: PopupView::Closed,
            needs_redraw: true,
            ..s
        }),
{
}

/// An open popup takes every key: no binding of the views is reached.
/// Nothing but the popup changes, in particular not the shown view; and the
/// host is asked for something only where the popup closes and hands a text
/// over, and then for a command.
pub proof fn lemma_popup_takes_every_key(s: AppView, key: KeyEvent, now: u64)
    requires
        !(s.popup is Closed),
    ensures
        s.key_step(key, now).0 == (AppView {
            popup: s.key_step(key, now).0.popup,
            needs_redraw: true,
            ..s
        }),
        s.key_step(key, now).0.current_tab == s.current_tab,
        s.key_step(key, now).1 is Idle || (s.key_step(key, now).1 is Run && s.key_step(
            key,
            now,
        ).0.popup is Closed),
{
}

/// While no popup is open, the only commands that a key asks for outright
/// are a fetch, a restore, a refresh and the checkout of the selected
/// bookmark. A description, a commit, a rebase and the setting of a
/// bookmark come out of a popup; a push, a new commit and a change of
/// tracking come after an answer of the host.
pub proof fn lemma_browse_requests(s: AppView, key: KeyEvent, now: u64)
    requires
        s.popup is Closed,
    ensures
        s.key_step(key, now).1 matches ActionView::Run(command) ==> command is Fetch || command
            is Restore || command is Refresh || command is Checkout,
{
}

/// The debounce gate: once a navigation key was accepted at the time
/// `first`, the same key pressed again at `second` changes nothing while
/// less than the debounce window has passed, and moves the selection like a
/// first press from then on.
pub proof fn lemma_debounce(s: AppView, code: KeyCode, first: u64, second: u64)
    requires
        s.popup is Closed,
        is_navigation_key(code),
        !debounced(s.last_key_event, code, first),
        first <= second,
    ensures
        ({
            let key = KeyEvent { code, alt: false };
            let once = s.key_step(key, first).0;
            let stamped = AppView { last_key_event: Some((code, second)), ..once };
            &&& once.popup is Closed
            &&& once.last_key_event == Some((code, first))
            &&& second - first < DEBOUNCE_MS ==> once.key_step(key, second) == (
                once,
                ActionView::Idle,
            )
            &&& second - first >= DEBOUNCE_MS ==> once.key_step(key, second).0 == (AppView {
                needs_redraw: true,
                ..(if moves_down(code) {
                    stamped.moved_down().0
                } else {
                    stamped.moved_up().0
                })
            })
        }),
{
}

/// A status message set at the time `set` is still there when the clock is
/// read less than its time to live later, and gone when the clock is read
/// at that time or after it.
pub proof fn lemma_status_message_lifetime(s: AppView, message: Seq<char>, set: u64, now: u64)
    requires
        set <= now,
    ensures
        now - set < STATUS_TTL_MS ==> s.with_status(message, set).ticked(now).status_message
            == Some(message),
        now - set >= STATUS_TTL_MS ==> s.with_status(message, set).ticked(now).status_message
            is None,
{
}

/// The loading indicator has no time to live: the reading of the clock
/// leaves it alone.
pub proof fn lemma_loading_outlives_ticks(s: AppView, now: u64)
    ensures
        s.ticked(now).loading_message == s.loading_message,
        s.ticked(now).loading_start == s.loading_start,
{
}

/// How a command ended decides what the user sees: success a status
/// message and no popup of its own, everything else a popup and no new
/// status message. Only success asks the host for more.
pub proof fn lemma_outcome_feedback(
    s: AppView,
    command: CommandView,
    outcome: OutcomeView,
    now: u64,
)
    ensures
        ({
            let (next, action) = s.completed(command, outcome, now);
            &&& outcome is Success ==> next.status_message == Some(command.success_text())
                && next.popup == s.popup
            &&& outcome is Failed ==> next.popup is Error && next.status_message
                == s.status_message && action is Idle
            &&& (outcome is Rejected || outcome is Unchanged) ==> next.popup is Warning
                && next.status_message == s.status_message && action is Idle
            &&& next.loading_message is None || !command.shows_loading()
            &&& next.current_tab == s.current_tab
            &&& next.files == s.files
            &&& next.bookmarks == s.bookmarks
            &&& next.log_commits == s.log_commits
        }),
{
}

} // verus!

use std::path::PathBuf;

use jjkk::app::{clamp, App};
use jjkk::command::{Action, Command, Outcome};
use jjkk::jj::log::CommitInfo;
use jjkk::jj::operations::BookmarkInfo;
use jjkk::jj::repo::{ChangeType, FileStatus, JjRepo};
use jjkk::key::{KeyCode, KeyEvent};
use jjkk::popup::{PopupCallback, PopupState};
use jjkk::settings::Settings;
use jjkk::tab::Tab;

fn new_app() -> App {
    App::new(Settings::default(), JjRepo::open(None, PathBuf::from(".")))
}

fn key(code: KeyCode) -> KeyEvent {
    KeyEvent::plain(code)
}

fn letter(c: char) -> KeyEvent {
    KeyEvent::plain(KeyCode::Char(c))
}

fn files(paths: &[&str]) -> Vec<FileStatus> {
    paths.iter().map(|p| FileStatus { path: String::from(*p), status: ChangeType::Modified }).collect()
}

fn bookmarks(names: &[&str]) -> Vec<BookmarkInfo> {
    names.iter().map(|n| BookmarkInfo { name: String::from(*n), is_current: false }).collect()
}

fn commits(count: usize) -> Vec<CommitInfo> {
    (0..count)
        .map(|i| CommitInfo {
            change_id: format!("change{}", i),
            commit_id: format!("commit{}", i),
            description: format!("description {}", i),
            author: String::from("<a@example.org>"),
        })
        .collect()
}

fn type_into(app: &mut App, text: &str) {
    for c in text.chars() {
        assert_eq!(app.handle_key_event(letter(c), 0), Action::Idle);
    }
}

#[test]
fn a_new_app_shows_the_working_copy_with_nothing_cached() {
    let app = new_app();
    assert_eq!(app.current_tab, Tab::WorkingCopy);
    assert_eq!(app.previous_tab, Tab::WorkingCopy);
    assert!(!app.should_quit);
    assert_eq!(app.popup_state, PopupState::Closed);
    assert_eq!(app.status_message, None);
    assert_eq!(app.loading_message, None);
    assert_eq!(app.selected_file_index, 0);
    assert_eq!(app.selected_bookmark_index, 0);
    assert_eq!(app.selected_log_index, 0);
    assert_eq!(app.diff_scroll_offset, 0);
    assert!(app.files.is_empty());
    assert!(app.bookmarks.is_empty());
    assert!(app.log_commits.is_empty());
    assert_eq!(app.current_diff, None);
    assert!(app.needs_redraw);
    assert!(app.wants_redraw());
    assert_eq!(app.last_key_event, None);
    assert_eq!(app.repo.workspace_root(), &PathBuf::from("."));
    assert!(app.repo.get_status().is_empty());
}

#[test]
fn the_repo_opens_at_the_given_path_or_the_current_directory() {
    let given = JjRepo::open(Some(PathBuf::from("/work/repo")), PathBuf::from("/elsewhere"));
    assert_eq!(given.workspace_root(), &PathBuf::from("/work/repo"));
    let fallback = JjRepo::open(None, PathBuf::from("/elsewhere"));
    assert_eq!(fallback.workspace_root(), &PathBuf::from("/elsewhere"));
}

#[test]
fn clamp_brings_an_index_into_the_list() {
    assert_eq!(clamp(0, 0), 0);
    assert_eq!(clamp(7, 0), 0);
    assert_eq!(clamp(0, 3), 0);
    assert_eq!(clamp(2, 3), 2);
    assert_eq!(clamp(3, 3), 2);
    assert_eq!(clamp(usize::MAX, 1), 0);
}

#[test]
fn esc_on_a_text_input_closes_it_and_asks_for_nothing() {
    for opener in ['d', 'c', 'r'] {
        let mut app = new_app();
        assert_eq!(app.handle_key_event(letter(opener), 0), Action::Idle);
        assert!(matches!(app.popup_state, PopupState::Input(_)));
        type_into(&mut app, "half a message");
        assert_eq!(app.handle_key_event(key(KeyCode::Esc), 0), Action::Idle);
        assert_eq!(app.popup_state, PopupState::Closed);
        assert_eq!(app.current_tab, Tab::WorkingCopy);
        assert_eq!(app.status_message, None);
    }
}

#[test]
fn esc_on_the_bookmark_chooser_closes_it_and_asks_for_nothing() {
    let mut app = new_app();
    assert_eq!(app.handle_key_event(letter('b'), 0), Action::LoadBookmarkCandidates);
    app.show_bookmark_popup(bookmarks(&["main", "main-2", "dev"]));
    type_into(&mut app, "ma");
    assert_eq!(app.handle_key_event(key(KeyCode::Down), 0), Action::Idle);
    assert_eq!(app.handle_key_event(key(KeyCode::Esc), 0), Action::Idle);
    assert_eq!(app.popup_state, PopupState::Closed);
}

#[test]
fn the_chooser_filters_and_completes() {
    let mut app = new_app();
    app.show_bookmark_popup(bookmarks(&["main", "main-2", "dev"]));
    type_into(&mut app, "main");
    match &app.popup_state {
        PopupState::BookmarkSelect(select) => {
            assert_eq!(select.filtered(), vec![0usize, 1]);
            assert_eq!(select.selected_index, 0);
        }
        other => panic!("{:?}", other),
    }
    assert_eq!(app.handle_key_event(key(KeyCode::Tab), 0), Action::Idle);
    match &app.popup_state {
        PopupState::BookmarkSelect(select) => {
            assert_eq!(select.buffer.content, "main");
            assert_eq!(select.buffer.cursor_position, 4);
        }
        other => panic!("{:?}", other),
    }
    assert_eq!(
        app.handle_key_event(key(KeyCode::Enter), 0),
        Action::Run(Command::SetBookmark { name: String::from("main") })
    );
    assert_eq!(app.popup_state, PopupState::Closed);
}

#[test]
fn the_chooser_with_nothing_to_resolve_closes_without_request() {
    let mut app = new_app();
    app.show_bookmark_popup(Vec::new());
    assert_eq!(app.handle_key_event(key(KeyCode::Enter), 0), Action::Idle);
    assert_eq!(app.popup_state, PopupState::Closed);
}

#[test]
fn a_submitted_description_is_handed_over_after_the_popup_closed() {
    let mut app = new_app();
    app.handle_key_event(letter('d'), 0);
    type_into(&mut app, "fix the parser");
    let action = app.handle_key_event(key(KeyCode::Enter), 0);
    assert_eq!(action, Action::Run(Command::Describe { message: String::from("fix the parser") }));
    assert_eq!(app.popup_state, PopupState::Closed);
}

#[test]
fn a_submitted_commit_message_keeps_its_line_breaks() {
    let mut app = new_app();
    app.handle_key_event(letter('c'), 0);
    type_into(&mut app, "title");
    assert_eq!(app.handle_key_event(KeyEvent { code: KeyCode::Enter, alt: true }, 0), Action::Idle);
    type_into(&mut app, "body");
    assert_eq!(
        app.handle_key_event(key(KeyCode::Enter), 0),
        Action::Run(Command::Commit { message: String::from("title\nbody") })
    );
}

#[test]
fn an_empty_description_is_still_handed_over_for_the_engine_to_refuse() {
    let mut app = new_app();
    app.handle_key_event(letter('d'), 0);
    let action = app.handle_key_event(key(KeyCode::Enter), 0);
    assert_eq!(action, Action::Run(Command::Describe { message: String::new() }));
    let command = Command::Describe { message: String::new() };
    let refused = Outcome::Rejected { reason: String::from("Description message cannot be empty") };
    assert_eq!(app.complete(&command, refused, 5), Action::Idle);
    assert_eq!(
        app.popup_state,
        PopupState::Warning { message: String::from("Description message cannot be empty") }
    );
    assert_eq!(app.status_message, None);
}

#[test]
fn a_rebase_goes_to_the_trimmed_text_or_to_the_working_copy() {
    assert_eq!(
        App::execute_popup_callback(PopupCallback::Rebase, String::from("  main  ")),
        Action::Run(Command::Rebase { destination: String::from("main") })
    );
    assert_eq!(
        App::execute_popup_callback(PopupCallback::Rebase, String::from("   ")),
        Action::Run(Command::Rebase { destination: String::from("@") })
    );
    assert_eq!(
        App::execute_popup_callback(PopupCallback::Rebase, String::new()),
        Action::Run(Command::Rebase { destination: String::from("@") })
    );
    assert_eq!(
        App::execute_popup_callback(PopupCallback::Describe, String::from("  keep  ")),
        Action::Run(Command::Describe { message: String::from("  keep  ") })
    );
    assert_eq!(
        App::execute_popup_callback(PopupCallback::Commit, String::from("m")),
        Action::Run(Command::Commit { message: String::from("m") })
    );
}

#[test]
fn an_open_popup_takes_every_key() {
    let mut app = new_app();
    app.refresh_bookmarks(Some(bookmarks(&["main", "dev"])));
    app.show_error(String::from("boom"));
    for code in [KeyCode::Char('q'), KeyCode::Char('2'), KeyCode::Tab, KeyCode::Down, KeyCode::Char('f')] {
        assert_eq!(app.handle_key_event(key(code), 0), Action::Idle);
        assert_eq!(app.popup_state, PopupState::Error { message: String::from("boom") });
        assert_eq!(app.current_tab, Tab::WorkingCopy);
        assert!(!app.should_quit);
        assert_eq!(app.loading_message, None);
    }
    assert_eq!(app.handle_key_event(key(KeyCode::Enter), 0), Action::Idle);
    assert_eq!(app.popup_state, PopupState::Closed);
}

#[test]
fn a_warning_closes_on_enter_and_esc_only() {
    for closer in [KeyCode::Enter, KeyCode::Esc] {
        let mut app = new_app();
        app.show_warning(String::from("careful"));
        assert_eq!(app.handle_key_event(letter('q'), 0), Action::Idle);
        assert!(!app.should_quit);
        assert_eq!(app.popup_state, PopupState::Warning { message: String::from("careful") });
        assert_eq!(app.handle_key_event(key(closer), 0), Action::Idle);
        assert_eq!(app.popup_state, PopupState::Closed);
    }
}

#[test]
fn help_opens_and_closes() {
    for closer in [KeyCode::Char('?'), KeyCode::Char('q'), KeyCode::Esc] {
        let mut app = new_app();
        assert_eq!(app.handle_key_event(letter('?'), 0), Action::Idle);
        assert_eq!(app.popup_state, PopupState::Help);
        assert_eq!(app.handle_key_event(key(KeyCode::Enter), 0), Action::Idle);
        assert_eq!(app.popup_state, PopupState::Help);
        assert_eq!(app.handle_key_event(key(closer), 0), Action::Idle);
        assert_eq!(app.popup_state, PopupState::Closed);
        assert!(!app.should_quit);
    }
}

#[test]
fn closing_a_popup_never_changes_the_tab() {
    let mut app = new_app();
    assert_eq!(app.handle_key_event(letter('2'), 0), Action::RefreshBookmarks);
    app.handle_key_event(letter('r'), 0);
    type_into(&mut app, "123");
    app.handle_key_event(key(KeyCode::Esc), 0);
    assert_eq!(app.current_tab, Tab::Bookmarks);
    assert_eq!(app.previous_tab, Tab::WorkingCopy);
}

#[test]
fn quit_sets_the_flag() {
    let mut app = new_app();
    assert_eq!(app.handle_key_event(letter('q'), 0), Action::Idle);
    assert!(app.should_quit);
}

#[test]
fn tabs_switch_by_number_and_in_a_cycle() {
    let mut app = new_app();
    assert_eq!(app.handle_key_event(letter('1'), 0), Action::Idle);
    assert_eq!(app.current_tab, Tab::WorkingCopy);
    assert_eq!(app.handle_key_event(letter('3'), 0), Action::RefreshLog { limit: 10 });
    assert_eq!(app.current_tab, Tab::Log);
    assert_eq!(app.previous_tab, Tab::WorkingCopy);
    assert_eq!(app.handle_key_event(letter('3'), 0), Action::Idle);
    assert_eq!(app.previous_tab, Tab::WorkingCopy);
    assert_eq!(app.handle_key_event(key(KeyCode::Tab), 0), Action::Idle);
    assert_eq!(app.current_tab, Tab::WorkingCopy);
    assert_eq!(app.previous_tab, Tab::Log);
    assert_eq!(app.handle_key_event(key(KeyCode::Tab), 0), Action::RefreshBookmarks);
    assert_eq!(app.current_tab, Tab::Bookmarks);
    assert_eq!(app.handle_key_event(key(KeyCode::BackTab), 0), Action::Idle);
    assert_eq!(app.current_tab, Tab::WorkingCopy);
    assert_eq!(app.handle_key_event(key(KeyCode::BackTab), 0), Action::RefreshLog { limit: 10 });
    assert_eq!(app.current_tab, Tab::Log);
    assert_eq!(app.switch_to_tab(Tab::Bookmarks), Action::RefreshBookmarks);
    assert_eq!(app.previous_tab, Tab::Log);
}

#[test]
fn two_downs_ten_milliseconds_apart_move_once() {
    let mut app = new_app();
    app.switch_to_tab(Tab::Bookmarks);
    app.refresh_bookmarks(Some(bookmarks(&["a", "b", "c", "d"])));
    assert_eq!(app.handle_key_event(key(KeyCode::Down), 1000), Action::Idle);
    assert_eq!(app.selected_bookmark_index, 1);
    assert_eq!(app.handle_key_event(key(KeyCode::Down), 1010), Action::Idle);
    assert_eq!(app.selected_bookmark_index, 1);
    assert_eq!(app.last_key_event, Some((KeyCode::Down, 1000)));
}

#[test]
fn two_downs_eighty_milliseconds_apart_move_twice() {
    let mut app = new_app();
    app.switch_to_tab(Tab::Bookmarks);
    app.refresh_bookmarks(Some(bookmarks(&["a", "b", "c", "d"])));
    assert_eq!(app.handle_key_event(key(KeyCode::Down), 1000), Action::Idle);
    assert_eq!(app.handle_key_event(key(KeyCode::Down), 1080), Action::Idle);
    assert_eq!(app.selected_bookmark_index, 2);
    assert_eq!(app.last_key_event, Some((KeyCode::Down, 1080)));
}

#[test]
fn the_debounce_window_ends_at_fifty_milliseconds() {
    let mut app = new_app();
    app.switch_to_tab(Tab::Log);
    app.refresh_log(Some(commits(5)));
    app.handle_key_event(letter('j'), 100);
    app.handle_key_event(letter('j'), 149);
    assert_eq!(app.selected_log_index, 1);
    app.handle_key_event(letter('j'), 150);
    assert_eq!(app.selected_log_index, 2);
    app.handle_key_event(letter('k'), 151);
    assert_eq!(app.selected_log_index, 1);
    app.handle_key_event(key(KeyCode::Up), 152);
    assert_eq!(app.selected_log_index, 0);
    assert!(app.should_process_navigation_key(KeyCode::Down, 153));
    assert!(!app.should_process_navigation_key(KeyCode::Down, 160));
    assert!(app.should_process_navigation_key(KeyCode::Down, 203));
}

#[test]
fn navigation_stops_at_both_ends_of_each_list() {
    let mut app = new_app();
    app.switch_to_tab(Tab::Bookmarks);
    app.refresh_bookmarks(Some(bookmarks(&["a", "b"])));
    let mut now: u64 = 0;
    for _ in 0..5 {
        now += 100;
        app.handle_key_event(key(KeyCode::Down), now);
    }
    assert_eq!(app.selected_bookmark_index, 1);
    for _ in 0..5 {
        now += 100;
        app.handle_key_event(key(KeyCode::Up), now);
    }
    assert_eq!(app.selected_bookmark_index, 0);
    app.refresh_bookmarks(Some(Vec::new()));
    now += 100;
    app.handle_key_event(key(KeyCode::Down), now);
    assert_eq!(app.selected_bookmark_index, 0);
}

#[test]
fn moving_in_the_working_copy_asks_for_the_diff_of_the_new_file() {
    let mut app = new_app();
    assert_eq!(
        app.refresh_status(files(&["a.rs", "b.rs", "c.rs"])),
        Action::LoadDiff { path: String::from("a.rs") }
    );
    app.show_diff(String::from("diff of a"));
    app.handle_key_event(letter('J'), 0);
    app.handle_key_event(letter('J'), 0);
    assert_eq!(app.diff_scroll_offset, 2);
    assert_eq!(
        app.handle_key_event(key(KeyCode::Down), 100),
        Action::LoadDiff { path: String::from("b.rs") }
    );
    assert_eq!(app.selected_file_index, 1);
    assert_eq!(app.diff_scroll_offset, 0);
    assert_eq!(
        app.handle_key_event(key(KeyCode::Up), 200),
        Action::LoadDiff { path: String::from("a.rs") }
    );
    assert_eq!(app.selected_file_index, 0);
    assert_eq!(
        app.handle_key_event(key(KeyCode::Up), 300),
        Action::LoadDiff { path: String::from("a.rs") }
    );
}

#[test]
fn moving_in_an_empty_working_copy_shows_no_diff() {
    let mut app = new_app();
    app.show_diff(String::from("stale"));
    assert_eq!(app.handle_key_event(key(KeyCode::Down), 100), Action::Idle);
    assert_eq!(app.current_diff, Some(String::from("stale")));
    assert_eq!(app.handle_key_event(key(KeyCode::Up), 200), Action::Idle);
    assert_eq!(app.current_diff, None);
    assert_eq!(app.update_diff(), Action::Idle);
}

#[test]
fn the_diff_scrolls_in_the_working_copy_only() {
    let mut app = new_app();
    app.handle_key_event(letter('J'), 0);
    assert_eq!(app.diff_scroll_offset, 0);
    app.show_diff(String::from("text"));
    app.handle_key_event(letter('J'), 0);
    app.handle_key_event(letter('J'), 0);
    app.handle_key_event(letter('K'), 0);
    assert_eq!(app.diff_scroll_offset, 1);
    app.handle_key_event(letter('K'), 0);
    app.handle_key_event(letter('K'), 0);
    assert_eq!(app.diff_scroll_offset, 0);
    app.handle_key_event(letter('J'), 0);
    app.switch_to_tab(Tab::Log);
    app.handle_key_event(letter('J'), 0);
    app.handle_key_event(letter('K'), 0);
    assert_eq!(app.diff_scroll_offset, 1);
}

#[test]
fn working_copy_commands_are_bound_in_the_working_copy_only() {
    for c in ['d', 'c', 'n'] {
        let mut app = new_app();
        app.switch_to_tab(Tab::Log);
        assert_eq!(app.handle_key_event(letter(c), 0), Action::Idle);
        assert_eq!(app.popup_state, PopupState::Closed);
    }
    let mut app = new_app();
    assert_eq!(app.handle_key_event(letter('n'), 0), Action::CheckWorkingCopy);
    assert_eq!(app.popup_state, PopupState::Closed);
}

#[test]
fn unbound_keys_change_nothing() {
    let mut app = new_app();
    for code in [KeyCode::Other, KeyCode::Char('z'), KeyCode::Left, KeyCode::Home, KeyCode::Backspace, KeyCode::Esc, KeyCode::Enter] {
        assert_eq!(app.handle_key_event(key(code), 0), Action::Idle);
        assert_eq!(app.popup_state, PopupState::Closed);
        assert_eq!(app.current_tab, Tab::WorkingCopy);
        assert!(!app.should_quit);
    }
}

#[test]
fn every_key_asks_for_a_frame() {
    let mut app = new_app();
    app.needs_redraw = false;
    assert!(!app.wants_redraw());
    app.handle_key_event(key(KeyCode::Other), 0);
    assert!(app.needs_redraw);
    assert!(app.wants_redraw());
}

#[test]
fn enter_on_the_bookmarks_checks_the_selected_one_out() {
    let mut app = new_app();
    assert_eq!(app.handle_key_event(key(KeyCode::Enter), 0), Action::Idle);
    app.switch_to_tab(Tab::Bookmarks);
    assert_eq!(app.handle_key_event(key(KeyCode::Enter), 0), Action::Idle);
    app.refresh_bookmarks(Some(bookmarks(&["main", "dev"])));
    app.handle_key_event(key(KeyCode::Down), 100);
    let action = app.handle_key_event(key(KeyCode::Enter), 200);
    let command = Command::Checkout { name: String::from("dev") };
    assert_eq!(action, Action::Run(command.clone()));
    let done = Outcome::Success { message: String::new() };
    assert_eq!(
        app.complete(&command, done.clone(), 300),
        Action::TrackAndRefresh { bookmark: String::from("dev") }
    );
    assert_eq!(app.status_message, Some(String::from("Checked out bookmark: dev")));
    assert_eq!(app.status_message_timestamp, Some(300));
    app.settings.ui.auto_track_on_checkout = false;
    assert_eq!(app.complete(&command, done, 400), Action::RefreshAll);
}

#[test]
fn fetch_and_push_run_under_the_loading_indicator() {
    let mut app = new_app();
    assert_eq!(app.handle_key_event(letter('f'), 700), Action::Run(Command::Fetch));
    assert_eq!(app.loading_message, Some(String::from("Fetching from remote")));
    assert_eq!(app.loading_start, Some(700));
    assert_eq!(app.get_spinner_char(700 + 85), '\u{2819}');
    app.needs_redraw = false;
    assert!(app.wants_redraw());
    let fetched = Outcome::Success { message: String::from("Fetched from origin\n2 remote bookmarks imported") };
    assert_eq!(app.complete(&Command::Fetch, fetched, 900), Action::RefreshAll);
    assert_eq!(app.loading_message, None);
    assert_eq!(app.loading_start, None);
    assert_eq!(app.get_spinner_char(1000), ' ');
    assert_eq!(app.status_message, Some(String::from("Fetched from remote")));

    assert_eq!(app.handle_key_event(letter('p'), 1000), Action::FindBookmarkToPush);
    assert_eq!(app.loading_message, Some(String::from("Pushing to remote")));
    let push = Command::Push { bookmark: Some(String::from("main")) };
    assert_eq!(app.handle_push(Some(String::from("main"))), Action::Run(push.clone()));
    let failed = Outcome::Failed { cause: String::from("jj git push failed: rejected") };
    assert_eq!(app.complete(&push, failed, 1100), Action::Idle);
    assert_eq!(app.loading_message, None);
    assert_eq!(
        app.popup_state,
        PopupState::Error { message: String::from("Failed to push: jj git push failed: rejected") }
    );
    assert_eq!(app.status_message, Some(String::from("Fetched from remote")));
    assert_eq!(app.handle_push(None), Action::Run(Command::Push { bookmark: None }));
}

#[test]
fn a_failed_fetch_switches_the_indicator_off_and_shows_the_cause() {
    let mut app = new_app();
    app.handle_key_event(letter('f'), 0);
    let failed = Outcome::Failed { cause: String::from("no route to host") };
    assert_eq!(app.complete(&Command::Fetch, failed, 10), Action::Idle);
    assert_eq!(app.loading_message, None);
    assert_eq!(app.loading_start, None);
    assert_eq!(
        app.popup_state,
        PopupState::Error { message: String::from("Failed to fetch: no route to host") }
    );
    assert_eq!(app.status_message, None);
}

#[test]
fn a_new_commit_needs_a_working_copy_with_changes() {
    let mut app = new_app();
    assert_eq!(app.handle_new_commit(Ok(false)), Action::Run(Command::NewCommit));
    assert_eq!(app.popup_state, PopupState::Closed);
    assert_eq!(app.handle_new_commit(Ok(true)), Action::Idle);
    assert_eq!(
        app.popup_state,
        PopupState::Warning { message: String::from("Already on an empty commit. Add changes first.") }
    );
    assert_eq!(app.handle_new_commit(Err(String::from("no jj"))), Action::Idle);
    assert_eq!(
        app.popup_state,
        PopupState::Error { message: String::from("Failed to check working copy: no jj") }
    );
}

#[test]
fn tracking_needs_a_current_bookmark() {
    let mut app = new_app();
    assert_eq!(app.handle_key_event(letter('t'), 0), Action::FindBookmarkToTrack);
    assert_eq!(app.track_current_bookmark(None), Action::Idle);
    assert_eq!(
        app.popup_state,
        PopupState::Warning { message: String::from("No current bookmark to track.") }
    );
    let mut app = new_app();
    let track = Command::Track { name: String::from("main") };
    assert_eq!(app.track_current_bookmark(Some(String::from("main"))), Action::Run(track.clone()));
    assert_eq!(app.popup_state, PopupState::Closed);
    let already = Outcome::Unchanged { message: String::from("Remote bookmark already tracked: main@origin") };
    assert_eq!(app.complete(&track, already, 0), Action::Idle);
    assert_eq!(
        app.popup_state,
        PopupState::Warning { message: String::from("Remote bookmark already tracked: main@origin") }
    );
    let mut app = new_app();
    let done = Outcome::Success { message: String::from("Started tracking 1 remote bookmarks.") };
    assert_eq!(app.complete(&track, done, 0), Action::RefreshAll);
    assert_eq!(app.status_message, Some(String::from("Tracking bookmark: main")));
}

#[test]
fn refresh_and_restore_are_asked_of_the_host() {
    let mut app = new_app();
    assert_eq!(app.handle_key_event(letter('R'), 0), Action::Run(Command::Refresh));
    let done = Outcome::Success { message: String::new() };
    assert_eq!(app.complete(&Command::Refresh, done.clone(), 10), Action::Idle);
    assert_eq!(app.status_message, Some(String::from("Refreshed")));
    assert_eq!(app.handle_key_event(letter('X'), 20), Action::Run(Command::Restore));
    assert_eq!(app.complete(&Command::Restore, done, 30), Action::RefreshAll);
    assert_eq!(app.status_message, Some(String::from("Restored working copy")));
    let failed = Outcome::Failed { cause: String::from("jj restore failed: x") };
    assert_eq!(app.complete(&Command::Restore, failed, 40), Action::Idle);
    assert_eq!(
        app.popup_state,
        PopupState::Error { message: String::from("Failed to restore working copy: jj restore failed: x") }
    );
    assert_eq!(app.status_message, Some(String::from("Restored working copy")));
}

#[test]
fn every_command_has_its_messages() {
    let cases: Vec<(Command, &str, &str)> = vec![
        (Command::Describe { message: String::from("m") }, "Description updated", "Failed to describe: x"),
        (Command::Commit { message: String::from("m") }, "Committed successfully", "Failed to commit: x"),
        (Command::Rebase { destination: String::from("main") }, "Rebased to main", "Failed to rebase: x"),
        (Command::SetBookmark { name: String::from("b") }, "Set bookmark: b", "Failed to set bookmark: x"),
        (Command::Checkout { name: String::from("b") }, "Checked out bookmark: b", "Failed to checkout bookmark: x"),
        (Command::NewCommit, "Created new commit", "Failed to create new commit: x"),
        (Command::Fetch, "Fetched from remote", "Failed to fetch: x"),
        (Command::Push { bookmark: Some(String::from("b")) }, "Pushed bookmark: b", "Failed to push: x"),
        (Command::Push { bookmark: None }, "Pushed current change (created temporary bookmark)", "Failed to push: x"),
        (Command::Track { name: String::from("b") }, "Tracking bookmark: b", "Failed to track bookmark: x"),
        (Command::Restore, "Restored working copy", "Failed to restore working copy: x"),
        (Command::Refresh, "Refreshed", "Failed to refresh: x"),
    ];
    for (command, success, failure) in cases {
        assert_eq!(command.success_message(), success);
        assert_eq!(command.failure_message("x"), failure);
        assert_eq!(command.shows_loading(), matches!(command, Command::Fetch | Command::Push { .. }));
        let expected = match &command {
            Command::Refresh => Action::Idle,
            Command::Checkout { name } => Action::TrackAndRefresh { bookmark: name.clone() },
            _ => Action::RefreshAll,
        };
        assert_eq!(command.follow_up(true), expected);
    }
}

#[test]
fn a_status_message_lives_for_two_seconds() {
    let mut app = new_app();
    let set: u64 = 50_000;
    app.set_status_message(String::from("Refreshed"), set);
    app.needs_redraw = false;
    app.update_status_message_timeout(set + 1);
    app.update_status_message_timeout(set + 1999);
    assert_eq!(app.status_message, Some(String::from("Refreshed")));
    assert_eq!(app.status_message_timestamp, Some(set));
    assert!(!app.needs_redraw);
    app.update_status_message_timeout(set + 2001);
    assert_eq!(app.status_message, None);
    assert_eq!(app.status_message_timestamp, None);
    assert!(app.needs_redraw);
    app.update_status_message_timeout(set + 5000);
    assert_eq!(app.status_message, None);
}

#[test]
fn a_status_message_is_gone_at_exactly_its_time_to_live() {
    let mut app = new_app();
    app.set_status_message(String::from("x"), 0);
    app.update_status_message_timeout(2000);
    assert_eq!(app.status_message, None);
    app.set_status_message(String::from("y"), 10);
    app.clear_status_message();
    assert_eq!(app.status_message, None);
    assert_eq!(app.status_message_timestamp, None);
}

#[test]
fn the_loading_indicator_has_no_time_to_live() {
    let mut app = new_app();
    app.show_loading(String::from("Pushing to remote"), 0);
    app.update_status_message_timeout(1_000_000);
    assert_eq!(app.loading_message, Some(String::from("Pushing to remote")));
    assert_eq!(app.loading_start, Some(0));
    app.clear_loading();
    assert_eq!(app.loading_message, None);
    assert_eq!(app.loading_start, None);
}

#[test]
fn a_refresh_leaves_every_selection_inside_its_list() {
    for len in [0usize, 1, 2, 5] {
        for start in [0usize, 1, 4, 9] {
            let mut app = new_app();
            app.selected_file_index = start;
            app.selected_bookmark_index = start;
            app.selected_log_index = start;
            let names: Vec<String> = (0..len).map(|i| format!("item{}", i)).collect();
            let refs: Vec<&str> = names.iter().map(|n| n.as_str()).collect();
            let action = app.refresh_all(files(&refs), Some(bookmarks(&refs)), Some(commits(len)));
            assert_eq!(app.files.len(), len);
            assert_eq!(app.bookmarks.len(), len);
            assert_eq!(app.log_commits.len(), len);
            assert_eq!(app.selected_file_index, 0);
            let expected = if len == 0 { 0 } else { start.min(len - 1) };
            assert_eq!(app.selected_bookmark_index, expected);
            assert_eq!(app.selected_log_index, expected);
            if len == 0 {
                assert_eq!(action, Action::Idle);
                assert_eq!(app.current_diff, None);
            } else {
                assert_eq!(action, Action::LoadDiff { path: String::from("item0") });
            }
            assert!(app.needs_redraw);
        }
    }
}

#[test]
fn a_failed_listing_keeps_the_cached_list() {
    let mut app = new_app();
    app.refresh_bookmarks(Some(bookmarks(&["main", "dev"])));
    app.refresh_log(Some(commits(3)));
    app.selected_bookmark_index = 1;
    app.selected_log_index = 2;
    app.needs_redraw = false;
    app.refresh_bookmarks(None);
    app.refresh_log(None);
    assert_eq!(app.bookmarks.len(), 2);
    assert_eq!(app.log_commits.len(), 3);
    assert_eq!(app.selected_bookmark_index, 1);
    assert_eq!(app.selected_log_index, 2);
    assert!(!app.needs_redraw);
}

#[test]
fn a_status_refresh_resets_file_selection_and_scroll() {
    let mut app = new_app();
    app.refresh_status(files(&["a", "b", "c"]));
    app.show_diff(String::from("d"));
    app.handle_key_event(key(KeyCode::Down), 100);
    app.handle_key_event(key(KeyCode::Down), 200);
    app.handle_key_event(letter('J'), 300);
    assert_eq!(app.selected_file_index, 2);
    assert_eq!(app.diff_scroll_offset, 1);
    assert_eq!(app.refresh_status(files(&["x", "y", "z"])), Action::LoadDiff { path: String::from("x") });
    assert_eq!(app.selected_file_index, 0);
    assert_eq!(app.diff_scroll_offset, 0);
    assert_eq!(app.refresh_status(Vec::new()), Action::Idle);
    assert_eq!(app.current_diff, None);
}

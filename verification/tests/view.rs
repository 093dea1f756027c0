use std::path::PathBuf;

use jjkk::app::App;
use jjkk::buffer::TextBuffer;
use jjkk::jj::operations::BookmarkInfo;
use jjkk::jj::repo::JjRepo;
use jjkk::popup::FeedbackType;
use jjkk::settings::Settings;
use jjkk::tab::Tab;
use jjkk::text::starts_with;
use jjkk::view::{
    bookmark_row, classify_diff_line, cursor_cell, diff_title, diff_window, status_bar_kind,
    status_bar_text, text_with_cursor, DiffLineKind, DiffWindow, StatusKind, CURSOR_MARK, KEY_HINTS,
};

#[test]
fn starts_with_compares_the_first_characters() {
    assert!(starts_with("+++ b/file", "+++"));
    assert!(starts_with("abc", ""));
    assert!(starts_with("", ""));
    assert!(starts_with("abc", "abc"));
    assert!(!starts_with("ab", "abc"));
    assert!(!starts_with("xbc", "abc"));
    assert!(starts_with("\u{e9}t\u{e9}", "\u{e9}t"));
}

#[test]
fn diff_lines_are_told_apart_by_how_they_begin() {
    assert_eq!(classify_diff_line("+++ b/src/main.rs"), DiffLineKind::FileHeader);
    assert_eq!(classify_diff_line("--- a/src/main.rs"), DiffLineKind::FileHeader);
    assert_eq!(classify_diff_line("@@ -1,3 +1,4 @@"), DiffLineKind::HunkHeader);
    assert_eq!(classify_diff_line("diff --git a/x b/x"), DiffLineKind::DiffHeader);
    assert_eq!(classify_diff_line("index 0123..4567 100644"), DiffLineKind::DiffHeader);
    assert_eq!(classify_diff_line("+added"), DiffLineKind::Added);
    assert_eq!(classify_diff_line("++"), DiffLineKind::Added);
    assert_eq!(classify_diff_line("-removed"), DiffLineKind::Removed);
    assert_eq!(classify_diff_line("--"), DiffLineKind::Removed);
    assert_eq!(classify_diff_line(" context"), DiffLineKind::Context);
    assert_eq!(classify_diff_line(""), DiffLineKind::Context);
    assert_eq!(classify_diff_line("differ"), DiffLineKind::Context);
    assert_eq!(classify_diff_line("@ one"), DiffLineKind::Context);
}

#[test]
fn the_diff_window_stops_at_the_end_of_the_diff() {
    assert_eq!(diff_window(100, 20, 0), DiffWindow { offset: 0, count: 20, max_scroll: 80 });
    assert_eq!(diff_window(100, 20, 35), DiffWindow { offset: 35, count: 20, max_scroll: 80 });
    assert_eq!(diff_window(100, 20, 80), DiffWindow { offset: 80, count: 20, max_scroll: 80 });
    assert_eq!(diff_window(100, 20, 500), DiffWindow { offset: 80, count: 20, max_scroll: 80 });
    assert_eq!(diff_window(5, 20, 3), DiffWindow { offset: 0, count: 5, max_scroll: 0 });
    assert_eq!(diff_window(0, 20, 3), DiffWindow { offset: 0, count: 0, max_scroll: 0 });
    assert_eq!(diff_window(7, 0, 3), DiffWindow { offset: 3, count: 0, max_scroll: 7 });
    assert_eq!(diff_window(20, 20, 1), DiffWindow { offset: 0, count: 20, max_scroll: 0 });
}

#[test]
fn the_diff_title_tells_how_far_the_diff_is_scrolled() {
    assert_eq!(diff_title(true, diff_window(100, 20, 35)), "Diff (Shift+J/K to scroll, 35/80)");
    assert_eq!(diff_title(true, diff_window(5, 20, 0)), "Diff");
    assert_eq!(diff_title(false, diff_window(100, 20, 35)), "Diff");
}

#[test]
fn the_cursor_is_marked_where_it_stands() {
    assert_eq!(CURSOR_MARK, '\u{2588}');
    assert_eq!(text_with_cursor(&TextBuffer::new()), "\u{2588}");
    let mut buffer = TextBuffer::with_text(String::from("m\u{e9}in"));
    assert_eq!(text_with_cursor(&buffer), "m\u{e9}in\u{2588}");
    buffer.move_left();
    buffer.move_left();
    assert_eq!(text_with_cursor(&buffer), "m\u{e9}\u{2588}in");
    buffer.move_home();
    assert_eq!(text_with_cursor(&buffer), "\u{2588}m\u{e9}in");
    let beyond = TextBuffer { content: String::from("ab"), cursor_position: 7 };
    assert_eq!(text_with_cursor(&beyond), "ab\u{2588}");
}

#[test]
fn the_cursor_has_a_line_and_a_column() {
    let mut buffer = TextBuffer::with_text(String::from("one\ntw\u{f6}\n\nfour"));
    assert_eq!(cursor_cell(&buffer), (3, 4));
    buffer.move_home();
    assert_eq!(cursor_cell(&buffer), (0, 0));
    for _ in 0..3 {
        buffer.move_right();
    }
    assert_eq!(cursor_cell(&buffer), (0, 3));
    buffer.move_right();
    assert_eq!(cursor_cell(&buffer), (1, 0));
    for _ in 0..3 {
        buffer.move_right();
    }
    assert_eq!(cursor_cell(&buffer), (1, 3));
    buffer.move_right();
    assert_eq!(cursor_cell(&buffer), (2, 0));
    buffer.move_right();
    assert_eq!(cursor_cell(&buffer), (3, 0));
    assert_eq!(cursor_cell(&TextBuffer::new()), (0, 0));
    let beyond = TextBuffer { content: String::from("a\nb"), cursor_position: 9 };
    assert_eq!(cursor_cell(&beyond), (1, 1));
}

#[test]
fn the_current_bookmark_gets_a_star() {
    let current = BookmarkInfo { name: String::from("main"), is_current: true };
    let other = BookmarkInfo { name: String::from("dev"), is_current: false };
    assert_eq!(bookmark_row(&current), "* main");
    assert_eq!(bookmark_row(&other), "  dev");
}

#[test]
fn the_status_bar_shows_loading_before_message_before_hints() {
    let mut app = App::new(Settings::default(), JjRepo::open(None, PathBuf::from(".")));
    assert_eq!(status_bar_kind(&app), StatusKind::Hints);
    assert_eq!(status_bar_text(&app, 0), KEY_HINTS);
    assert_eq!(
        KEY_HINTS,
        "q: quit | hjkl: navigate | f: fetch | p: push | r: rebase  | d: describe | b: bookmark | X: restore | R: refresh"
    );
    app.set_status_message(String::from("Refreshed"), 100);
    assert_eq!(status_bar_kind(&app), StatusKind::Message);
    assert_eq!(status_bar_text(&app, 150), "\u{2713} Refreshed");
    app.show_loading(String::from("Pushing to remote"), 200);
    assert_eq!(status_bar_kind(&app), StatusKind::Loading);
    assert_eq!(status_bar_text(&app, 200), "\u{280b} Pushing to remote");
    assert_eq!(status_bar_text(&app, 200 + 160), "\u{2839} Pushing to remote");
    app.clear_loading();
    assert_eq!(status_bar_text(&app, 400), "\u{2713} Refreshed");
}

#[test]
fn popups_and_tabs_have_their_titles() {
    assert_eq!(FeedbackType::Warning.title(), "Warning");
    assert_eq!(FeedbackType::Error.title(), "Error");
    assert_eq!(Tab::WorkingCopy.title(), "1: Working Copy");
    assert_eq!(Tab::Bookmarks.title(), "2: Bookmarks");
    assert_eq!(Tab::Log.title(), "3: Log");
    assert_eq!(Tab::WorkingCopy.index(), 0);
    assert_eq!(Tab::Bookmarks.index(), 1);
    assert_eq!(Tab::Log.index(), 2);
}

use jjkk::buffer::TextBuffer;
use jjkk::jj::operations::BookmarkInfo;
use jjkk::key::{KeyCode, KeyEvent};
use jjkk::popup::{
    filter_bookmarks, matches_filter, BookmarkSelect, FeedbackType, PopupCallback, PopupOutcome,
    PopupState, TextInput,
};

fn candidates(names: &[&str]) -> Vec<BookmarkInfo> {
    names.iter().map(|n| BookmarkInfo { name: String::from(*n), is_current: false }).collect()
}

fn press(select: &mut BookmarkSelect, code: KeyCode) -> PopupOutcome {
    select.handle_key(code)
}

fn type_text(select: &mut BookmarkSelect, text: &str) {
    for c in text.chars() {
        assert_eq!(select.handle_key(KeyCode::Char(c)), PopupOutcome::Open);
    }
}

#[test]
fn filter_keeps_matching_candidates_in_order() {
    let list = candidates(&["main", "main-2", "dev"]);
    assert_eq!(filter_bookmarks(&list, "main"), vec![0usize, 1]);
    assert_eq!(filter_bookmarks(&list, ""), vec![0usize, 1, 2]);
    assert_eq!(filter_bookmarks(&list, "dev"), vec![2usize]);
    assert_eq!(filter_bookmarks(&list, "-"), vec![1usize]);
    assert_eq!(filter_bookmarks(&list, "zzz"), Vec::<usize>::new());
    assert_eq!(filter_bookmarks(&Vec::new(), "main"), Vec::<usize>::new());
}

#[test]
fn filter_sets_letter_case_aside() {
    assert!(matches_filter("Main", "MAIN"));
    assert!(matches_filter("feature/LOGIN", "login"));
    assert!(matches_filter("\u{c9}cole", "\u{e9}co"));
    assert!(!matches_filter("main", "mian"));
    assert!(matches_filter("anything", ""));
    let list = candidates(&["Main", "MAIN-2", "dev"]);
    assert_eq!(filter_bookmarks(&list, "mAiN"), vec![0usize, 1]);
}

#[test]
fn tab_completes_the_highlighted_candidate() {
    let mut select = BookmarkSelect::new(candidates(&["main", "main-2", "dev"]));
    type_text(&mut select, "main");
    assert_eq!(select.filtered(), vec![0usize, 1]);
    assert_eq!(select.selected_index, 0);
    assert_eq!(press(&mut select, KeyCode::Tab), PopupOutcome::Open);
    assert_eq!(select.buffer.content, "main");
    assert_eq!(select.buffer.cursor_position, 4);
    assert_eq!(select.selected_index, 0);
}

#[test]
fn tab_on_the_second_row_takes_its_name_and_resets_the_highlight() {
    let mut select = BookmarkSelect::new(candidates(&["main", "main-2", "dev"]));
    type_text(&mut select, "ma");
    assert_eq!(press(&mut select, KeyCode::Down), PopupOutcome::Open);
    assert_eq!(select.selected_index, 1);
    assert_eq!(press(&mut select, KeyCode::Tab), PopupOutcome::Open);
    assert_eq!(select.buffer.content, "main-2");
    assert_eq!(select.buffer.cursor_position, 6);
    assert_eq!(select.selected_index, 0);
    assert_eq!(select.filtered(), vec![1usize]);
    assert_eq!(press(&mut select, KeyCode::Enter), PopupOutcome::Submitted(String::from("main-2")));
}

#[test]
fn tab_without_a_match_changes_nothing() {
    let mut select = BookmarkSelect::new(candidates(&["main", "dev"]));
    type_text(&mut select, "zz");
    assert_eq!(press(&mut select, KeyCode::Tab), PopupOutcome::Open);
    assert_eq!(select.buffer.content, "zz");
    assert_eq!(select.buffer.cursor_position, 2);
}

#[test]
fn highlight_moves_within_the_filtered_list() {
    let mut select = BookmarkSelect::new(candidates(&["main", "main-2", "dev", "maintenance"]));
    type_text(&mut select, "main");
    assert_eq!(select.filtered(), vec![0usize, 1, 3]);
    press(&mut select, KeyCode::Up);
    assert_eq!(select.selected_index, 0);
    press(&mut select, KeyCode::Down);
    press(&mut select, KeyCode::Down);
    assert_eq!(select.selected_index, 2);
    press(&mut select, KeyCode::Down);
    assert_eq!(select.selected_index, 2);
    assert_eq!(
        press(&mut select, KeyCode::Enter),
        PopupOutcome::Submitted(String::from("maintenance"))
    );
    press(&mut select, KeyCode::Up);
    assert_eq!(select.selected_index, 1);
}

#[test]
fn the_letters_j_and_k_move_the_highlight() {
    let mut select = BookmarkSelect::new(candidates(&["main", "dev"]));
    press(&mut select, KeyCode::Char('j'));
    assert_eq!(select.selected_index, 1);
    assert_eq!(select.buffer.content, "");
    press(&mut select, KeyCode::Char('k'));
    assert_eq!(select.selected_index, 0);
    assert_eq!(select.buffer.content, "");
}

#[test]
fn typing_and_deleting_reset_the_highlight() {
    let mut select = BookmarkSelect::new(candidates(&["main", "main-2", "dev"]));
    press(&mut select, KeyCode::Down);
    press(&mut select, KeyCode::Down);
    assert_eq!(select.selected_index, 2);
    press(&mut select, KeyCode::Char('m'));
    assert_eq!(select.selected_index, 0);
    press(&mut select, KeyCode::Down);
    assert_eq!(select.selected_index, 1);
    press(&mut select, KeyCode::Backspace);
    assert_eq!(select.selected_index, 0);
    assert_eq!(select.buffer.content, "");
    press(&mut select, KeyCode::Down);
    press(&mut select, KeyCode::Backspace);
    assert_eq!(select.selected_index, 1);
}

#[test]
fn enter_resolves_candidate_then_text_then_nothing() {
    let mut select = BookmarkSelect::new(candidates(&["main", "dev"]));
    assert_eq!(press(&mut select, KeyCode::Enter), PopupOutcome::Submitted(String::from("main")));
    type_text(&mut select, "new-one");
    assert_eq!(select.filtered(), Vec::<usize>::new());
    assert_eq!(
        press(&mut select, KeyCode::Enter),
        PopupOutcome::Submitted(String::from("new-one"))
    );
    let mut empty = BookmarkSelect::new(Vec::new());
    assert_eq!(press(&mut empty, KeyCode::Enter), PopupOutcome::Closed);
    assert_eq!(empty.resolve(), None);
}

#[test]
fn esc_closes_the_chooser_whatever_it_holds() {
    let mut select = BookmarkSelect::new(candidates(&["main", "dev"]));
    type_text(&mut select, "ma");
    press(&mut select, KeyCode::Down);
    assert_eq!(press(&mut select, KeyCode::Esc), PopupOutcome::Closed);
    let mut empty = BookmarkSelect::new(Vec::new());
    assert_eq!(press(&mut empty, KeyCode::Esc), PopupOutcome::Closed);
}

#[test]
fn chooser_cursor_keys_edit_in_the_middle() {
    let mut select = BookmarkSelect::new(candidates(&["main"]));
    type_text(&mut select, "mn");
    press(&mut select, KeyCode::Left);
    type_text(&mut select, "ai");
    assert_eq!(select.buffer.content, "main");
    press(&mut select, KeyCode::Home);
    assert_eq!(select.buffer.cursor_position, 0);
    press(&mut select, KeyCode::End);
    assert_eq!(select.buffer.cursor_position, 4);
    press(&mut select, KeyCode::Right);
    assert_eq!(select.buffer.cursor_position, 4);
    assert_eq!(press(&mut select, KeyCode::Other), PopupOutcome::Open);
    assert_eq!(select.buffer.content, "main");
}

#[test]
fn input_submits_on_enter_and_breaks_the_line_with_the_modifier() {
    let mut input = TextInput::new("Describe", PopupCallback::Describe);
    assert_eq!(input.title, "Describe");
    for c in "first".chars() {
        assert_eq!(input.handle_key(KeyEvent::plain(KeyCode::Char(c))), PopupOutcome::Open);
    }
    assert_eq!(
        input.handle_key(KeyEvent { code: KeyCode::Enter, alt: true }),
        PopupOutcome::Open
    );
    for c in "second".chars() {
        input.handle_key(KeyEvent::plain(KeyCode::Char(c)));
    }
    assert_eq!(input.buffer.content, "first\nsecond");
    assert_eq!(
        input.handle_key(KeyEvent::plain(KeyCode::Enter)),
        PopupOutcome::Submitted(String::from("first\nsecond"))
    );
}

#[test]
fn input_esc_discards_whatever_was_typed() {
    let mut input = TextInput::new("Commit", PopupCallback::Commit);
    assert_eq!(input.handle_key(KeyEvent::plain(KeyCode::Esc)), PopupOutcome::Closed);
    for c in "some text \u{e9}".chars() {
        input.handle_key(KeyEvent::plain(KeyCode::Char(c)));
    }
    assert_eq!(input.handle_key(KeyEvent::plain(KeyCode::Esc)), PopupOutcome::Closed);
    assert_eq!(
        input.handle_key(KeyEvent { code: KeyCode::Esc, alt: true }),
        PopupOutcome::Closed
    );
}

#[test]
fn input_edits_with_a_character_cursor() {
    let mut input = TextInput::new("Describe", PopupCallback::Describe);
    for c in "h\u{e9}llo".chars() {
        input.handle_key(KeyEvent::plain(KeyCode::Char(c)));
    }
    input.handle_key(KeyEvent::plain(KeyCode::Home));
    input.handle_key(KeyEvent::plain(KeyCode::Right));
    input.handle_key(KeyEvent::plain(KeyCode::Right));
    input.handle_key(KeyEvent::plain(KeyCode::Backspace));
    assert_eq!(input.buffer.content, "hllo");
    assert_eq!(input.buffer.cursor_position, 1);
    input.handle_key(KeyEvent::plain(KeyCode::End));
    input.handle_key(KeyEvent::plain(KeyCode::Left));
    input.handle_key(KeyEvent::plain(KeyCode::Char('!')));
    assert_eq!(input.buffer.content, "hll!o");
    assert_eq!(input.handle_key(KeyEvent::plain(KeyCode::Up)), PopupOutcome::Open);
    assert_eq!(input.handle_key(KeyEvent::plain(KeyCode::Tab)), PopupOutcome::Open);
    assert_eq!(input.buffer.content, "hll!o");
}

#[test]
fn feedback_tells_warnings_from_errors() {
    let error = PopupState::Error { message: String::from("boom") };
    let warning = PopupState::Warning { message: String::from("careful") };
    assert_eq!(error.feedback(), Some((FeedbackType::Error, &String::from("boom"))));
    assert_eq!(warning.feedback(), Some((FeedbackType::Warning, &String::from("careful"))));
    assert_eq!(PopupState::Help.feedback(), None);
    assert_eq!(PopupState::Closed.feedback(), None);
    let input = PopupState::Input(TextInput {
        title: String::from("t"),
        buffer: TextBuffer::new(),
        callback: PopupCallback::Rebase,
    });
    assert_eq!(input.feedback(), None);
}

//! What a frame shows of the state, as plain values: the status bar, the
//! window of the diff, the kinds of its lines, and the marks of cursor and
//! current bookmark. Drawing them is the host's part.

use vstd::prelude::*;
use vstd::string::*;
use crate::app::{App, AppView};
use crate::buffer::{BufferView, TextBuffer};
use crate::feedback::{spinner_at, spinner_char};
use crate::jj::operations::{BookmarkInfo, BookmarkView};
use crate::text::{
    chars_of,
    decimal,
    decimal_digits,
    has_prefix,
    joined,
    push_char,
    starts_with,
};

verus! {

/// What a line of a diff is.
#[derive(Debug, Clone, Copy, PartialEq, Eq, Structural)]
pub enum DiffLineKind {
    /// The old or the new name of a file.
    FileHeader,
    /// The line ranges of a hunk.
    HunkHeader,
    /// The first lines of the diff of one file.
    DiffHeader,
    Added,
    Removed,
    Context,
}

/// The kind of a line of a diff, by how the line begins. The longer marks
/// are tried first, so that the name of a file is not taken for a changed
/// line.
pub open spec fn diff_line_kind(line: Seq<char>) -> DiffLineKind {
    if has_prefix(line, "+++"@) || has_prefix(line, "---"@) {
        DiffLineKind::FileHeader
    } else if has_prefix(line, "@@"@) {
        DiffLineKind::HunkHeader
    } else if has_prefix(line, "diff "@) || has_prefix(line, "index "@) {
        DiffLineKind::DiffHeader
    } else if has_prefix(line, "+"@) {
        DiffLineKind::Added
    } else if has_prefix(line, "-"@) {
        DiffLineKind::Removed
    } else {
        DiffLineKind::Context
    }
}

/// The kind of a line of a diff.
pub fn classify_diff_line(line: &str) -> (kind: DiffLineKind)
    ensures
        kind == diff_line_kind(line@),
{
    if starts_with(line, "+++") || starts_with(line, "---") {
        DiffLineKind::FileHeader
    } else if starts_with(line, "@@") {
        DiffLineKind::HunkHeader
    } else if starts_with(line, "diff ") || starts_with(line, "index ") {
        DiffLineKind::DiffHeader
    } else if starts_with(line, "+") {
        DiffLineKind::Added
    } else if starts_with(line, "-") {
        DiffLineKind::Removed
    } else {
        DiffLineKind::Context
    }
}

/// The part of a diff that fits on the screen.
#[derive(Debug, Clone, Copy, PartialEq, Eq, Structural)]
pub struct DiffWindow {
    /// The first line that is shown.
    pub offset: usize,
    /// How many lines are shown.
    pub count: usize,
    /// The largest offset that still fills the screen.
    pub max_scroll: usize,
}

/// The window on a diff of `total` lines for a screen of `height` lines,
/// scrolled by `scroll`: the scroll stops where the last line of the diff
/// reaches the bottom of the screen.
pub open spec fn window_of(total: usize, height: usize, scroll: usize) -> DiffWindow {
    let max_scroll = if total > height {
        (total - height) as usize
    } else {
        0
    };
    let offset = if scroll < max_scroll {
        scroll
    } else {
        max_scroll
    };
    let count = if total - offset < height {
        (total - offset) as usize
    } else {
        height
    };
    DiffWindow { offset, count, max_scroll }
}

/// The window on a diff of `total` lines for a screen of `height` lines.
pub fn diff_window(total: usize, height: usize, scroll: usize) -> (window: DiffWindow)
    ensures
        window == window_of(total, height, scroll),
        window.offset + window.count <= total,
        window.count <= height,
{
    let max_scroll = if total > height {
        total - height
    } else {
        0
    };
    let offset = if scroll < max_scroll {
        scroll
    } else {
        max_scroll
    };
    let count = if total - offset < height {
        total - offset
    } else {
        height
    };
    DiffWindow { offset, count, max_scroll }
}

/// The title of the diff: where a diff is shown that does not fit on the
/// screen, it tells how far the diff is scrolled.
pub open spec fn diff_title_text(shown: bool, window: DiffWindow) -> Seq<char> {
    if shown && window.max_scroll > 0 {
        "Diff (Shift+J/K to scroll, "@ + decimal_digits(window.offset as nat) + "/"@
            + decimal_digits(window.max_scroll as nat) + ")"@
    } else {
        "Diff"@
    }
}

/// The title of the diff.
pub fn diff_title(shown: bool, window: DiffWindow) -> (title: String)
    ensures
        title@ == diff_title_text(shown, window),
{
    if shown && window.max_scroll > 0 {
        let offset = decimal(window.offset);
        let max = decimal(window.max_scroll);
        let scrolled = joined("Diff (Shift+J/K to scroll, ", offset.as_str());
        let of = joined(scrolled.as_str(), "/");
        let both = joined(of.as_str(), max.as_str());
        joined(both.as_str(), ")")
    } else {
        String::from_str("Diff")
    }
}

/// The block that marks the cursor in a line of text.
pub const CURSOR_MARK: char = '\u{2588}';

/// The text of a buffer with the cursor marked in it.
pub open spec fn marked_text(buffer: BufferView) -> Seq<char> {
    buffer.content.insert(buffer.position() as int, CURSOR_MARK)
}

/// The text of a buffer with a block where the cursor stands.
pub fn text_with_cursor(buffer: &TextBuffer) -> (text: String)
    ensures
        text@ == marked_text(buffer@),
{
    let n = buffer.content.as_str().unicode_len();
    let p = if buffer.cursor_position <= n {
        buffer.cursor_position
    } else {
        n
    };
    let mut text = String::from_str(buffer.content.as_str().substring_char(0, p));
    push_char(&mut text, CURSOR_MARK);
    text.append(buffer.content.as_str().substring_char(p, n));
    assert(text@ =~= marked_text(buffer@));
    text
}

/// The line and the column of position `p` in a text: the line feeds before
/// the position count the lines, the characters since the last of them the
/// columns.
pub open spec fn cell_of(text: Seq<char>, p: nat) -> (nat, nat)
    decreases p,
{
    if p == 0 || p > text.len() {
        (0, 0)
    } else {
        let before = cell_of(text, (p - 1) as nat);
        if text[p - 1] == '\n' {
            (before.0 + 1, 0)
        } else {
            (before.0, before.1 + 1)
        }
    }
}

/// The line and the column of the cursor of a buffer, both counted from
/// zero.
pub fn cursor_cell(buffer: &TextBuffer) -> (cell: (usize, usize))
    ensures
        (cell.0 as nat, cell.1 as nat) == cell_of(buffer@.content, buffer@.position()),
{
    let chars = chars_of(buffer.content.as_str());
    let p = if buffer.cursor_position <= chars.len() {
        buffer.cursor_position
    } else {
        chars.len()
    };
    let mut row: usize = 0;
    let mut column: usize = 0;
    let mut i: usize = 0;
    while i < p
        invariant
            i <= p <= chars.len(),
            chars@ == buffer@.content,
            row <= i,
            column <= i,
            (row as nat, column as nat) == cell_of(buffer@.content, i as nat),
        decreases p - i,
    {
        if chars[i] == '\n' {
            row = row + 1;
            column = 0;
        } else {
            column = column + 1;
        }
        i += 1;
    }
    (row, column)
}

/// A row of a list of bookmarks: the name, after a star for the current
/// bookmark and after as much space for every other.
pub open spec fn bookmark_row_text(bookmark: BookmarkView) -> Seq<char> {
    if bookmark.is_current {
        "* "@ + bookmark.name
    } else {
        "  "@ + bookmark.name
    }
}

/// A row of a list of bookmarks.
pub fn bookmark_row(bookmark: &BookmarkInfo) -> (row: String)
    ensures
        row@ == bookmark_row_text(bookmark@),
{
    if bookmark.is_current {
        joined("* ", bookmark.name.as_str())
    } else {
        joined("  ", bookmark.name.as_str())
    }
}

/// What the status bar shows.
#[derive(Debug, Clone, Copy, PartialEq, Eq, Structural)]
pub enum StatusKind {
    /// Something is loading.
    Loading,
    /// The last command succeeded.
    Message,
    /// Nothing to report: the key bindings.
    Hints,
}

/// The key bindings that the status bar shows while there is nothing to
/// report.
pub const KEY_HINTS: &'static str =
    "q: quit | hjkl: navigate | f: fetch | p: push | r: rebase  | d: describe | b: bookmark | X: restore | R: refresh";

/// What the status bar shows: the loading indicator before the status
/// message, and the key bindings where there is neither.
pub open spec fn status_kind(app: AppView) -> StatusKind {
    if app.loading_message is Some {
        StatusKind::Loading
    } else if app.status_message is Some {
        StatusKind::Message
    } else {
        StatusKind::Hints
    }
}

/// The text of the status bar at the time `now`: the loading message
/// behind the glyph of the animation, or the status message behind a check
/// mark, or the key bindings.
pub open spec fn status_text(app: AppView, now: u64) -> Seq<char> {
    match app.loading_message {
        Some(loading) => seq![spinner_at(app.loading_start, now), ' '] + loading,
        None => match app.status_message {
            Some(message) => "\u{2713} "@ + message,
            None => KEY_HINTS@,
        },
    }
}

/// What the status bar shows.
pub fn status_bar_kind(app: &App) -> (kind: StatusKind)
    ensures
        kind == status_kind(app@),
{
    if app.loading_message.is_some() {
        StatusKind::Loading
    } else if app.status_message.is_some() {
        StatusKind::Message
    } else {
        StatusKind::Hints
    }
}

/// The text of the status bar at the time `now`.
pub fn status_bar_text(app: &App, now: u64) -> (text: String)
    ensures
        text@ == status_text(app@, now),
{
    match &app.loading_message {
        Some(loading) => {
            let mut text = String::new();
            push_char(&mut text, spinner_char(app.loading_start, now));
            push_char(&mut text, ' ');
            text.append(loading.as_str());
            assert(text@ =~= seq![spinner_at(app@.loading_start, now), ' '] + loading@);
            text
        },
        None => match &app.status_message {
            Some(message) => joined("\u{2713} ", message.as_str()),
            None => String::from_str(KEY_HINTS),
        },
    }
}

/// The window of a diff never reaches beyond the diff, shows a full screen
/// wherever the diff is long enough, and does not move while the scroll
/// grows beyond its stop.
pub proof fn lemma_window(total: usize, height: usize, scroll: usize)
    ensures
        window_of(total, height, scroll).offset + window_of(total, height, scroll).count <= total,
        window_of(total, height, scroll).offset <= scroll,
        total >= height ==> window_of(total, height, scroll).count == height,
        total < height ==> window_of(total, height, scroll) == (DiffWindow {
            offset: 0,
            count: total,
            max_scroll: 0,
        }),
        scroll >= window_of(total, height, scroll).max_scroll ==> window_of(total, height, scroll)
            == window_of(total, height, window_of(total, height, scroll).max_scroll),
{
}

} // verus!

//! The popups of the client: a text input, a bookmark chooser with a
//! filter, feedback messages and the help screen. At most one is open.

use vstd::prelude::*;
use vstd::string::*;
use crate::buffer::{BufferView, TextBuffer};
use crate::jj::operations::{BookmarkInfo, BookmarkView};
use crate::key::{KeyCode, KeyEvent};
use crate::text::{contains, has_substring, lowercase, occurs_at, to_lowercase};

verus! {

/// What a submitted text input is for.
#[derive(Debug, Clone, Copy, PartialEq, Eq, Structural)]
pub enum PopupCallback {
    Describe,
    Commit,
    Rebase,
}

/// The two kinds of feedback popup.
#[derive(Debug, Clone, Copy, PartialEq, Eq, Structural)]
pub enum FeedbackType {
    Warning,
    Error,
}

impl FeedbackType {
    /// The title of a feedback popup of this kind.
    pub open spec fn title_text(self) -> Seq<char> {
        match self {
            FeedbackType::Warning => "Warning"@,
            FeedbackType::Error => "Error"@,
        }
    }

    /// The title of a feedback popup of this kind.
    pub fn title(self) -> (t: &'static str)
        ensures
            t@ == self.title_text(),
    {
        match self {
            FeedbackType::Warning => "Warning",
            FeedbackType::Error => "Error",
        }
    }
}

/// What a key press did to an open popup.
#[derive(Debug, Clone, PartialEq, Eq)]
pub enum PopupOutcome {
    /// The popup stays open.
    Open,
    /// The popup closes and nothing else happens.
    Closed,
    /// The popup closes and hands over a text.
    Submitted(String),
}

/// What a `PopupOutcome` stands for.
pub enum PopupOutcomeView {
    Open,
    Closed,
    Submitted(Seq<char>),
}

impl View for PopupOutcome {
    type V = PopupOutcomeView;

    open spec fn view(&self) -> PopupOutcomeView {
        match self {
            PopupOutcome::Open => PopupOutcomeView::Open,
            PopupOutcome::Closed => PopupOutcomeView::Closed,
            PopupOutcome::Submitted(text) => PopupOutcomeView::Submitted(text@),
        }
    }
}

/// A bookmark name passes a filter when the filter is empty or occurs in the
/// name, letter case set aside.
pub open spec fn name_matches(name: Seq<char>, filter: Seq<char>) -> bool {
    filter.len() == 0 || has_substring(lowercase(name), lowercase(filter))
}

/// The positions of the candidates that pass the filter, in ascending order.
pub open spec fn filtered_positions(candidates: Seq<BookmarkView>, filter: Seq<char>) -> Seq<int>
    decreases candidates.len(),
{
    if candidates.len() == 0 {
        Seq::empty()
    } else {
        let before = filtered_positions(candidates.drop_last(), filter);
        if name_matches(candidates.last().name, filter) {
            before.push(candidates.len() - 1)
        } else {
            before
        }
    }
}

/// The views of a list of bookmarks.
pub open spec fn bookmark_views(bookmarks: Seq<BookmarkInfo>) -> Seq<BookmarkView> {
    bookmarks.map_values(|b: BookmarkInfo| b@)
}

/// An index is clamped to a list of `len` items when it names one of them,
/// or is zero where the list is empty.
pub open spec fn clamped(index: nat, len: nat) -> bool {
    if len == 0 {
        index == 0
    } else {
        index < len
    }
}

/// The filtered positions are positions of candidates that pass the filter,
/// strictly ascending, and every candidate that passes is among them.
pub proof fn lemma_filtered_positions(candidates: Seq<BookmarkView>, filter: Seq<char>)
    ensures
        filtered_positions(candidates, filter).len() <= candidates.len(),
        forall|k: int|
            0 <= k < filtered_positions(candidates, filter).len() ==> {
                let p = #[trigger] filtered_positions(candidates, filter)[k];
                0 <= p < candidates.len() && name_matches(candidates[p].name, filter)
            },
        forall|j: int, k: int|
            0 <= j < k < filtered_positions(candidates, filter).len() ==> filtered_positions(
                candidates,
                filter,
            )[j] < filtered_positions(candidates, filter)[k],
        forall|p: int|
            0 <= p < candidates.len() && name_matches(#[trigger] candidates[p].name, filter)
                ==> filtered_positions(candidates, filter).contains(p),
    decreases candidates.len(),
{
    if candidates.len() > 0 {
        let init = candidates.drop_last();
        let before = filtered_positions(init, filter);
        let all = filtered_positions(candidates, filter);
        lemma_filtered_positions(init, filter);
        assert forall|k: int| 0 <= k < all.len() implies {
            let p = #[trigger] all[k];
            0 <= p < candidates.len() && name_matches(candidates[p].name, filter)
        } by {
            if k < before.len() {
                assert(all[k] == before[k]);
                assert(init[before[k]] == candidates[before[k]]);
            }
        }
        assert forall|j: int, k: int| 0 <= j < k < all.len() implies all[j] < all[k] by {
            assert(all[j] == before[j]);
            if k < before.len() {
                assert(all[k] == before[k]);
            }
        }
        assert forall|p: int|
            0 <= p < candidates.len() && name_matches(
                #[trigger] candidates[p].name,
                filter,
            ) implies all.contains(p) by {
            if p < init.len() {
                assert(init[p] == candidates[p]);
                assert(before.contains(p));
                let k = choose|k: int| 0 <= k < before.len() && before[k] == p;
                assert(all[k] == p);
            } else {
                assert(all[all.len() - 1] == p);
            }
        }
    }
}

/// With an empty filter every candidate passes.
pub proof fn lemma_empty_filter_keeps_all(candidates: Seq<BookmarkView>)
    ensures
        filtered_positions(candidates, Seq::empty()) == Seq::new(candidates.len(), |i: int| i),
    decreases candidates.len(),
{
    if candidates.len() > 0 {
        lemma_empty_filter_keeps_all(candidates.drop_last());
    }
    assert(filtered_positions(candidates, Seq::empty()) =~= Seq::new(
        candidates.len(),
        |i: int| i,
    ));
}

/// A name passes the filter that is the name itself.
pub proof fn lemma_name_matches_itself(name: Seq<char>)
    ensures
        name_matches(name, name),
{
    let l = lowercase(name);
    assert(l.subrange(0, l.len() as int) =~= l);
    assert(occurs_at(l, l, 0));
}

/// Whether a bookmark name passes the filter.
pub fn matches_filter(name: &str, filter: &str) -> (b: bool)
    ensures
        b == name_matches(name@, filter@),
{
    if filter.is_empty() {
        true
    } else {
        let lower_name = to_lowercase(name);
        let lower_filter = to_lowercase(filter);
        contains(lower_name.as_str(), lower_filter.as_str())
    }
}

/// The positions of the candidates whose name passes the filter, in the
/// order of the candidates.
pub fn filter_bookmarks(candidates: &Vec<BookmarkInfo>, filter: &str) -> (positions: Vec<usize>)
    ensures
        positions@.map_values(|p: usize| p as int) == filtered_positions(
            bookmark_views(candidates@),
            filter@,
        ),
        forall|k: int|
            0 <= k < positions@.len() ==> #[trigger] positions@[k] < candidates@.len()
                && name_matches(candidates@[positions@[k] as int].name@, filter@),
        forall|j: int, k: int|
            0 <= j < k < positions@.len() ==> #[trigger] positions@[j] < #[trigger] positions@[k],
        forall|p: int|
            0 <= p < candidates@.len() && name_matches(#[trigger] candidates@[p].name@, filter@)
                ==> exists|k: int| 0 <= k < positions@.len() && positions@[k] == p,
{
    let mut positions: Vec<usize> = Vec::new();
    let mut i: usize = 0;
    assert(bookmark_views(candidates@).take(0) =~= Seq::empty());
    while i < candidates.len()
        invariant
            i <= candidates.len(),
            positions@.map_values(|p: usize| p as int) == filtered_positions(
                bookmark_views(candidates@).take(i as int),
                filter@,
            ),
        decreases candidates.len() - i,
    {
        let ghost all = bookmark_views(candidates@);
        let ghost before = positions@.map_values(|p: usize| p as int);
        assert(all.take(i + 1).drop_last() =~= all.take(i as int));
        assert(all.take(i + 1).last() == candidates@[i as int]@);
        if matches_filter(candidates[i].name.as_str(), filter) {
            positions.push(i);
            assert(positions@.map_values(|p: usize| p as int) =~= before.push(i as int));
        }
        i += 1;
    }
    assert(bookmark_views(candidates@).take(i as int) =~= bookmark_views(candidates@));
    proof {
        let all = bookmark_views(candidates@);
        let found = positions@.map_values(|p: usize| p as int);
        lemma_filtered_positions(all, filter@);
        assert forall|k: int| 0 <= k < positions@.len() implies #[trigger] positions@[k]
            < candidates@.len() && name_matches(
            candidates@[positions@[k] as int].name@,
            filter@,
        ) by {
            assert(found[k] == positions@[k]);
            assert(all[found[k]] == candidates@[found[k]]@);
        }
        assert forall|j: int, k: int| 0 <= j < k < positions@.len() implies #[trigger] positions@[j]
            < #[trigger] positions@[k] by {
            assert(found[j] == positions@[j]);
            assert(found[k] == positions@[k]);
        }
        assert forall|p: int|
            0 <= p < candidates@.len() && name_matches(
                #[trigger] candidates@[p].name@,
                filter@,
            ) implies exists|k: int| 0 <= k < positions@.len() && positions@[k] == p by {
            assert(all[p].name == candidates@[p].name@);
            assert(found.contains(p));
            let k = choose|k: int| 0 <= k < found.len() && found[k] == p;
            assert(positions@[k] == p);
        }
    }
    positions
}

/// A text input: a titled buffer, and what its text is for once submitted.
#[derive(Debug, Clone, PartialEq, Eq)]
pub struct TextInput {
    pub title: String,
    pub buffer: TextBuffer,
    pub callback: PopupCallback,
}

/// What a `TextInput` stands for.
pub struct InputView {
    pub title: Seq<char>,
    pub buffer: BufferView,
    pub callback: PopupCallback,
}

impl InputView {
    /// The cursor stands inside the text.
    pub open spec fn wf(self) -> bool {
        self.buffer.wf()
    }

    /// The input after a key press, and what the press did to the popup.
    /// Esc closes; Enter submits the text, or breaks the line where the
    /// modifier is held; the editing keys edit; every other key is ignored.
    pub open spec fn step(self, key: KeyEvent) -> (InputView, PopupOutcomeView) {
        match key.code {
            KeyCode::Esc => (self, PopupOutcomeView::Closed),
            KeyCode::Enter => if key.alt {
                (InputView { buffer: self.buffer.insert('\n'), ..self }, PopupOutcomeView::Open)
            } else {
                (self, PopupOutcomeView::Submitted(self.buffer.content))
            },
            KeyCode::Char(c) => (
                InputView { buffer: self.buffer.insert(c), ..self },
                PopupOutcomeView::Open,
            ),
            KeyCode::Backspace => (
                InputView { buffer: self.buffer.backspace(), ..self },
                PopupOutcomeView::Open,
            ),
            KeyCode::Left => (InputView { buffer: self.buffer.left(), ..self }, PopupOutcomeView::Open),
            KeyCode::Right => (
                InputView { buffer: self.buffer.right(), ..self },
                PopupOutcomeView::Open,
            ),
            KeyCode::Home => (InputView { buffer: self.buffer.home(), ..self }, PopupOutcomeView::Open),
            KeyCode::End => (InputView { buffer: self.buffer.end(), ..self }, PopupOutcomeView::Open),
            _ => (self, PopupOutcomeView::Open),
        }
    }
}

impl View for TextInput {
    type V = InputView;

    open spec fn view(&self) -> InputView {
        InputView { title: self.title@, buffer: self.buffer@, callback: self.callback }
    }
}

impl TextInput {
    /// An empty input with the given title and purpose.
    pub fn new(title: &str, callback: PopupCallback) -> (input: TextInput)
        ensures
            input@ == (InputView {
                title: title@,
                buffer: BufferView::holding(Seq::empty()),
                callback,
            }),
    {
        TextInput { title: String::from_str(title), buffer: TextBuffer::new(), callback }
    }

    /// Applies one key press to the input.
    pub fn handle_key(&mut self, key: KeyEvent) -> (outcome: PopupOutcome)
        ensures
            final(self)@ == old(self)@.step(key).0,
            outcome@ == old(self)@.step(key).1,
            old(self)@.wf() ==> final(self)@.wf(),
    {
        match key.code {
            KeyCode::Esc => PopupOutcome::Closed,
            KeyCode::Enter => {
                if key.alt {
                    self.buffer.insert_char('\n');
                    PopupOutcome::Open
                } else {
                    PopupOutcome::Submitted(self.buffer.content.clone())
                }
            },
            KeyCode::Char(c) => {
                self.buffer.insert_char(c);
                PopupOutcome::Open
            },
            KeyCode::Backspace => {
                self.buffer.backspace();
                PopupOutcome::Open
            },
            KeyCode::Left => {
                self.buffer.move_left();
                PopupOutcome::Open
            },
            KeyCode::Right => {
                self.buffer.move_right();
                PopupOutcome::Open
            },
            KeyCode::Home => {
                self.buffer.move_home();
                PopupOutcome::Open
            },
            KeyCode::End => {
                self.buffer.move_end();
                PopupOutcome::Open
            },
            _ => PopupOutcome::Open,
        }
    }
}

/// A bookmark chooser: a filter text, the candidates, and the highlighted
/// row of the filtered list.
#[derive(Debug, Clone, PartialEq, Eq)]
pub struct BookmarkSelect {
    pub buffer: TextBuffer,
    pub available_bookmarks: Vec<BookmarkInfo>,
    /// A row of the filtered list, not a position among the candidates.
    pub selected_index: usize,
}

/// What a `BookmarkSelect` stands for.
pub struct SelectView {
    pub buffer: BufferView,
    pub candidates: Seq<BookmarkView>,
    pub selected: nat,
}

impl SelectView {
    /// The positions of the candidates that the filter text keeps.
    pub open spec fn filtered(self) -> Seq<int> {
        filtered_positions(self.candidates, self.buffer.content)
    }

    /// The cursor stands inside the filter text and the highlight is
    /// clamped to the filtered list.
    pub open spec fn wf(self) -> bool {
        self.buffer.wf() && clamped(self.selected, self.filtered().len())
    }

    /// The highlight names a row of the filtered list.
    pub open spec fn on_row(self) -> bool {
        self.selected < self.filtered().len()
    }

    /// The name under the highlight.
    pub open spec fn highlighted_name(self) -> Seq<char> {
        self.candidates[self.filtered()[self.selected as int]].name
    }

    /// The name that Enter resolves to: the highlighted candidate if there
    /// is one, else the typed text if there is any.
    pub open spec fn resolved(self) -> Option<Seq<char>> {
        if self.on_row() {
            Some(self.highlighted_name())
        } else if self.buffer.content.len() > 0 {
            Some(self.buffer.content)
        } else {
            None
        }
    }

    /// The chooser after an edit of the filter text: the highlight is back
    /// on the first row.
    pub open spec fn edited(self, buffer: BufferView) -> SelectView {
        SelectView { buffer, selected: 0, ..self }
    }

    /// The chooser after the highlighted name was taken over as the filter
    /// text. The highlight returns to the first row if the text changed.
    pub open spec fn completed(self) -> SelectView {
        if self.on_row() {
            SelectView {
                buffer: BufferView::holding(self.highlighted_name()),
                selected: if self.highlighted_name() == self.buffer.content {
                    self.selected
                } else {
                    0
                },
                ..self
            }
        } else {
            self
        }
    }

    /// The chooser with the highlight one row up, stopping at the first.
    pub open spec fn up(self) -> SelectView {
        if self.filtered().len() > 0 && self.selected > 0 {
            SelectView { selected: (self.selected - 1) as nat, ..self }
        } else {
            self
        }
    }

    /// The chooser with the highlight one row down, stopping at the last.
    pub open spec fn down(self) -> SelectView {
        if self.filtered().len() > 0 {
            SelectView {
                selected: if self.selected + 1 < self.filtered().len() {
                    self.selected + 1
                } else {
                    (self.filtered().len() - 1) as nat
                },
                ..self
            }
        } else {
            self
        }
    }

    /// The chooser after a key press, and what the press did to the popup.
    pub open spec fn step(self, code: KeyCode) -> (SelectView, PopupOutcomeView) {
        match code {
            KeyCode::Esc => (self, PopupOutcomeView::Closed),
            KeyCode::Enter => match self.resolved() {
                Some(name) => (self, PopupOutcomeView::Submitted(name)),
                None => (self, PopupOutcomeView::Closed),
            },
            KeyCode::Up => (self.up(), PopupOutcomeView::Open),
            KeyCode::Down => (self.down(), PopupOutcomeView::Open),
            KeyCode::Tab => (self.completed(), PopupOutcomeView::Open),
            KeyCode::Char(c) => if c == 'k' {
                (self.up(), PopupOutcomeView::Open)
            } else if c == 'j' {
                (self.down(), PopupOutcomeView::Open)
            } else {
                (self.edited(self.buffer.insert(c)), PopupOutcomeView::Open)
            },
            KeyCode::Backspace => if self.buffer.position() > 0 {
                (self.edited(self.buffer.backspace()), PopupOutcomeView::Open)
            } else {
                (self, PopupOutcomeView::Open)
            },
            KeyCode::Left => (SelectView { buffer: self.buffer.left(), ..self }, PopupOutcomeView::Open),
            KeyCode::Right => (
                SelectView { buffer: self.buffer.right(), ..self },
                PopupOutcomeView::Open,
            ),
            KeyCode::Home => (SelectView { buffer: self.buffer.home(), ..self }, PopupOutcomeView::Open),
            KeyCode::End => (SelectView { buffer: self.buffer.end(), ..self }, PopupOutcomeView::Open),
            _ => (self, PopupOutcomeView::Open),
        }
    }
}

impl View for BookmarkSelect {
    type V = SelectView;

    open spec fn view(&self) -> SelectView {
        SelectView {
            buffer: self.buffer@,
            candidates: bookmark_views(self.available_bookmarks@),
            selected: self.selected_index as nat,
        }
    }
}

impl BookmarkSelect {
    /// A chooser over the given candidates, with an empty filter and the
    /// highlight on the first row.
    pub fn new(available_bookmarks: Vec<BookmarkInfo>) -> (select: BookmarkSelect)
        ensures
            select@ == (SelectView {
                buffer: BufferView::holding(Seq::empty()),
                candidates: bookmark_views(available_bookmarks@),
                selected: 0,
            }),
            select@.wf(),
    {
        BookmarkSelect { buffer: TextBuffer::new(), available_bookmarks, selected_index: 0 }
    }

    /// The positions of the candidates that the filter text keeps.
    pub fn filtered(&self) -> (positions: Vec<usize>)
        ensures
            positions@.map_values(|p: usize| p as int) == self@.filtered(),
    {
        filter_bookmarks(&self.available_bookmarks, self.buffer.content.as_str())
    }

    /// The name under the highlight, if the highlight names a row.
    fn highlighted(&self) -> (name: Option<String>)
        ensures
            name is Some == self@.on_row(),
            name matches Some(n) ==> n@ == self@.highlighted_name(),
    {
        let rows = self.filtered();
        proof {
            lemma_filtered_positions(self@.candidates, self@.buffer.content);
        }
        if self.selected_index < rows.len() {
            let position = rows[self.selected_index];
            assert(rows@.map_values(|p: usize| p as int)[self.selected_index as int]
                == position as int);
            Some(self.available_bookmarks[position].name.clone())
        } else {
            None
        }
    }

    /// The name that Enter resolves to.
    pub fn resolve(&self) -> (name: Option<String>)
        ensures
            name is Some == self@.resolved() is Some,
            name matches Some(n) ==> self@.resolved() == Some(n@),
    {
        match self.highlighted() {
            Some(name) => Some(name),
            None => {
                if self.buffer.content.as_str().is_empty() {
                    None
                } else {
                    Some(self.buffer.content.clone())
                }
            },
        }
    }

    /// Moves the highlight one row up.
    fn highlight_up(&mut self)
        ensures
            final(self)@ == old(self)@.up(),
    {
        let rows = self.filtered();
        if rows.len() > 0 && self.selected_index > 0 {
            self.selected_index = self.selected_index - 1;
        }
    }

    /// Moves the highlight one row down.
    fn highlight_down(&mut self)
        ensures
            final(self)@ == old(self)@.down(),
    {
        let rows = self.filtered();
        if rows.len() > 0 {
            self.selected_index = if self.selected_index < rows.len() - 1 {
                self.selected_index + 1
            } else {
                rows.len() - 1
            };
        }
    }

    /// Takes the highlighted name over as the filter text.
    fn autocomplete(&mut self)
        ensures
            final(self)@ == old(self)@.completed(),
    {
        match self.highlighted() {
            Some(name) => {
                if name != self.buffer.content {
                    self.selected_index = 0;
                }
                self.buffer = TextBuffer::with_text(name);
            },
            None => {},
        }
    }

    /// Applies one key press to the chooser.
    pub fn handle_key(&mut self, code: KeyCode) -> (outcome: PopupOutcome)
        ensures
            final(self)@ == old(self)@.step(code).0,
            outcome@ == old(self)@.step(code).1,
            old(self)@.wf() ==> final(self)@.wf(),
    {
        proof {
            if old(self)@.wf() {
                lemma_select_step_wf(old(self)@, code);
            }
        }
        match code {
            KeyCode::Esc => PopupOutcome::Closed,
            KeyCode::Enter => match self.resolve() {
                Some(name) => PopupOutcome::Submitted(name),
                None => PopupOutcome::Closed,
            },
            KeyCode::Up => {
                self.highlight_up();
                PopupOutcome::Open
            },
            KeyCode::Down => {
                self.highlight_down();
                PopupOutcome::Open
            },
            KeyCode::Tab => {
                self.autocomplete();
                PopupOutcome::Open
            },
            KeyCode::Char(c) => {
                if c == 'k' {
                    self.highlight_up();
                } else if c == 'j' {
                    self.highlight_down();
                } else {
                    self.buffer.insert_char(c);
                    self.selected_index = 0;
                }
                PopupOutcome::Open
            },
            KeyCode::Backspace => {
                let n = self.buffer.char_count();
                if self.buffer.cursor_position > 0 && n > 0 {
                    self.buffer.backspace();
                    self.selected_index = 0;
                }
                PopupOutcome::Open
            },
            KeyCode::Left => {
                self.buffer.move_left();
                PopupOutcome::Open
            },
            KeyCode::Right => {
                self.buffer.move_right();
                PopupOutcome::Open
            },
            KeyCode::Home => {
                self.buffer.move_home();
                PopupOutcome::Open
            },
            KeyCode::End => {
                self.buffer.move_end();
                PopupOutcome::Open
            },
            _ => PopupOutcome::Open,
        }
    }
}

/// The popup that is open, if any.
#[derive(Debug, Clone, PartialEq, Eq)]
pub enum PopupState {
    /// No popup: the keys go to the views.
    Closed,
    Input(TextInput),
    BookmarkSelect(BookmarkSelect),
    Error { message: String },
    Warning { message: String },
    Help,
}

/// What a `PopupState` stands for.
pub enum PopupView {
    Closed,
    Input(InputView),
    BookmarkSelect(SelectView),
    Error { message: Seq<char> },
    Warning { message: Seq<char> },
    Help,
}

impl PopupView {
    /// The popup, if it holds a buffer, has its cursor inside the text, and
    /// the highlight of a chooser is clamped to its filtered list.
    pub open spec fn wf(self) -> bool {
        match self {
            PopupView::Input(input) => input.wf(),
            PopupView::BookmarkSelect(select) => select.wf(),
            _ => true,
        }
    }
}

impl View for PopupState {
    type V = PopupView;

    open spec fn view(&self) -> PopupView {
        match self {
            PopupState::Closed => PopupView::Closed,
            PopupState::Input(input) => PopupView::Input(input@),
            PopupState::BookmarkSelect(select) => PopupView::BookmarkSelect(select@),
            PopupState::Error { message } => PopupView::Error { message: message@ },
            PopupState::Warning { message } => PopupView::Warning { message: message@ },
            PopupState::Help => PopupView::Help,
        }
    }
}

impl PopupState {
    /// The kind and the message of a feedback popup.
    pub fn feedback(&self) -> (r: Option<(FeedbackType, &String)>)
        ensures
            match self@ {
                PopupView::Error { message } => r matches Some((FeedbackType::Error, m)) && m@
                    == message,
                PopupView::Warning { message } => r matches Some((FeedbackType::Warning, m))
                    && m@ == message,
                _ => r is None,
            },
    {
        match self {
            PopupState::Error { message } => Some((FeedbackType::Error, message)),
            PopupState::Warning { message } => Some((FeedbackType::Warning, message)),
            _ => None,
        }
    }
}

/// Esc closes a text input and a bookmark chooser without handing anything
/// over, whatever their buffers hold.
pub proof fn lemma_esc_discards(input: InputView, select: SelectView, alt: bool)
    ensures
        input.step(KeyEvent { code: KeyCode::Esc, alt }).1 == PopupOutcomeView::Closed,
        select.step(KeyCode::Esc).1 == PopupOutcomeView::Closed,
{
}

/// Every key press leaves the cursor of a text input inside its text.
pub proof fn lemma_input_step_wf(input: InputView, key: KeyEvent)
    requires
        input.wf(),
    ensures
        input.step(key).0.wf(),
{
}

/// Every key press leaves a bookmark chooser well formed: the cursor inside
/// the filter text and the highlight clamped to the filtered list.
pub proof fn lemma_select_step_wf(select: SelectView, code: KeyCode)
    requires
        select.wf(),
    ensures
        select.step(code).0.wf(),
{
    if code == KeyCode::Tab && select.on_row() {
        let name = select.highlighted_name();
        let p = select.filtered()[select.selected as int];
        lemma_filtered_positions(select.candidates, select.buffer.content);
        lemma_name_matches_itself(name);
        lemma_filtered_positions(select.candidates, name);
        assert(filtered_positions(select.candidates, name).contains(p));
    }
}

/// A key press that changes the filter text puts the highlight on the first
/// row.
pub proof fn lemma_filter_change_resets_highlight(select: SelectView, code: KeyCode)
    ensures
        select.step(code).0.buffer.content != select.buffer.content ==> select.step(
            code,
        ).0.selected == 0,
        select.step(code).0.candidates == select.candidates,
{
}

} // verus!

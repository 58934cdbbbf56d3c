//! The editing state machine: cursor, edit buffer, input mode, and the
//! dispatcher that maps one key event to one operation.
//!
//! The cursor column counts characters of the entry's text. It is clamped to
//! `max(len - 1, 0)` after navigation, while typing advances it one past the
//! last character so that the next character is appended.

use vstd::prelude::*;
use vstd::string::*;
use crate::todo::{
    empty_entry, entries_view, loaded, removed, toggled, EntryView, ListsView, Status, TargetMode,
    TodoData, TodoLists,
};
use crate::text::{char_len, clamp, clamp_spec, insert_char_at, remove_char_at};

verus! {

/// Which keys the dispatcher accepts.
#[derive(Clone, Copy, Debug, PartialEq, Eq, Structural)]
pub enum InputMode {
    Normal,
    Editing,
}

/// A cursor step.
#[derive(Clone, Copy, Debug, PartialEq, Eq, Structural)]
pub enum MoveCursorOperation {
    Right,
    Left,
    Up,
    Down,
}

/// One input event.
#[derive(Clone, Copy, Debug, PartialEq, Eq, Structural)]
pub enum Key {
    Char(char),
    Enter,
    Backspace,
    Esc,
    Up,
    Down,
    Left,
    Right,
    Other,
}

/// The whole editor state.
pub struct App {
    /// Copy of the text of the entry under the cursor.
    input: String,
    input_mode: InputMode,
    todos: TodoLists,
    target_row: usize,
    target_column: usize,
}

/// Mathematical model of the editor state.
pub struct AppView {
    pub mode: InputMode,
    pub lists: ListsView,
    pub input: Seq<char>,
    pub row: int,
    pub column: int,
}

impl AppView {
    pub open spec fn active(self) -> Seq<EntryView> {
        self.lists.active()
    }

    /// Text of the entry under the cursor.
    pub open spec fn text_at_row(self) -> Seq<char> {
        self.active()[self.row].text
    }

    /// Largest column that clamping leaves: `max(len - 1, 0)`.
    pub open spec fn column_bound(self) -> int {
        if self.text_at_row().len() >= 1 {
            self.text_at_row().len() - 1
        } else {
            0
        }
    }

    /// Lists non-empty, cursor on an entry and within or just past its
    /// text, edit buffer equal to that text.
    pub open spec fn wf(self) -> bool {
        &&& self.lists.wf()
        &&& 0 <= self.row < self.active().len()
        &&& 0 <= self.column <= self.text_at_row().len()
        &&& self.input == self.text_at_row()
    }

    /// The column within the clamping bound.
    pub open spec fn column_in_bound(self) -> bool {
        0 <= self.column <= self.column_bound()
    }
}

/// Row clamped to the active list.
pub open spec fn row_clamped(v: AppView) -> AppView {
    AppView { row: clamp_spec(v.row, 0, v.active().len() - 1), ..v }
}

/// Column clamped to `[0, max(len - 1, 0)]` of the text under the cursor.
pub open spec fn column_clamped(v: AppView) -> AppView {
    AppView { column: clamp_spec(v.column, 0, v.column_bound()), ..v }
}

/// Edit buffer reloaded from the entry under the cursor.
pub open spec fn reloaded(v: AppView) -> AppView {
    AppView { input: v.text_at_row(), ..v }
}

/// The cursor moved one step, before clamping.
pub open spec fn stepped(v: AppView, op: MoveCursorOperation) -> AppView {
    match op {
        MoveCursorOperation::Down => AppView { row: v.row + 1, ..v },
        MoveCursorOperation::Up => AppView { row: v.row - 1, ..v },
        MoveCursorOperation::Left => AppView { column: v.column - 1, ..v },
        MoveCursorOperation::Right => AppView { column: v.column + 1, ..v },
    }
}

/// A cursor step, then both clamps, then a reload of the edit buffer.
pub open spec fn moved(v: AppView, op: MoveCursorOperation) -> AppView {
    reloaded(column_clamped(row_clamped(stepped(v, op))))
}

/// The entry under the cursor given the text `t`, buffer included.
pub open spec fn with_text(v: AppView, t: Seq<char>) -> AppView {
    AppView {
        input: t,
        lists: v.lists.with_active(v.active().update(v.row, EntryView { text: t, ..v.active()[v.row] })),
        ..v
    }
}

/// `c` typed at the cursor, which advances by one.
pub open spec fn inserted(v: AppView, c: char) -> AppView {
    AppView { column: v.column + 1, ..with_text(v, v.input.insert(v.column, c)) }
}

/// The character before the cursor deleted; nothing happens on an empty
/// buffer or at column 0.
pub open spec fn deleted(v: AppView) -> AppView {
    if v.input.len() == 0 || v.column <= 0 {
        v
    } else {
        AppView { column: v.column - 1, ..with_text(v, v.input.remove(v.column - 1)) }
    }
}

/// Commit of the line: on the last entry a fresh entry is appended and the
/// cursor goes to its start; the buffer is reloaded and the mode is Normal.
pub open spec fn committed(v: AppView) -> AppView {
    let w = if v.row >= v.active().len() - 1 {
        AppView {
            lists: v.lists.with_active(v.active().push(empty_entry())),
            row: v.row + 1,
            column: 0,
            ..v
        }
    } else {
        v
    };
    AppView { mode: InputMode::Normal, ..reloaded(w) }
}

/// The other list selected, the cursor on its first entry.
pub open spec fn switched(v: AppView) -> AppView {
    reloaded(
        column_clamped(
            AppView { lists: ListsView { target: toggled(v.lists.target), ..v.lists }, row: 0, ..v },
        ),
    )
}

/// The entry under the cursor removed, then the cursor moved up.
pub open spec fn entry_removed(v: AppView) -> AppView {
    moved(
        AppView { lists: v.lists.with_active(removed(v.active(), v.row)), ..v },
        MoveCursorOperation::Up,
    )
}

/// The status of the entry under the cursor set to `s`.
pub open spec fn status_set(v: AppView, s: Status) -> AppView {
    AppView {
        lists: v.lists.with_active(
            v.active().update(v.row, EntryView { status: s, ..v.active()[v.row] }),
        ),
        ..v
    }
}

/// The transition table: the next state, and whether the session ends.
pub open spec fn dispatch(v: AppView, key: Key) -> (AppView, bool) {
    match v.mode {
        InputMode::Normal => match key {
            Key::Char('e') => (AppView { mode: InputMode::Editing, ..v }, false),
            Key::Char('q') => (v, true),
            Key::Char('t') => (switched(v), false),
            Key::Char('r') => (entry_removed(v), false),
            Key::Char('d') => (status_set(v, Status::Done), false),
            Key::Up => (moved(v, MoveCursorOperation::Up), false),
            Key::Down => (moved(v, MoveCursorOperation::Down), false),
            Key::Left => (moved(v, MoveCursorOperation::Left), false),
            Key::Right => (moved(v, MoveCursorOperation::Right), false),
            _ => (v, false),
        },
        InputMode::Editing => match key {
            Key::Enter => (committed(v), false),
            Key::Char(c) => (inserted(v, c), false),
            Key::Backspace => (deleted(v), false),
            Key::Esc => (AppView { mode: InputMode::Normal, ..v }, false),
            Key::Up => (moved(v, MoveCursorOperation::Up), false),
            Key::Down => (moved(v, MoveCursorOperation::Down), false),
            Key::Left => (moved(v, MoveCursorOperation::Left), false),
            Key::Right => (moved(v, MoveCursorOperation::Right), false),
            _ => (v, false),
        },
    }
}

impl Default for App {
    fn default() -> (r: App)
        ensures
            r@.mode == InputMode::Normal,
            r@.lists.target == TargetMode::Daily,
            r@.lists.daily == seq![empty_entry()],
            r@.lists.long_term == seq![empty_entry()],
            r@.input == Seq::<char>::empty(),
            r@.row == 0,
            r@.column == 0,
            r@.wf(),
    {
        App::new()
    }
}

impl View for App {
    type V = AppView;

    closed spec fn view(&self) -> AppView {
        AppView {
            mode: self.input_mode,
            lists: self.todos@,
            input: self.input@,
            row: self.target_row as int,
            column: self.target_column as int,
        }
    }
}

impl App {
    /// Normal mode, daily list selected, each list one fresh entry, cursor
    /// at the start.
    pub fn new() -> (r: App)
        ensures
            r@.mode == InputMode::Normal,
            r@.lists.target == TargetMode::Daily,
            r@.lists.daily == seq![empty_entry()],
            r@.lists.long_term == seq![empty_entry()],
            r@.input == Seq::<char>::empty(),
            r@.row == 0,
            r@.column == 0,
            r@.wf(),
    {
        App {
            input: String::new(),
            input_mode: InputMode::Normal,
            todos: TodoLists::new(),
            target_row: 0,
            target_column: 0,
        }
    }

    /// Normal mode, cursor at the start, the lists loaded in bulk (a list
    /// given empty starts with one fresh entry), the daily list selected.
    pub fn from_lists(daily: Vec<TodoData>, long_term: Vec<TodoData>) -> (r: App)
        ensures
            r@.mode == InputMode::Normal,
            r@.lists.target == TargetMode::Daily,
            r@.lists.daily == loaded(entries_view(daily@)),
            r@.lists.long_term == loaded(entries_view(long_term@)),
            r@.row == 0,
            r@.column == 0,
            r@.wf(),
    {
        let todos = TodoLists::from_lists(daily, long_term);
        let input = todos.get_messages()[0].message.clone();
        App { input, input_mode: InputMode::Normal, todos, target_row: 0, target_column: 0 }
    }

    pub fn input_mode(&self) -> (r: InputMode)
        ensures
            r == self@.mode,
    {
        self.input_mode
    }

    /// The list selector.
    pub fn target_mode(&self) -> (r: TargetMode)
        ensures
            r == self@.lists.target,
    {
        self.todos.target()
    }

    /// The edit buffer.
    pub fn input(&self) -> (r: &String)
        ensures
            r@ == self@.input,
    {
        &self.input
    }

    pub fn target_row(&self) -> (r: usize)
        ensures
            r == self@.row,
    {
        self.target_row
    }

    pub fn target_column(&self) -> (r: usize)
        ensures
            r == self@.column,
    {
        self.target_column
    }

    /// Where the caret goes relative to the list view's origin: three
    /// columns of status marker, then the cursor column; one line of border,
    /// then the cursor row. Each part stops at `usize::MAX`.
    pub fn caret_offset(&self) -> (r: (usize, usize))
        ensures
            r.0 == (if self@.column + 3 <= usize::MAX {
                self@.column + 3
            } else {
                usize::MAX as int
            }),
            r.1 == (if self@.row + 1 <= usize::MAX {
                self@.row + 1
            } else {
                usize::MAX as int
            }),
    {
        let x = if self.target_column <= usize::MAX - 3 {
            self.target_column + 3
        } else {
            usize::MAX
        };
        let y = if self.target_row < usize::MAX {
            self.target_row + 1
        } else {
            usize::MAX
        };
        (x, y)
    }

    /// Read view of the active list.
    pub fn get_messages(&self) -> (r: &Vec<TodoData>)
        ensures
            entries_view(r@) == self@.active(),
    {
        self.todos.get_messages()
    }

    /// Copy of the text of the entry at the cursor row.
    pub fn get_current_message(&self) -> (r: String)
        requires
            0 <= self@.row < self@.active().len(),
        ensures
            r@ == self@.text_at_row(),
    {
        self.todos.get_messages()[self.target_row].message.clone()
    }

    /// Sets the row to `clamp(row, 0, len - 1)` of the active list.
    pub fn clamp_row(&mut self)
        requires
            old(self)@.lists.wf(),
        ensures
            final(self)@ == row_clamped(old(self)@),
    {
        let n = self.todos.get_messages().len();
        self.target_row = clamp(self.target_row, 0, n - 1);
    }

    /// Sets the column to `clamp(column, 0, max(len - 1, 0))` of the text
    /// under the cursor.
    pub fn clamp_column(&mut self)
        requires
            old(self)@.lists.wf(),
            0 <= old(self)@.row < old(self)@.active().len(),
        ensures
            final(self)@ == column_clamped(old(self)@),
    {
        let n = char_len(&self.get_current_message());
        let hi = if n >= 1 {
            n - 1
        } else {
            0
        };
        self.target_column = clamp(self.target_column, 0, hi);
    }

    /// Moves the cursor one step, clamps row and column, and reloads the edit
    /// buffer from the entry now under the cursor. A step past an edge is
    /// absorbed by the clamps.
    pub fn move_cursor(&mut self, move_operation: MoveCursorOperation)
        requires
            old(self)@.lists.wf(),
        ensures
            final(self)@ == moved(old(self)@, move_operation),
            final(self)@.wf(),
            final(self)@.column_in_bound(),
    {
        let ghost v = stepped(self@, move_operation);
        let n = self.todos.get_messages().len();
        match move_operation {
            MoveCursorOperation::Down => {
                if self.target_row < usize::MAX {
                    self.target_row = self.target_row + 1;
                }
            },
            MoveCursorOperation::Up => {
                if self.target_row > 0 {
                    self.target_row = self.target_row - 1;
                }
            },
            MoveCursorOperation::Left => {
                if self.target_column > 0 {
                    self.target_column = self.target_column - 1;
                }
            },
            MoveCursorOperation::Right => {
                if self.target_column < usize::MAX {
                    self.target_column = self.target_column + 1;
                }
            },
        }
        self.clamp_row();
        assert(self@.row == row_clamped(v).row);
        // The text's length fits in usize, so a step right that stopped at
        // usize::MAX clamps to the same column as one that did not.
        let text_len = char_len(&self.get_current_message());
        assert(text_len <= usize::MAX);
        self.clamp_column();
        assert(self@.column == column_clamped(row_clamped(v)).column);
        self.input = self.get_current_message();
        assert(self@ == moved(old(self)@, move_operation));
    }

    /// Inserts `c` into the edit buffer at the cursor column, writes the
    /// buffer back to the entry, and advances the column by one.
    pub fn add_char(&mut self, new_char: char)
        requires
            old(self)@.wf(),
            old(self)@.input.len() < usize::MAX,
        ensures
            final(self)@ == inserted(old(self)@, new_char),
            final(self)@.wf(),
    {
        self.input = insert_char_at(&self.input, self.target_column, new_char);
        let _ = self.todos.set_text(self.target_row, self.input.clone());
        self.target_column = self.target_column + 1;
        assert(self@ == inserted(old(self)@, new_char));
    }

    /// Deletes the character before the cursor column, writes the buffer
    /// back, and moves the column back by one. Nothing happens when the
    /// buffer is empty or the column is 0.
    pub fn remove_char(&mut self)
        requires
            old(self)@.wf(),
        ensures
            final(self)@ == deleted(old(self)@),
            final(self)@.wf(),
    {
        if char_len(&self.input) == 0 {
            return;
        }
        if self.target_column == 0 {
            return;
        }
        self.input = remove_char_at(&self.input, self.target_column - 1);
        let _ = self.todos.set_text(self.target_row, self.input.clone());
        self.target_column = self.target_column - 1;
        assert(self@ == deleted(old(self)@));
    }

    /// Appends `new_entry` to the active list; cursor and buffer are left
    /// as they are.
    pub fn push_message(&mut self, new_entry: TodoData)
        requires
            old(self)@.wf(),
        ensures
            final(self)@ == (AppView {
                lists: old(self)@.lists.with_active(old(self)@.active().push(new_entry@)),
                ..old(self)@
            }),
            final(self)@.wf(),
    {
        self.todos.push(new_entry);
    }

    /// Finishes the line being edited. On the last entry of the list a fresh
    /// entry is appended and the cursor goes to its start; elsewhere the
    /// cursor stays. The buffer is reloaded and the mode becomes Normal.
    pub fn new_line(&mut self)
        requires
            old(self)@.wf(),
        ensures
            final(self)@ == committed(old(self)@),
            final(self)@.wf(),
    {
        let n = self.todos.get_messages().len();
        if self.target_row >= n - 1 {
            self.push_message(TodoData::new());
            self.target_row = self.target_row + 1;
            self.target_column = 0;
        }
        self.input = self.get_current_message();
        self.input_mode = InputMode::Normal;
        assert(self@ == committed(old(self)@));
    }

    /// Selects the other list, puts the cursor on its first entry with the
    /// column clamped to that entry's text, and reloads the buffer.
    pub fn change_target_mode(&mut self)
        requires
            old(self)@.wf(),
        ensures
            final(self)@ == switched(old(self)@),
            final(self)@.wf(),
            final(self)@.column_in_bound(),
    {
        self.todos.switch();
        self.target_row = 0;
        self.clamp_column();
        self.input = self.get_current_message();
        assert(self@ == switched(old(self)@));
    }

    /// Removes the entry under the cursor (a list left empty gets a fresh
    /// entry), then moves the cursor up.
    pub fn remove_message(&mut self)
        requires
            old(self)@.wf(),
        ensures
            final(self)@ == entry_removed(old(self)@),
            final(self)@.wf(),
            final(self)@.column_in_bound(),
    {
        let _ = self.todos.remove(self.target_row);
        self.move_cursor(MoveCursorOperation::Up);
    }

    /// Sets the status of the entry under the cursor.
    pub fn set_message_status(&mut self, new_status: Status)
        requires
            old(self)@.wf(),
        ensures
            final(self)@ == status_set(old(self)@, new_status),
            final(self)@.wf(),
    {
        let _ = self.todos.set_status(self.target_row, new_status);
    }

    /// Handles one key event by the transition table of the current mode;
    /// returns whether the session ends. Unknown keys change nothing.
    pub fn handle_key(&mut self, key: Key) -> (quit: bool)
        requires
            old(self)@.wf(),
            old(self)@.input.len() < usize::MAX,
        ensures
            (final(self)@, quit) == dispatch(old(self)@, key),
            final(self)@.wf(),
    {
        match self.input_mode {
            InputMode::Normal => match key {
                Key::Char('e') => {
                    self.input_mode = InputMode::Editing;
                },
                Key::Char('q') => {
                    return true;
                },
                Key::Char('t') => {
                    self.change_target_mode();
                },
                Key::Char('r') => {
                    self.remove_message();
                },
                Key::Char('d') => {
                    self.set_message_status(Status::Done);
                },
                Key::Up => {
                    self.move_cursor(MoveCursorOperation::Up);
                },
                Key::Down => {
                    self.move_cursor(MoveCursorOperation::Down);
                },
                Key::Left => {
                    self.move_cursor(MoveCursorOperation::Left);
                },
                Key::Right => {
                    self.move_cursor(MoveCursorOperation::Right);
                },
                _ => {},
            },
            InputMode::Editing => match key {
                Key::Enter => {
                    self.new_line();
                },
                Key::Char(c) => {
                    self.add_char(c);
                },
                Key::Backspace => {
                    self.remove_char();
                },
                Key::Esc => {
                    self.input_mode = InputMode::Normal;
                },
                Key::Up => {
                    self.move_cursor(MoveCursorOperation::Up);
                },
                Key::Down => {
                    self.move_cursor(MoveCursorOperation::Down);
                },
                Key::Left => {
                    self.move_cursor(MoveCursorOperation::Left);
                },
                Key::Right => {
                    self.move_cursor(MoveCursorOperation::Right);
                },
                _ => {},
            },
        }
        false
    }
}

/// Columns that a string takes on a terminal.
pub uninterp spec fn display_width(s: Seq<char>) -> nat;

/// Relies on `unicode_width::UnicodeWidthStr::width`: the displayed width of
/// a string in columns, which depends on its characters alone.
#[verifier::external_body]
fn str_width(s: &str) -> (r: usize)
    ensures
        r as nat == display_width(s@),
{
    unicode_width::UnicodeWidthStr::width(s)
}

/// One column past `width`, stopping at `usize::MAX`.
pub open spec fn caret_after_spec(width: int) -> int {
    if width + 1 <= usize::MAX {
        width + 1
    } else {
        usize::MAX as int
    }
}

/// Column of the input box's caret for a buffer `width` columns wide: one
/// past the border, then the text.
pub fn caret_after(width: usize) -> (r: usize)
    ensures
        r == caret_after_spec(width as int),
{
    if width < usize::MAX {
        width + 1
    } else {
        usize::MAX
    }
}

impl App {
    /// Column of the input box's caret, after the displayed edit buffer.
    pub fn input_caret_offset(&self) -> (r: usize)
        ensures
            r == caret_after_spec(display_width(self@.input) as int),
    {
        caret_after(str_width(self.input.as_str()))
    }
}

/// Title of the list view: the name of the selected list.
pub fn get_title(app: &App) -> (r: String)
    ensures
        r@ == (match app@.lists.target {
            TargetMode::Daily => "Daily"@,
            TargetMode::LongTerm => "Long Term"@,
        }),
{
    match app.target_mode() {
        TargetMode::Daily => String::from_str("Daily"),
        TargetMode::LongTerm => String::from_str("Long Term"),
    }
}

} // verus!

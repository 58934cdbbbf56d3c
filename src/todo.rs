//! Todo entries and the collection of two lists ("daily" and "long term")
//! with a selector naming the list that row-indexed operations target.

use vstd::prelude::*;
use vstd::string::*;
use crate::text::push_char;

verus! {

/// Completion status of an entry.
#[derive(Clone, Copy, Debug, PartialEq, Eq, Structural)]
pub enum Status {
    Todo,
    Done,
}

/// Which of the two lists is addressed by the cursor and by edits.
#[derive(Clone, Copy, Debug, PartialEq, Eq, Structural)]
pub enum TargetMode {
    Daily,
    LongTerm,
}

/// Error of a row-indexed list operation given a row past the end.
#[derive(Clone, Copy, Debug, PartialEq, Eq, Structural)]
pub enum TodoError {
    IndexOutOfRange,
}

/// One todo entry: its text and its status.
pub struct TodoData {
    pub message: String,
    pub status: Status,
}

/// Mathematical model of an entry.
pub struct EntryView {
    pub text: Seq<char>,
    pub status: Status,
}

impl View for TodoData {
    type V = EntryView;

    open spec fn view(&self) -> EntryView {
        EntryView { text: self.message@, status: self.status }
    }
}

/// The entry a fresh line starts as: empty text, not done.
pub open spec fn empty_entry() -> EntryView {
    EntryView { text: Seq::empty(), status: Status::Todo }
}

/// The models of a sequence of entries.
pub open spec fn entries_view(v: Seq<TodoData>) -> Seq<EntryView> {
    v.map_values(|e: TodoData| e@)
}

/// The other list.
pub open spec fn toggled(t: TargetMode) -> TargetMode {
    match t {
        TargetMode::Daily => TargetMode::LongTerm,
        TargetMode::LongTerm => TargetMode::Daily,
    }
}

impl Default for TodoData {
    fn default() -> (r: TodoData)
        ensures
            r@ == empty_entry(),
    {
        TodoData::new()
    }
}

/// Marker shown before an entry: `#` for a pending one, `*` for a done one.
pub open spec fn marker_of(s: Status) -> char {
    match s {
        Status::Todo => '#',
        Status::Done => '*',
    }
}

/// The marker of a status.
pub fn status_marker(s: Status) -> (r: char)
    ensures
        r == marker_of(s),
{
    match s {
        Status::Todo => '#',
        Status::Done => '*',
    }
}

impl TodoData {
    /// A fresh entry: empty text, status `Todo`.
    pub fn new() -> (r: TodoData)
        ensures
            r@ == empty_entry(),
    {
        TodoData { message: String::new(), status: Status::Todo }
    }

    /// An entry with the given text and status.
    pub fn with_text(message: String, status: Status) -> (r: TodoData)
        ensures
            r@ == (EntryView { text: message@, status }),
    {
        TodoData { message, status }
    }

    /// The line shown for this entry: its status marker, a space, its text.
    pub fn display_line(&self) -> (r: String)
        ensures
            r@ == seq![marker_of(self.status), ' '] + self.message@,
    {
        let mut r = String::new();
        push_char(&mut r, status_marker(self.status));
        push_char(&mut r, ' ');
        r.append(self.message.as_str());
        assert(r@ =~= seq![marker_of(self.status), ' '] + self.message@);
        r
    }
}


/// The two lists of entries and the selector. Neither list is ever empty.
pub struct TodoLists {
    daily: Vec<TodoData>,
    long_term: Vec<TodoData>,
    target: TargetMode,
}

/// Mathematical model of the collection.
pub struct ListsView {
    pub target: TargetMode,
    pub daily: Seq<EntryView>,
    pub long_term: Seq<EntryView>,
}

impl ListsView {
    /// The list the selector names.
    pub open spec fn active(self) -> Seq<EntryView> {
        match self.target {
            TargetMode::Daily => self.daily,
            TargetMode::LongTerm => self.long_term,
        }
    }

    /// The same collection with the selected list replaced by `l`.
    pub open spec fn with_active(self, l: Seq<EntryView>) -> ListsView {
        match self.target {
            TargetMode::Daily => ListsView { daily: l, ..self },
            TargetMode::LongTerm => ListsView { long_term: l, ..self },
        }
    }

    /// Neither list is empty.
    pub open spec fn wf(self) -> bool {
        self.daily.len() >= 1 && self.long_term.len() >= 1
    }
}

/// What the active list becomes when the entry at `row` is removed: a list
/// left empty gets one fresh entry.
pub open spec fn removed(l: Seq<EntryView>, row: int) -> Seq<EntryView> {
    if l.len() == 1 {
        seq![empty_entry()]
    } else {
        l.remove(row)
    }
}

/// A list as loaded in bulk: an empty one gets one fresh entry.
pub open spec fn loaded(l: Seq<EntryView>) -> Seq<EntryView> {
    if l.len() == 0 {
        seq![empty_entry()]
    } else {
        l
    }
}

impl View for TodoLists {
    type V = ListsView;

    closed spec fn view(&self) -> ListsView {
        ListsView {
            target: self.target,
            daily: entries_view(self.daily@),
            long_term: entries_view(self.long_term@),
        }
    }
}

impl TodoLists {
    /// Two lists of one fresh entry each, the daily list selected.
    pub fn new() -> (r: TodoLists)
        ensures
            r@.target == TargetMode::Daily,
            r@.daily == seq![empty_entry()],
            r@.long_term == seq![empty_entry()],
            r@.wf(),
    {
        let r = TodoLists {
            daily: vec![TodoData::new()],
            long_term: vec![TodoData::new()],
            target: TargetMode::Daily,
        };
        assert(r@.daily =~= seq![empty_entry()]);
        assert(r@.long_term =~= seq![empty_entry()]);
        r
    }

    /// Bulk load of the two lists, the daily list selected. A list given empty
    /// starts with one fresh entry.
    pub fn from_lists(daily: Vec<TodoData>, long_term: Vec<TodoData>) -> (r: TodoLists)
        ensures
            r@.target == TargetMode::Daily,
            r@.daily == loaded(entries_view(daily@)),
            r@.long_term == loaded(entries_view(long_term@)),
            r@.wf(),
    {
        let mut daily = daily;
        let mut long_term = long_term;
        if daily.len() == 0 {
            daily.push(TodoData::new());
            assert(entries_view(daily@) =~= seq![empty_entry()]);
        }
        if long_term.len() == 0 {
            long_term.push(TodoData::new());
            assert(entries_view(long_term@) =~= seq![empty_entry()]);
        }
        TodoLists { daily, long_term, target: TargetMode::Daily }
    }

    /// The selector.
    pub fn target(&self) -> (r: TargetMode)
        ensures
            r == self@.target,
    {
        self.target
    }

    /// Read view of the active list.
    pub fn get_messages(&self) -> (r: &Vec<TodoData>)
        ensures
            entries_view(r@) == self@.active(),
    {
        match self.target {
            TargetMode::Daily => &self.daily,
            TargetMode::LongTerm => &self.long_term,
        }
    }

    /// The one path by which the active list is changed.
    fn get_messages_mut(&mut self) -> (r: &mut Vec<TodoData>)
        ensures
            entries_view(r@) == old(self)@.active(),
            final(self)@ == old(self)@.with_active(entries_view(final(r)@)),
    {
        match self.target {
            TargetMode::Daily => &mut self.daily,
            TargetMode::LongTerm => &mut self.long_term,
        }
    }

    /// Appends `entry` to the active list.
    pub fn push(&mut self, entry: TodoData)
        requires
            old(self)@.wf(),
        ensures
            final(self)@ == old(self)@.with_active(old(self)@.active().push(entry@)),
            final(self)@.wf(),
    {
        let ghost e = entry@;
        let l = self.get_messages_mut();
        let ghost before = l@;
        l.push(entry);
        assert(entries_view(l@) =~= entries_view(before).push(e));
    }

    /// Removes the entry at `row` of the active list; a list left empty gets
    /// one fresh entry. A row past the end is refused and nothing changes.
    pub fn remove(&mut self, row: usize) -> (r: Result<(), TodoError>)
        requires
            old(self)@.wf(),
        ensures
            r is Ok <==> row < old(self)@.active().len(),
            r is Ok ==> final(self)@ == old(self)@.with_active(
                removed(old(self)@.active(), row as int),
            ),
            r is Err ==> r == Err::<(), TodoError>(TodoError::IndexOutOfRange) && final(self)@
                == old(self)@,
            final(self)@.wf(),
    {
        let l = self.get_messages_mut();
        if row >= l.len() {
            return Err(TodoError::IndexOutOfRange);
        }
        let ghost before = l@;
        let _ = l.remove(row);
        if l.len() == 0 {
            l.push(TodoData::new());
            assert(entries_view(l@) =~= seq![empty_entry()]);
        } else {
            assert(entries_view(l@) =~= entries_view(before).remove(row as int));
        }
        Ok(())
    }

    /// Sets the status of the entry at `row` of the active list.
    pub fn set_status(&mut self, row: usize, status: Status) -> (r: Result<(), TodoError>)
        requires
            old(self)@.wf(),
        ensures
            r is Ok <==> row < old(self)@.active().len(),
            r is Ok ==> final(self)@ == old(self)@.with_active(
                old(self)@.active().update(
                    row as int,
                    EntryView { status, ..old(self)@.active()[row as int] },
                ),
            ),
            r is Err ==> r == Err::<(), TodoError>(TodoError::IndexOutOfRange) && final(self)@
                == old(self)@,
            final(self)@.wf(),
    {
        let l = self.get_messages_mut();
        if row >= l.len() {
            return Err(TodoError::IndexOutOfRange);
        }
        let ghost before = l@;
        let text = l[row].message.clone();
        l.set(row, TodoData { message: text, status });
        assert(entries_view(l@) =~= entries_view(before).update(
            row as int,
            EntryView { status, ..entries_view(before)[row as int] },
        ));
        Ok(())
    }

    /// Replaces the text of the entry at `row` of the active list.
    pub fn set_text(&mut self, row: usize, text: String) -> (r: Result<(), TodoError>)
        requires
            old(self)@.wf(),
        ensures
            r is Ok <==> row < old(self)@.active().len(),
            r is Ok ==> final(self)@ == old(self)@.with_active(
                old(self)@.active().update(
                    row as int,
                    EntryView { text: text@, ..old(self)@.active()[row as int] },
                ),
            ),
            r is Err ==> r == Err::<(), TodoError>(TodoError::IndexOutOfRange) && final(self)@
                == old(self)@,
            final(self)@.wf(),
    {
        let ghost t = text@;
        let l = self.get_messages_mut();
        if row >= l.len() {
            return Err(TodoError::IndexOutOfRange);
        }
        let ghost before = l@;
        let status = l[row].status;
        l.set(row, TodoData { message: text, status });
        assert(entries_view(l@) =~= entries_view(before).update(
            row as int,
            EntryView { text: t, ..entries_view(before)[row as int] },
        ));
        Ok(())
    }

    /// Selects the other list; the lists themselves are left as they are.
    pub fn switch(&mut self)
        requires
            old(self)@.wf(),
        ensures
            final(self)@ == (ListsView { target: toggled(old(self)@.target), ..old(self)@ }),
            final(self)@.wf(),
    {
        self.target = match self.target {
            TargetMode::Daily => TargetMode::LongTerm,
            TargetMode::LongTerm => TargetMode::Daily,
        };
    }
}

} // verus!

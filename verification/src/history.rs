//! The history of an input prompt and the cursor that edits a line and walks
//! through the earlier ones.

use std::borrow::Cow;
use vstd::prelude::*;
use crate::model::{erased, replaced, typed, well_formed, CursorState, Line, Session};
use crate::store::{lines_of, LineHistory};

verus! {

/// The history of an input prompt, which lives as long as the application.
/// Each line is entered through a cursor made by [`InputHistory::make_ref`].
pub struct InputHistory {
    lines: LineHistory,
}

impl InputHistory {
    /// The lines, oldest first.
    pub closed spec fn entries(&self) -> Seq<Line> {
        self.lines.entries()
    }

    /// The largest number of lines the history keeps.
    pub closed spec fn capacity(&self) -> nat {
        self.lines.capacity()
    }

    /// An empty history that keeps at most `max_history` lines. With
    /// `max_history == 0` it keeps none, and its cursors only hold the line
    /// being typed.
    pub fn new(max_history: usize) -> (history: InputHistory)
        ensures
            history.entries() == Seq::<Line>::empty(),
            history.capacity() == max_history,
            well_formed(history.entries(), history.capacity()),
    {
        InputHistory { lines: LineHistory::new(max_history) }
    }

    /// A copy of the lines, oldest first. There are at most as many as the
    /// history keeps, and no two of them are equal.
    pub fn lines(&self) -> (lines: Vec<String>)
        ensures
            lines_of(lines@) == self.entries(),
            well_formed(self.entries(), self.capacity()),
    {
        self.lines.lines()
    }

    /// The largest number of lines the history keeps.
    pub fn max_history(&self) -> (capacity: usize)
        ensures
            capacity == self.capacity(),
    {
        self.lines.max_history()
    }

    /// Makes the cursor of a new prompt, which holds `init_query` as the line
    /// being typed if there is one.
    pub fn make_ref(&self, init_query: Option<String>) -> (cursor: InputHistoryRef)
        ensures
            cursor@ == replaced(line_of(init_query)),
            cursor.no_history() == (self.capacity() == 0),
            cursor.session(self).well_formed(),
    {
        proof {
            use_type_invariant(&self.lines);
        }
        let mut result = InputHistoryRef {
            current: HistoryPos::Nothing,
            no_history: self.lines.max_history() == 0,
        };
        result.set_current(init_query);
        result
    }
}

/// What a cursor holds.
enum HistoryPos {
    /// No active input string.
    Nothing,
    /// The currently active input string.
    Str(String),
    /// The position in the line history.
    Pos(isize),
}

/// The cursor of one prompt over an [`InputHistory`]. It holds the line that
/// is being typed, or a position among the earlier lines, and enters its line
/// into the history when it is cleared.
pub struct InputHistoryRef {
    current: HistoryPos,
    no_history: bool,
}

impl View for InputHistoryRef {
    type V = CursorState;

    closed spec fn view(&self) -> CursorState {
        match self.current {
            HistoryPos::Nothing => CursorState::Empty,
            HistoryPos::Str(s) => CursorState::Editing(s@),
            HistoryPos::Pos(pos) => CursorState::Navigating(pos as int),
        }
    }
}

/// The characters of an optional line.
pub open spec fn line_of(line: Option<String>) -> Option<Line> {
    match line {
        Some(text) => Some(text@),
        None => None,
    }
}

/// The characters of an optional line that may be borrowed.
pub open spec fn text_of(line: Option<Cow<str>>) -> Option<Line> {
    match line {
        Some(text) => Some(text@),
        None => None,
    }
}

impl InputHistoryRef {
    /// Whether the cursor was made for a history that keeps no lines.
    pub closed spec fn no_history(&self) -> bool {
        self.no_history
    }

    /// The cursor together with `history`.
    pub open spec fn session(&self, history: &InputHistory) -> Session {
        Session {
            state: self@,
            no_history: self.no_history(),
            entries: history.entries(),
            capacity: history.capacity(),
        }
    }

    /// What Verus holds every cursor to: one made for a history that keeps
    /// no lines never stands at a position.
    #[verifier::type_invariant]
    pub open spec fn inv(&self) -> bool {
        self.no_history() ==> !(self@ is Navigating)
    }

    /// The position in the history at which the cursor stands, if it stands
    /// at one.
    pub fn position(&self) -> (position: Option<isize>)
        ensures
            match position {
                Some(position) => self@ == CursorState::Navigating(position as int),
                None => !(self@ is Navigating),
            },
    {
        match self.current {
            HistoryPos::Pos(pos) => Some(pos),
            _ => None,
        }
    }

    /// Replaces the line entirely. The old one is discarded and does not
    /// reach the history.
    pub fn set_current(&mut self, current: Option<String>)
        ensures
            final(self)@ == replaced(line_of(current)),
            final(self).no_history() == old(self).no_history(),
    {
        if let Some(s) = current {
            self.current = HistoryPos::Str(s);
        } else {
            self.current = HistoryPos::Nothing;
        }
    }

    /// Types a character and returns the line as it now stands. A position in
    /// the history is given up for a new line that starts with the character.
    pub fn push_char(&mut self, c: char) -> (line: &String)
        ensures
            final(self)@ == typed(old(self)@, c),
            final(self)@ == CursorState::Editing(line@),
            final(self).no_history() == old(self).no_history(),
    {
        let mut tmp = HistoryPos::Nothing;
        std::mem::swap(&mut tmp, &mut self.current);
        let mut text = match tmp {
            HistoryPos::Str(s) => s,
            _ => String::new(),
        };
        text.push(c);
        self.current = HistoryPos::Str(text);
        match &self.current {
            HistoryPos::Str(s) => s,
            _ => unreached(),
        }
    }

    /// Deletes the last character of the line being typed and returns the
    /// line as it now stands; it may become empty. Without a line being
    /// typed nothing changes and `None` is returned.
    pub fn pop_char(&mut self) -> (line: Option<&String>)
        ensures
            final(self)@ == erased(old(self)@),
            match line {
                Some(s) => final(self)@ == CursorState::Editing(s@),
                None => !(old(self)@ is Editing),
            },
            final(self).no_history() == old(self).no_history(),
            final(self).no_history() ==> !(final(self)@ is Navigating),
    {
        proof {
            use_type_invariant(&*self);
        }
        let mut tmp = HistoryPos::Nothing;
        std::mem::swap(&mut tmp, &mut self.current);
        match tmp {
            HistoryPos::Str(s) => {
                let mut text = s;
                text.pop();
                self.current = HistoryPos::Str(text);
            },
            other => {
                self.current = other;
            },
        }
        match &self.current {
            HistoryPos::Str(s) => Some(s),
            _ => None,
        }
    }

    /// Clears the cursor and enters the line it showed into `history`: the
    /// line being typed, or the line at the cursor's position. A cursor made
    /// for a history that keeps no lines only forgets its line.
    pub fn clear(&mut self, history: &mut InputHistory)
        ensures
            final(self).session(final(history)) == old(self).session(old(history)).cleared(),
            final(self).session(final(history)).well_formed(),
    {
        proof {
            use_type_invariant(&history.lines);
        }
        if self.no_history {
            self.current = HistoryPos::Nothing;
            return ;
        }
        let mut tmp = HistoryPos::Nothing;
        std::mem::swap(&mut tmp, &mut self.current);
        match tmp {
            HistoryPos::Nothing => {},
            HistoryPos::Str(s) => {
                history.lines.add(s);
            },
            HistoryPos::Pos(pos) => {
                let found = match history.lines.get(pos) {
                    Some(s) => Some(s.clone()),
                    None => None,
                };
                if let Some(s) = found {
                    history.lines.add(s);
                }
            },
        }
        proof {
            use_type_invariant(&history.lines);
        }
    }

    /// The line the prompt shows: the line being typed, or the line of
    /// `history` at the cursor's position.
    pub fn as_ref<'a>(&'a self, history: &InputHistory) -> (shown: Option<Cow<'a, str>>)
        ensures
            text_of(shown) == self.session(history).shown(),
            self.no_history() ==> text_of(shown) == match self@ {
                CursorState::Editing(text) => Some(text),
                _ => None,
            },
    {
        proof {
            use_type_invariant(self);
        }
        match &self.current {
            HistoryPos::Nothing => None,
            HistoryPos::Str(s) => Some(Cow::Borrowed(s.as_str())),
            HistoryPos::Pos(pos) => match history.lines.get(*pos) {
                Some(s) => Some(Cow::Owned(s.clone())),
                None => None,
            },
        }
    }

    /// Steps to the previous, older line of `history` and returns the line
    /// now shown. A line being typed is entered into the history first. The
    /// cursor must not stand at the largest position an `isize` can hold.
    pub fn move_to_prev<'a>(
        &'a mut self,
        history: &mut InputHistory,
    ) -> (shown: Option<Cow<'a, str>>)
        requires
            old(self)@ matches CursorState::Navigating(position) ==> position < isize::MAX,
        ensures
            final(self).session(final(history)) == old(self).session(old(history)).moved_to_prev(),
            final(self).session(final(history)).well_formed(),
            text_of(shown) == final(self).session(final(history)).shown(),
    {
        proof {
            use_type_invariant(&*self);
            use_type_invariant(&history.lines);
        }
        if self.no_history {
            return self.as_ref(history);
        }
        let mut tmp = HistoryPos::Nothing;
        std::mem::swap(&mut tmp, &mut self.current);
        match tmp {
            HistoryPos::Nothing => {
                self.current = HistoryPos::Pos(1);
            },
            HistoryPos::Str(s) => {
                history.lines.add(s);
                self.current = HistoryPos::Pos(2);
            },
            HistoryPos::Pos(pos) => {
                self.current = HistoryPos::Pos(pos + 1);
            },
        }
        self.as_ref(history)
    }

    /// Steps to the next, newer line of `history` and returns the line now
    /// shown. A line being typed is entered into the history first, and the
    /// prompt is then blank. The cursor must not stand at the smallest
    /// position an `isize` can hold.
    pub fn move_to_next<'a>(
        &'a mut self,
        history: &mut InputHistory,
    ) -> (shown: Option<Cow<'a, str>>)
        requires
            old(self)@ matches CursorState::Navigating(position) ==> position > isize::MIN,
        ensures
            final(self).session(final(history)) == old(self).session(old(history)).moved_to_next(),
            final(self).session(final(history)).well_formed(),
            text_of(shown) == final(self).session(final(history)).shown(),
    {
        proof {
            use_type_invariant(&*self);
            use_type_invariant(&history.lines);
        }
        if self.no_history {
            return self.as_ref(history);
        }
        let mut tmp = HistoryPos::Nothing;
        std::mem::swap(&mut tmp, &mut self.current);
        match tmp {
            HistoryPos::Nothing => {
                self.current = HistoryPos::Pos(-1);
            },
            HistoryPos::Str(s) => {
                history.lines.add(s);
                self.current = HistoryPos::Pos(0);
            },
            HistoryPos::Pos(pos) => {
                self.current = HistoryPos::Pos(pos - 1);
            },
        }
        self.as_ref(history)
    }
}

} // verus!

//! The mathematical model: a history is a sequence of lines, oldest first; a
//! cursor is empty, holds a line being typed, or stands at an offset into the
//! history; a session is the two together.

use vstd::prelude::*;

verus! {

/// A line of text, as its characters.
pub type Line = Seq<char>;

/// What every history satisfies: it holds at most `capacity` lines and no line
/// twice.
pub open spec fn well_formed(entries: Seq<Line>, capacity: nat) -> bool {
    &&& entries.len() <= capacity
    &&& entries.no_duplicates()
}

/// The history after `text` was entered.
///
/// A line that is already present moves to the newest place. A new line is
/// appended, and if the history was full its oldest line leaves first. A
/// history of capacity zero never holds anything.
pub open spec fn inserted(entries: Seq<Line>, capacity: nat, text: Line) -> Seq<Line> {
    if capacity == 0 {
        entries
    } else if entries.contains(text) {
        entries.remove(entries.index_of(text)).push(text)
    } else if entries.len() >= capacity {
        entries.drop_first().push(text)
    } else {
        entries.push(text)
    }
}

/// The history after each of `texts` was entered, the first of them first.
pub open spec fn inserted_all(entries: Seq<Line>, capacity: nat, texts: Seq<Line>) -> Seq<Line>
    decreases texts.len(),
{
    if texts.len() == 0 {
        entries
    } else {
        inserted(inserted_all(entries, capacity, texts.drop_last()), capacity, texts.last())
    }
}

/// The line that a signed offset selects, if any.
///
/// The offsets form a cycle of `entries.len() + 1` places: the lines and one
/// blank place between the newest and the oldest. Positive offsets count back
/// from the newest line (1 is the newest), negative offsets count forward from
/// the oldest (-1 is the oldest), and every multiple of the cycle's length,
/// zero included, is the blank place.
pub open spec fn lookup(entries: Seq<Line>, position: int) -> Option<Line> {
    let cycle = entries.len() as int + 1;
    if position > 0 {
        let place = position % cycle;
        if place == 0 {
            None
        } else {
            Some(entries[entries.len() - place])
        }
    } else if position < 0 {
        let place = (-position) % cycle;
        if place == 0 {
            None
        } else {
            Some(entries[place - 1])
        }
    } else {
        None
    }
}

/// What a cursor holds: nothing, a line that is being typed, or an offset into
/// the history.
pub enum CursorState {
    /// No line is shown and none is being typed.
    Empty,
    /// The line typed so far, which the history does not hold yet.
    Editing(Line),
    /// An offset into the cycle of the history's lines; see [`lookup`].
    Navigating(int),
}

/// The state after a character was typed: it extends the line being typed,
/// and otherwise starts a new line.
pub open spec fn typed(state: CursorState, c: char) -> CursorState {
    match state {
        CursorState::Editing(text) => CursorState::Editing(text.push(c)),
        _ => CursorState::Editing(seq![c]),
    }
}

/// A line without its last character; the empty line stays empty.
pub open spec fn shortened(text: Line) -> Line {
    if text.len() > 0 {
        text.drop_last()
    } else {
        text
    }
}

/// The state after the last character was deleted: only a line being typed
/// changes.
pub open spec fn erased(state: CursorState) -> CursorState {
    match state {
        CursorState::Editing(text) => CursorState::Editing(shortened(text)),
        other => other,
    }
}

/// The state after the line was replaced, or withdrawn with `None`.
pub open spec fn replaced(text: Option<Line>) -> CursorState {
    match text {
        Some(text) => CursorState::Editing(text),
        None => CursorState::Empty,
    }
}

/// A cursor together with the history it works on.
pub struct Session {
    /// What the cursor holds.
    pub state: CursorState,
    /// Whether the cursor was made for a history that keeps no lines.
    pub no_history: bool,
    /// The history's lines, oldest first.
    pub entries: Seq<Line>,
    /// The largest number of lines the history keeps.
    pub capacity: nat,
}

impl Session {
    /// What every session satisfies: the history is well formed, and a cursor
    /// made for a history that keeps no lines never holds a position.
    pub open spec fn well_formed(self) -> bool {
        &&& well_formed(self.entries, self.capacity)
        &&& self.no_history ==> !(self.state is Navigating)
    }

    /// The line the prompt shows: the line being typed, or the line of the
    /// history that the position selects.
    pub open spec fn shown(self) -> Option<Line> {
        match self.state {
            CursorState::Empty => None,
            CursorState::Editing(text) => Some(text),
            CursorState::Navigating(position) => lookup(self.entries, position),
        }
    }

    /// The history after the shown line, if there is one, was entered.
    pub open spec fn committed(self) -> Seq<Line> {
        match self.shown() {
            Some(text) => inserted(self.entries, self.capacity, text),
            None => self.entries,
        }
    }

    /// The session after the cursor was cleared: the shown line has entered
    /// the history, unless the cursor was made without one, and the cursor is
    /// empty.
    pub open spec fn cleared(self) -> Session {
        Session {
            state: CursorState::Empty,
            entries: if self.no_history {
                self.entries
            } else {
                self.committed()
            },
            ..self
        }
    }

    /// The session after a step towards the older lines. An empty cursor
    /// lands on the newest line. A line being typed is entered first, and
    /// the cursor lands on the second newest line, past the line it has just
    /// entered. A cursor made without a history does not move.
    pub open spec fn moved_to_prev(self) -> Session {
        if self.no_history {
            self
        } else {
            match self.state {
                CursorState::Empty => Session { state: CursorState::Navigating(1), ..self },
                CursorState::Editing(text) => Session {
                    state: CursorState::Navigating(2),
                    entries: inserted(self.entries, self.capacity, text),
                    ..self
                },
                CursorState::Navigating(position) => Session {
                    state: CursorState::Navigating(position + 1),
                    ..self
                },
            }
        }
    }

    /// The session after a step towards the newer lines. An empty cursor
    /// lands on the oldest line. A line being typed is entered first, and
    /// the cursor lands on the blank place. A cursor made without a history
    /// does not move.
    pub open spec fn moved_to_next(self) -> Session {
        if self.no_history {
            self
        } else {
            match self.state {
                CursorState::Empty => Session { state: CursorState::Navigating(-1), ..self },
                CursorState::Editing(text) => Session {
                    state: CursorState::Navigating(0),
                    entries: inserted(self.entries, self.capacity, text),
                    ..self
                },
                CursorState::Navigating(position) => Session {
                    state: CursorState::Navigating(position - 1),
                    ..self
                },
            }
        }
    }

    /// The session after `times` steps towards the older lines.
    pub open spec fn stepped_back(self, times: nat) -> Session
        decreases times,
    {
        if times == 0 {
            self
        } else {
            self.stepped_back((times - 1) as nat).moved_to_prev()
        }
    }

    /// The session after `times` steps towards the newer lines.
    pub open spec fn stepped_forward(self, times: nat) -> Session
        decreases times,
    {
        if times == 0 {
            self
        } else {
            self.stepped_forward((times - 1) as nat).moved_to_next()
        }
    }
}

} // verus!

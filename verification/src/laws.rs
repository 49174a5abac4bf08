//! What holds of every history and every cursor, proved from the model.

use vstd::prelude::*;
use vstd::arithmetic::div_mod::{lemma_mod_add_multiples_vanish, lemma_small_mod};
use crate::model::{
    erased, inserted, inserted_all, lookup, replaced, typed, well_formed, CursorState, Line,
    Session,
};

verus! {

/// In a sequence without duplicates, `index_of` finds the one place where an
/// element stands.
pub proof fn lemma_index_of_unique(entries: Seq<Line>, at: int)
    requires
        entries.no_duplicates(),
        0 <= at < entries.len(),
    ensures
        entries.index_of(entries[at]) == at,
{
}

/// Entering a line keeps a history within its capacity and free of
/// duplicates.
pub proof fn lemma_inserted_well_formed(entries: Seq<Line>, capacity: nat, text: Line)
    requires
        well_formed(entries, capacity),
    ensures
        well_formed(inserted(entries, capacity, text), capacity),
{
}

/// Whatever lines are entered into an empty history, and in whatever order,
/// it never holds more lines than its capacity and never holds a line twice.
pub proof fn lemma_inserted_all_well_formed(capacity: nat, texts: Seq<Line>)
    ensures
        well_formed(inserted_all(Seq::empty(), capacity, texts), capacity),
    decreases texts.len(),
{
    if texts.len() > 0 {
        lemma_inserted_all_well_formed(capacity, texts.drop_last());
        lemma_inserted_well_formed(
            inserted_all(Seq::empty(), capacity, texts.drop_last()),
            capacity,
            texts.last(),
        );
    }
}

/// Entering a line that the history holds moves it to the newest place: the
/// history keeps its length, the other lines keep their order, and no line
/// leaves.
pub proof fn lemma_promotion(entries: Seq<Line>, capacity: nat, text: Line)
    requires
        capacity > 0,
        entries.contains(text),
    ensures
        inserted(entries, capacity, text).len() == entries.len(),
        inserted(entries, capacity, text).last() == text,
        inserted(entries, capacity, text).drop_last() == entries.remove(entries.index_of(text)),
        forall|line: Line|
            inserted(entries, capacity, text).contains(line) <==> entries.contains(line),
{
    let at = entries.index_of(text);
    let after = inserted(entries, capacity, text);
    assert forall|line: Line| entries.contains(line) implies after.contains(line) by {
        let i = choose|i: int| 0 <= i < entries.len() && entries[i] == line;
        if i < at {
            assert(after[i] == line);
        } else if i == at {
            assert(after[after.len() - 1] == line);
        } else {
            assert(after[i - 1] == line);
        }
    }
}

/// Entering a new line into a full history evicts the oldest line and no
/// other: every later line moves one place towards the oldest, and the new
/// line is the newest.
pub proof fn lemma_eviction(entries: Seq<Line>, capacity: nat, text: Line)
    requires
        well_formed(entries, capacity),
        capacity > 0,
        entries.len() == capacity,
        !entries.contains(text),
    ensures
        inserted(entries, capacity, text).len() == capacity,
        inserted(entries, capacity, text).last() == text,
        !inserted(entries, capacity, text).contains(entries[0]),
        forall|i: int|
            1 <= i < entries.len() ==> inserted(entries, capacity, text)[i - 1] == entries[i],
{
}

/// Entering a new line into a history with room appends it and keeps every
/// line.
pub proof fn lemma_append(entries: Seq<Line>, capacity: nat, text: Line)
    requires
        entries.len() < capacity,
        !entries.contains(text),
    ensures
        inserted(entries, capacity, text) == entries.push(text),
{
}

/// A history of capacity zero is empty and stays so, whatever is entered.
pub proof fn lemma_zero_capacity(entries: Seq<Line>, text: Line)
    requires
        well_formed(entries, 0),
    ensures
        entries.len() == 0,
        inserted(entries, 0, text) == entries,
{
}

/// The offsets 1, 2, .. count back from the newest line to the oldest, the
/// offsets -1, -2, .. count forward from the oldest line to the newest, and
/// one step beyond either end lies the blank place.
pub proof fn lemma_lookup_within(entries: Seq<Line>, place: int)
    requires
        1 <= place <= entries.len() + 1,
    ensures
        place <= entries.len() ==> lookup(entries, place) == Some(entries[entries.len() - place]),
        place <= entries.len() ==> lookup(entries, -place) == Some(entries[place - 1]),
        place == entries.len() + 1 ==> lookup(entries, place) is None,
        place == entries.len() + 1 ==> lookup(entries, -place) is None,
{
    let cycle = entries.len() as int + 1;
    if place <= entries.len() {
        lemma_small_mod(place as nat, cycle as nat);
    } else {
        lemma_mod_add_multiples_vanish(0, cycle);
    }
}

/// A lookup finds nothing but lines of the history.
pub proof fn lemma_lookup_finds_entry(entries: Seq<Line>, position: int)
    ensures
        lookup(entries, position) matches Some(line) ==> entries.contains(line),
{
}

/// The offsets are cyclic: a whole turn of `entries.len() + 1` places away
/// from zero selects the same line.
pub proof fn lemma_lookup_cyclic(entries: Seq<Line>, position: int)
    ensures
        position > 0 ==> lookup(entries, position + entries.len() + 1) == lookup(
            entries,
            position,
        ),
        position < 0 ==> lookup(entries, position - entries.len() - 1) == lookup(
            entries,
            position,
        ),
{
    let cycle = entries.len() as int + 1;
    if position > 0 {
        lemma_mod_add_multiples_vanish(position, cycle);
    } else if position < 0 {
        lemma_mod_add_multiples_vanish(-position, cycle);
    }
}

/// Stepping back `times` times from an empty cursor leaves the history as it
/// is and shows the line `times` places back in the cycle: the newest line
/// first, the oldest after as many steps as there are lines, then nothing,
/// then the newest line again.
pub proof fn lemma_steps_back(session: Session, times: nat)
    requires
        session.state == CursorState::Empty,
        !session.no_history,
        times > 0,
    ensures
        session.stepped_back(times) == (Session {
            state: CursorState::Navigating(times as int),
            ..session
        }),
        session.stepped_back(times).shown() == ({
            let place = times as int % (session.entries.len() as int + 1);
            if place == 0 {
                None
            } else {
                Some(session.entries[session.entries.len() - place])
            }
        }),
    decreases times,
{
    reveal_with_fuel(Session::stepped_back, 2);
    if times > 1 {
        lemma_steps_back(session, (times - 1) as nat);
    }
}

/// Stepping forward `times` times from an empty cursor leaves the history as
/// it is and shows the line `times` places forward in the cycle: the oldest
/// line first, the newest after as many steps as there are lines, then
/// nothing, then the oldest line again.
pub proof fn lemma_steps_forward(session: Session, times: nat)
    requires
        session.state == CursorState::Empty,
        !session.no_history,
        times > 0,
    ensures
        session.stepped_forward(times) == (Session {
            state: CursorState::Navigating(-(times as int)),
            ..session
        }),
        session.stepped_forward(times).shown() == ({
            let place = times as int % (session.entries.len() as int + 1);
            if place == 0 {
                None
            } else {
                Some(session.entries[place - 1])
            }
        }),
    decreases times,
{
    reveal_with_fuel(Session::stepped_forward, 2);
    if times > 1 {
        lemma_steps_forward(session, (times - 1) as nat);
    }
}

/// Typing at a position in the history gives the position up for a line of
/// the one character; the state of the cursor alone changes.
pub proof fn lemma_typing_leaves_position(position: int, c: char)
    ensures
        typed(CursorState::Navigating(position), c) == CursorState::Editing(seq![c]),
{
}

/// Deleting a character changes nothing unless a line is being typed.
pub proof fn lemma_erasing_needs_line(state: CursorState)
    requires
        !(state is Editing),
    ensures
        erased(state) == state,
{
}

/// Stepping away from a line being typed enters it as the newest line.
/// Stepping back then shows the line before it, if there is one, which for a
/// line that the history did not hold is the line that was the newest;
/// stepping forward shows nothing.
pub proof fn lemma_step_from_line(session: Session, text: Line)
    requires
        session.well_formed(),
        session.state == CursorState::Editing(text),
        !session.no_history,
        session.capacity > 0,
    ensures
        session.moved_to_prev().entries == inserted(session.entries, session.capacity, text),
        session.moved_to_next().entries == inserted(session.entries, session.capacity, text),
        session.moved_to_prev().entries.last() == text,
        session.moved_to_prev().shown() == ({
            let entries = session.moved_to_prev().entries;
            if entries.len() >= 2 {
                Some(entries[entries.len() - 2])
            } else {
                None
            }
        }),
        !session.entries.contains(text) && session.entries.len() > 0 && session.capacity >= 2
            ==> session.moved_to_prev().shown() == Some(session.entries.last()),
        session.moved_to_next().shown() is None,
{
    lemma_lookup_within(inserted(session.entries, session.capacity, text), 2);
}

/// Clearing a cursor enters its line once: the history then holds the line
/// in one place, the newest, and clearing again changes nothing.
pub proof fn lemma_clear_once(session: Session, text: Line)
    requires
        session.well_formed(),
        session.state == CursorState::Editing(text),
        !session.no_history,
        session.capacity > 0,
    ensures
        session.cleared().entries == inserted(session.entries, session.capacity, text),
        session.cleared().entries.last() == text,
        forall|i: int|
            0 <= i < session.cleared().entries.len() - 1 ==> session.cleared().entries[i] != text,
        session.cleared().cleared() == session.cleared(),
{
    lemma_inserted_well_formed(session.entries, session.capacity, text);
}

/// Clearing a cleared cursor changes nothing, whatever the cursor held.
pub proof fn lemma_clear_idempotent(session: Session)
    ensures
        session.cleared().state == CursorState::Empty,
        session.cleared().cleared() == session.cleared(),
{
}

/// Every operation keeps a session well formed.
pub proof fn lemma_session_well_formed(session: Session, c: char, text: Option<Line>)
    requires
        session.well_formed(),
    ensures
        (Session { state: replaced(text), ..session }).well_formed(),
        (Session { state: typed(session.state, c), ..session }).well_formed(),
        (Session { state: erased(session.state), ..session }).well_formed(),
        session.cleared().well_formed(),
        session.moved_to_prev().well_formed(),
        session.moved_to_next().well_formed(),
{
    match session.shown() {
        Some(line) => {
            lemma_inserted_well_formed(session.entries, session.capacity, line);
        },
        None => {},
    }
}

/// With a capacity of zero the history stays empty under every operation,
/// and the prompt shows the line being typed and nothing else.
pub proof fn lemma_session_without_history(session: Session)
    requires
        session.well_formed(),
        session.capacity == 0,
    ensures
        session.entries.len() == 0,
        session.cleared().entries == session.entries,
        session.moved_to_prev().entries == session.entries,
        session.moved_to_next().entries == session.entries,
        session.shown() == match session.state {
            CursorState::Editing(text) => Some(text),
            _ => None,
        },
{
}

} // verus!

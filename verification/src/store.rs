//! The store of entered lines.

use std::collections::VecDeque;
use vstd::prelude::*;
use crate::laws::{lemma_index_of_unique, lemma_inserted_well_formed};
use crate::model::{inserted, lookup, well_formed, Line};

verus! {

/// The characters of each line of a queue.
pub open spec fn lines_of(queue: Seq<String>) -> Seq<Line> {
    queue.map_values(|s: String| s@)
}

/// A queue of unique lines, oldest first, that drops its oldest line when a
/// new one would exceed the capacity and moves a line that is entered again to
/// the newest place.
pub struct LineHistory {
    lines: VecDeque<String>,
    max_history: usize,
}

impl LineHistory {
    /// The lines, oldest first.
    pub closed spec fn entries(&self) -> Seq<Line> {
        lines_of(self.lines@)
    }

    /// The largest number of lines the history keeps.
    pub closed spec fn capacity(&self) -> nat {
        self.max_history as nat
    }

    /// What Verus holds every history to: it is well formed.
    #[verifier::type_invariant]
    pub open spec fn inv(&self) -> bool {
        well_formed(self.entries(), self.capacity())
    }

    /// An empty history that keeps at most `max_history` lines.
    pub fn new(max_history: usize) -> (history: LineHistory)
        ensures
            history.entries() == Seq::<Line>::empty(),
            history.capacity() == max_history,
            well_formed(history.entries(), history.capacity()),
    {
        let history = LineHistory { lines: VecDeque::new(), max_history };
        history
    }

    /// The index of the line equal to `new_s`, if the history holds it.
    pub fn find_pos(&self, new_s: &String) -> (found: Option<usize>)
        ensures
            found is Some <==> self.entries().contains(new_s@),
            found matches Some(pos) ==> pos < self.entries().len() && self.entries()[pos as int]
                == new_s@,
    {
        let mut i: usize = 0;
        while i < self.lines.len()
            invariant
                i <= self.lines@.len(),
                forall|j: int| 0 <= j < i ==> self.entries()[j] != new_s@,
            decreases self.lines@.len() - i,
        {
            if self.lines[i] == *new_s {
                assert(self.entries()[i as int] == new_s@);
                return Some(i);
            }
            i += 1;
        }
        None
    }

    /// Enters `new_s`: a line that is already present moves to the newest
    /// place; a new line is appended, after the oldest line has left a full
    /// history. With a capacity of zero nothing changes.
    pub fn add(&mut self, new_s: String)
        ensures
            final(self).entries() == inserted(old(self).entries(), old(self).capacity(), new_s@),
            final(self).capacity() == old(self).capacity(),
            well_formed(final(self).entries(), final(self).capacity()),
    {
        proof {
            use_type_invariant(&*self);
        }
        if self.max_history == 0 {
            return ;
        }
        let ghost before = self.entries();
        let found = self.find_pos(&new_s);
        // The queue is edited outside the history, so that the history is
        // whole at every moment.
        let mut lines: VecDeque<String> = VecDeque::new();
        std::mem::swap(&mut lines, &mut self.lines);
        match found {
            Some(pos) => {
                proof {
                    lemma_index_of_unique(before, pos as int);
                }
                let s = lines.remove(pos).unwrap();
                lines.push_back(s);
                assert(lines_of(lines@) =~= before.remove(pos as int).push(new_s@));
            },
            None => {
                if lines.len() == self.max_history {
                    lines.pop_front();
                    assert(lines_of(lines@) =~= before.drop_first());
                }
                let ghost trimmed = lines_of(lines@);
                lines.push_back(new_s);
                assert(lines_of(lines@) =~= trimmed.push(new_s@));
            },
        }
        proof {
            lemma_inserted_well_formed(before, self.capacity(), new_s@);
        }
        self.lines = lines;
    }

    /// The line at a signed offset into the cycle of the lines and one blank
    /// place: 1 is the newest line, -1 the oldest, and 0 the blank place that
    /// lies between them.
    pub fn get(&self, pos: isize) -> (line: Option<&String>)
        ensures
            match line {
                Some(s) => lookup(self.entries(), pos as int) == Some(s@),
                None => lookup(self.entries(), pos as int) is None,
            },
    {
        let len: usize = self.lines.len();
        if len == 0 || pos == 0 {
            None
        } else if pos < 0 {
            let place: usize = place_in_cycle(magnitude(pos), len);
            if place == 0 {
                None
            } else {
                Some(&self.lines[place - 1])
            }
        } else {
            let place: usize = place_in_cycle(magnitude(pos), len);
            if place == 0 {
                None
            } else {
                Some(&self.lines[len - place])
            }
        }
    }

    /// The number of lines in the history.
    pub fn len(&self) -> (len: usize)
        ensures
            len == self.entries().len(),
            len <= self.capacity(),
    {
        proof {
            use_type_invariant(self);
        }
        self.lines.len()
    }

    /// The largest number of lines the history keeps.
    pub fn max_history(&self) -> (capacity: usize)
        ensures
            capacity == self.capacity(),
    {
        self.max_history
    }

    /// A copy of the lines, oldest first.
    pub fn lines(&self) -> (lines: Vec<String>)
        ensures
            lines_of(lines@) == self.entries(),
            well_formed(self.entries(), self.capacity()),
    {
        proof {
            use_type_invariant(self);
        }
        let mut lines: Vec<String> = Vec::new();
        let mut i: usize = 0;
        while i < self.lines.len()
            invariant
                i <= self.lines@.len(),
                lines@.len() == i,
                forall|j: int| 0 <= j < i ==> lines@[j]@ == self.lines@[j]@,
            decreases self.lines@.len() - i,
        {
            lines.push(self.lines[i].clone());
            i += 1;
        }
        lines
    }
}

/// The distance of an offset from zero.
fn magnitude(pos: isize) -> (distance: usize)
    ensures
        distance == if pos < 0 {
            -(pos as int)
        } else {
            pos as int
        },
{
    if pos >= 0 {
        pos as usize
    } else {
        // One less than the distance always fits in an `isize`, the distance
        // of the most negative offset does not.
        let short: isize = -(pos + 1);
        short as usize + 1
    }
}

/// The place that a distance reaches in a cycle of `len + 1` places.
fn place_in_cycle(distance: usize, len: usize) -> (place: usize)
    ensures
        place == distance as int % (len as int + 1),
{
    // A queue of `usize::MAX` lines has a cycle that `usize` cannot hold.
    (distance as u128 % (len as u128 + 1)) as usize
}

} // verus!

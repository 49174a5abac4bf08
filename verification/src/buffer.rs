//! The open buffers of an editor, searched by a query.

use vstd::prelude::*;

verus! {

/// What a [`BufferEntry`] holds.
pub struct EntryView {
    /// The number by which the editor knows the buffer.
    pub id: nat,
    /// The path of the buffer's file, if it has one.
    pub path: Option<Seq<char>>,
    /// The text that a query is matched against.
    pub search_str: Seq<char>,
}

/// The search text of a buffer: its path, or a fixed text for a buffer
/// without one.
pub open spec fn search_text(path: Option<Seq<char>>) -> Seq<char> {
    match path {
        Some(path) => path,
        None => "<not named>"@,
    }
}

/// An open buffer as the search shows it.
pub struct BufferEntry {
    /// The number by which the editor knows the buffer.
    pub id: usize,
    /// The path of the buffer's file, if it has one.
    pub path: Option<String>,
    search_str: String,
}

impl View for BufferEntry {
    type V = EntryView;

    closed spec fn view(&self) -> EntryView {
        EntryView {
            id: self.id as nat,
            path: match self.path {
                Some(path) => Some(path@),
                None => None,
            },
            search_str: self.search_str@,
        }
    }
}

impl Clone for BufferEntry {
    fn clone(&self) -> (copy: BufferEntry)
        ensures
            copy@ == self@,
    {
        BufferEntry {
            id: self.id,
            path: match &self.path {
                Some(path) => Some(path.clone()),
                None => None,
            },
            search_str: self.search_str.clone(),
        }
    }
}

impl fragment::matching::AsStr for BufferEntry {
    /// The text that a query is matched against.
    fn as_str(&self) -> (text: &str)
        ensures
            text@ == self@.search_str,
    {
        self.search_str.as_str()
    }
}

impl BufferEntry {
    /// The entry of the buffer `id` with the file at `path`.
    pub fn new(id: usize, path: Option<String>) -> (entry: BufferEntry)
        ensures
            entry@ == (EntryView {
                id: id as nat,
                path: match path {
                    Some(path) => Some(path@),
                    None => None,
                },
                search_str: search_text(
                    match path {
                        Some(path) => Some(path@),
                        None => None,
                    },
                ),
            }),
    {
        let search_str = match &path {
            Some(path) => path.clone(),
            None => "<not named>".to_string(),
        };
        BufferEntry { id, path, search_str }
    }

    /// The text that a query is matched against.
    pub fn search_str(&self) -> (text: &String)
        ensures
            text@ == self@.search_str,
    {
        &self.search_str
    }
}

/// What each entry of a list holds.
pub open spec fn entries_of(list: Seq<BufferEntry>) -> Seq<EntryView> {
    list.map_values(|entry: BufferEntry| entry@)
}

/// The entries that `fragment::matching::find` returns for a query, a list of
/// entries and a limit, best match first.
pub uninterp spec fn fuzzy_found(
    needle: Seq<char>,
    haystack: Seq<EntryView>,
    max_results: nat,
) -> Seq<EntryView>;

/// `fragment::matching::find` gives each entry a score for the terms of
/// `needle` that its search text holds, drops the entries without a score,
/// orders the others best first, and cuts the list at `max_results`. The
/// result is a function of the arguments; every entry in it comes from
/// `haystack`.
#[verifier::external_body]
fn find_matches(
    needle: &String,
    haystack: &Vec<BufferEntry>,
    max_results: usize,
) -> (found: Vec<BufferEntry>)
    ensures
        entries_of(found@) == fuzzy_found(needle@, entries_of(haystack@), max_results as nat),
        found@.len() <= max_results,
        forall|k: int|
            0 <= k < found@.len() ==> entries_of(haystack@).contains(#[trigger] found@[k]@),
{
    fragment::matching::find(needle, haystack, max_results)
        .into_iter()
        .map(|found| (**found).clone())
        .collect()
}

/// The first entries of a list, as many as the limit allows.
pub open spec fn leading(entries: Seq<EntryView>, max_results: nat) -> Seq<EntryView> {
    if entries.len() <= max_results {
        entries
    } else {
        entries.take(max_results as int)
    }
}

/// The entries that a search shows: for an empty query the first entries of
/// the list, otherwise the matches of the query.
pub open spec fn search_results(
    query: Seq<char>,
    entries: Seq<EntryView>,
    max_results: nat,
) -> Seq<EntryView> {
    if query.len() == 0 {
        leading(entries, max_results)
    } else {
        fuzzy_found(query, entries, max_results)
    }
}

/// The notice that stands in place of an empty list of results.
pub open spec fn notice(query: Seq<char>, results: Seq<EntryView>) -> Option<Seq<char>> {
    if results.len() > 0 {
        None
    } else if query.len() == 0 {
        Some("No buffers are open."@)
    } else {
        Some("No matching entries found."@)
    }
}

/// What a [`BufferMode`] holds.
pub struct ModeView {
    /// Whether typed characters go to the query.
    pub insert: bool,
    /// The query.
    pub input: Seq<char>,
    /// The open buffers.
    pub buffers: Seq<EntryView>,
    /// The entries that the last search found.
    pub results: Seq<EntryView>,
    /// The largest number of entries that a search shows.
    pub max_results: nat,
}

/// The mode in which the user picks one of the open buffers by a query.
pub struct BufferMode {
    insert: bool,
    input: String,
    buffers: Vec<BufferEntry>,
    results: Vec<BufferEntry>,
    max_results: usize,
}

impl View for BufferMode {
    type V = ModeView;

    closed spec fn view(&self) -> ModeView {
        ModeView {
            insert: self.insert,
            input: self.input@,
            buffers: entries_of(self.buffers@),
            results: entries_of(self.results@),
            max_results: self.max_results as nat,
        }
    }
}

impl BufferMode {
    /// The mode over the open buffers, with an empty query and no results
    /// yet. A search shows at most `max_results` entries.
    pub fn new(buffers: Vec<BufferEntry>, max_results: usize) -> (mode: BufferMode)
        ensures
            mode@ == (ModeView {
                insert: true,
                input: Seq::empty(),
                buffers: entries_of(buffers@),
                results: Seq::empty(),
                max_results: max_results as nat,
            }),
    {
        let mode = BufferMode {
            insert: true,
            input: String::new(),
            buffers,
            results: Vec::new(),
            max_results,
        };
        assert(entries_of(mode.results@) =~= Seq::empty());
        mode
    }

    /// Searches the open buffers for the query and shows what it finds: at
    /// most as many entries as the mode was made for, each of them one of the
    /// open buffers.
    pub fn search(&mut self)
        ensures
            final(self)@ == (ModeView {
                results: search_results(
                    old(self)@.input,
                    old(self)@.buffers,
                    old(self)@.max_results,
                ),
                ..old(self)@
            }),
            final(self)@.results.len() <= old(self)@.max_results,
            forall|k: int|
                0 <= k < final(self)@.results.len() ==> old(self)@.buffers.contains(
                    #[trigger] final(self)@.results[k],
                ),
    {
        let results = if self.input.as_str().is_empty() {
            self.first_entries()
        } else {
            find_matches(&self.input, &self.buffers, self.max_results)
        };
        self.show(results);
    }

    /// The query, to be edited in place.
    pub fn query(&mut self) -> (query: &mut String)
        ensures
            query@ == old(self)@.input,
            final(self)@ == (ModeView { input: final(query)@, ..old(self)@ }),
    {
        &mut self.input
    }

    /// Whether typed characters go to the query.
    pub fn insert_mode(&self) -> (insert: bool)
        ensures
            insert == self@.insert,
    {
        self.insert
    }

    /// Sets whether typed characters go to the query.
    pub fn set_insert_mode(&mut self, insert_mode: bool)
        ensures
            final(self)@ == (ModeView { insert: insert_mode, ..old(self)@ }),
    {
        self.insert = insert_mode;
    }

    /// The entries that the last search found, best match first.
    pub fn results(&self) -> (results: &Vec<BufferEntry>)
        ensures
            entries_of(results@) == self@.results,
    {
        &self.results
    }

    /// The largest number of entries that a search shows.
    pub fn max_results(&self) -> (max_results: usize)
        ensures
            max_results == self@.max_results,
    {
        self.max_results
    }

    /// Copies of the first entries of the list, as many as a search shows.
    pub fn first_entries(&self) -> (first: Vec<BufferEntry>)
        ensures
            entries_of(first@) == leading(self@.buffers, self@.max_results),
    {
        let mut first: Vec<BufferEntry> = Vec::new();
        let mut i: usize = 0;
        while i < self.buffers.len() && i < self.max_results
            invariant
                i <= self.buffers@.len(),
                i <= self.max_results,
                first@.len() == i,
                forall|j: int| 0 <= j < i ==> first@[j]@ == self.buffers@[j]@,
            decreases self.buffers@.len() - i,
        {
            first.push(self.buffers[i].clone());
            i += 1;
        }
        first
    }

    /// Shows `results` as what the search found.
    pub fn show(&mut self, results: Vec<BufferEntry>)
        ensures
            final(self)@ == (ModeView { results: entries_of(results@), ..old(self)@ }),
    {
        self.results = results;
    }

    /// The notice to show when there are no results: that no buffers are
    /// open, or that none matches the query.
    pub fn message(&self) -> (message: Option<String>)
        ensures
            match message {
                Some(text) => notice(self@.input, self@.results) == Some(text@),
                None => notice(self@.input, self@.results) is None,
            },
    {
        if self.results.len() > 0 {
            None
        } else if self.input.as_str().is_empty() {
            Some("No buffers are open.".to_string())
        } else {
            Some("No matching entries found.".to_string())
        }
    }
}

} // verus!

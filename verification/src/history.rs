//! The edit history: for each path, the contents that the file had before
//! each recorded edit, the most recent one last.

use vstd::prelude::*;

verus! {

/// The contents recorded for `path` in a log of (path, content) entries, in
/// the order in which they were recorded.
pub open spec fn recorded(log: Seq<(String, String)>, path: Seq<char>) -> Seq<Seq<char>>
    decreases log.len(),
{
    if log.len() == 0 {
        Seq::empty()
    } else if log.last().0@ == path {
        recorded(log.drop_last(), path).push(log.last().1@)
    } else {
        recorded(log.drop_last(), path)
    }
}

/// Taking out the last entry for a path takes the last content from that
/// path's record and leaves the other records as they are.
pub proof fn lemma_recorded_after_remove(log: Seq<(String, String)>, at: int, path: Seq<char>)
    requires
        0 <= at < log.len(),
        forall|k: int| at < k < log.len() ==> (#[trigger] log[k]).0@ != log[at].0@,
    ensures
        path == log[at].0@ ==> recorded(log.remove(at), path) == recorded(log, path).drop_last(),
        path != log[at].0@ ==> recorded(log.remove(at), path) == recorded(log, path),
        path == log[at].0@ ==> recorded(log, path).len() > 0 && recorded(log, path).last()
            == log[at].1@,
    decreases log.len(),
{
    if at < log.len() - 1 {
        let front = log.drop_last();
        assert(log.remove(at).drop_last() == front.remove(at));
        lemma_recorded_after_remove(front, at, path);
    }
}

/// Where no entry is for `path`, nothing is recorded for it.
pub proof fn lemma_nothing_recorded(log: Seq<(String, String)>, path: Seq<char>)
    requires
        forall|k: int| 0 <= k < log.len() ==> (#[trigger] log[k]).0@ != path,
    ensures
        recorded(log, path).len() == 0,
    decreases log.len(),
{
    if log.len() > 0 {
        lemma_nothing_recorded(log.drop_last(), path);
    }
}

/// The mathematical model of an edit history: for every path its record,
/// which is empty for a path without history.
pub type HistoryView = Map<Seq<char>, Seq<Seq<char>>>;

/// The history that differs from `history` in the record of `path` alone,
/// which has `content` as its new last entry.
pub open spec fn pushed(history: HistoryView, path: Seq<char>, content: Seq<char>) -> HistoryView {
    history.insert(path, history[path].push(content))
}

/// The history that differs from `history` in the record of `path` alone,
/// which has lost its last entry.
pub open spec fn popped(history: HistoryView, path: Seq<char>) -> HistoryView {
    history.insert(path, history[path].drop_last())
}

/// The edit history of a session.
#[derive(Debug)]
pub struct EditHistory {
    log: Vec<(String, String)>,
}

impl View for EditHistory {
    type V = HistoryView;

    closed spec fn view(&self) -> HistoryView {
        Map::total(|path: Seq<char>| recorded(self.log@, path))
    }
}

impl EditHistory {
    /// A history without entries.
    pub fn new() -> (h: EditHistory)
        ensures
            h@ == Map::total(|path: Seq<char>| Seq::<Seq<char>>::empty()),
    {
        let h = EditHistory { log: Vec::new() };
        h
    }

    /// Every path has a record in the model of a history; the record of a
    /// path without history is empty.
    pub proof fn law_every_path_has_a_record(&self)
        ensures
            forall|path: Seq<char>| self@.dom().contains(path),
    {
    }

    /// Records `content` as what the file at `path` held before an edit.
    pub fn save_file_history(&mut self, path: &str, content: String)
        ensures
            final(self)@ == pushed(old(self)@, path@, content@),
    {
        let ghost before = self.log@;
        self.log.push((path.to_owned(), content));
        assert(self.log@.drop_last() == before);
    }

    /// Takes the most recent content recorded for `path` out of the
    /// history. The result is `None`, and nothing changes, where nothing is
    /// recorded for the path.
    pub fn undo(&mut self, path: &str) -> (r: Option<String>)
        ensures
            match r {
                Some(content) => old(self)@[path@].len() > 0 && content@ == old(self)@[path@].last()
                    && final(self)@ == popped(old(self)@, path@),
                None => old(self)@[path@].len() == 0 && final(self)@ == old(self)@,
            },
    {
        let mut i: usize = self.log.len();
        while i > 0
            invariant
                i <= self.log@.len(),
                self.log@ == old(self).log@,
                forall|k: int| i <= k < self.log@.len() ==> (#[trigger] self.log@[k]).0@ != path@,
            decreases i,
        {
            if crate::text::str_equal(self.log[i - 1].0.as_str(), path) {
                proof {
                    assert forall|other: Seq<char>| other != path@ implies recorded(
                        self.log@.remove(i - 1),
                        other,
                    ) == recorded(self.log@, other) by {
                        lemma_recorded_after_remove(self.log@, i - 1, other);
                    }
                    lemma_recorded_after_remove(self.log@, i - 1, path@);
                }
                let entry = self.log.remove(i - 1);
                return Some(entry.1);
            }
            i = i - 1;
        }
        proof {
            lemma_nothing_recorded(self.log@, path@);
        }
        None
    }

    /// Whether anything is recorded for `path`.
    pub fn has_history(&self, path: &str) -> (r: bool)
        ensures
            r == (self@[path@].len() > 0),
    {
        let mut i: usize = 0;
        while i < self.log.len()
            invariant
                i <= self.log@.len(),
                forall|k: int| 0 <= k < i ==> (#[trigger] self.log@[k]).0@ != path@,
            decreases self.log@.len() - i,
        {
            if crate::text::str_equal(self.log[i].0.as_str(), path) {
                proof {
                    lemma_recorded_nonempty(self.log@, i as int);
                }
                return true;
            }
            i = i + 1;
        }
        proof {
            lemma_nothing_recorded(self.log@, path@);
        }
        false
    }
}

/// Where an entry is for a path, something is recorded for it.
pub proof fn lemma_recorded_nonempty(log: Seq<(String, String)>, at: int)
    requires
        0 <= at < log.len(),
    ensures
        recorded(log, log[at].0@).len() > 0,
    decreases log.len(),
{
    if at < log.len() - 1 {
        lemma_recorded_nonempty(log.drop_last(), at);
    }
}

} // verus!

//! The list of stored replay ids to play, and how far through it the walk is.
use vstd::prelude::*;

verus! {

/// The replay ids and the index of the one to enter next.
pub struct ReplayQueue {
    ids: Vec<String>,
    index: usize,
}

impl View for ReplayQueue {
    type V = (Seq<Seq<char>>, int);

    closed spec fn view(&self) -> (Seq<Seq<char>>, int) {
        (self.ids@.map_values(|s: String| s@), self.index as int)
    }
}

impl ReplayQueue {
    /// The index stands on an id, or at 0 where there is none.
    pub open spec fn wf(&self) -> bool {
        if self@.0.len() == 0 {
            self@.1 == 0
        } else {
            0 <= self@.1 < self@.0.len()
        }
    }

    pub fn new(ids: Vec<String>) -> (r: ReplayQueue)
        ensures
            r@ == (ids@.map_values(|s: String| s@), 0int),
            r.wf(),
    {
        ReplayQueue { ids, index: 0 }
    }

    /// The index of the id to enter next.
    pub fn id_index(&self) -> (r: usize)
        ensures
            r == self@.1,
    {
        self.index
    }

    /// The id to enter next; `None` where the list is empty.
    pub fn current_id(&self) -> (r: Option<String>)
        requires
            self.wf(),
        ensures
            r is Some <==> self@.0.len() > 0,
            r matches Some(s) ==> s@ == self@.0[self@.1],
    {
        if self.index < self.ids.len() {
            Some(self.ids[self.index].clone())
        } else {
            None
        }
    }

    /// The id entered last; `None` before the first entry of a round.
    pub fn last_entered(&self) -> (r: Option<String>)
        requires
            self.wf(),
        ensures
            r is Some <==> self@.1 > 0,
            r matches Some(s) ==> s@ == self@.0[self@.1 - 1],
    {
        if self.index > 0 {
            Some(self.ids[self.index - 1].clone())
        } else {
            None
        }
    }

    /// The identifier an export is named by: the id entered last, or
    /// `XXXXXXXX` before any entry.
    pub fn export_id(&self) -> (r: String)
        requires
            self.wf(),
        ensures
            self@.1 > 0 ==> r@ == self@.0[self@.1 - 1],
            self@.1 == 0 ==> r@ == "XXXXXXXX"@,
    {
        match self.last_entered() {
            Some(id) => id,
            None => String::from_str("XXXXXXXX"),
        }
    }

    /// Moves on to the next id. At the end of the list the index starts over
    /// and the result is `true`: every replay has been entered.
    pub fn increment_id_index(&mut self) -> (r: bool)
        requires
            old(self).wf(),
        ensures
            final(self).wf(),
            final(self)@.0 == old(self)@.0,
            r == (old(self)@.1 + 1 >= old(self)@.0.len()),
            final(self)@.1 == if r { 0 } else { old(self)@.1 + 1 },
    {
        assert(self@.0.len() == self.ids@.len());
        if self.ids.len() == 0 || self.index >= self.ids.len() - 1 {
            self.index = 0;
            true
        } else {
            self.index = self.index + 1;
            false
        }
    }

    /// The keyboard asks for a replay id: the id to type, and whether it was
    /// the last of the list. `None` where the list is empty.
    pub fn take_next(&mut self) -> (r: Option<(String, bool)>)
        requires
            old(self).wf(),
        ensures
            final(self).wf(),
            final(self)@.0 == old(self)@.0,
            old(self)@.0.len() == 0 ==> r is None && final(self)@ == old(self)@,
            old(self)@.0.len() > 0 ==> r is Some,
            r matches Some((id, last)) ==> {
                &&& id@ == old(self)@.0[old(self)@.1]
                &&& last == (old(self)@.1 + 1 == old(self)@.0.len())
                &&& final(self)@.1 == if last { 0 } else { old(self)@.1 + 1 }
            },
    {
        match self.current_id() {
            Some(id) => {
                let last = self.increment_id_index();
                Some((id, last))
            },
            None => None,
        }
    }
}

} // verus!

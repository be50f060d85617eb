//! The input line history of a front end: lines entered, and a cursor that
//! the up and down keys move through them.

use vstd::prelude::*;

verus! {

/// Where the cursor goes on "previous": from no selection to the newest
/// line, then one line older each time, stopping at the oldest.
pub open spec fn prev_index(len: nat, index: Option<nat>) -> Option<nat> {
    if len == 0 {
        index
    } else {
        match index {
            None => Some((len - 1) as nat),
            Some(i) => if i == 0 {
                Some(0)
            } else {
                Some((i - 1) as nat)
            },
        }
    }
}

/// Where the cursor goes on "next": one line newer each time; past the
/// newest line, or from no selection, there is no selection.
pub open spec fn next_index(len: nat, index: Option<nat>) -> Option<nat> {
    match index {
        Some(i) => if len == 0 || i == len - 1 {
            None
        } else {
            Some(i + 1)
        },
        None => None,
    }
}

/// Lines entered so far, oldest first, and the selected one, if any.
pub struct InputHistory {
    entries: Vec<String>,
    index: Option<usize>,
}

impl InputHistory {
    /// The lines, oldest first.
    pub closed spec fn lines(&self) -> Seq<Seq<char>> {
        self.entries@.map_values(|s: String| s@)
    }

    /// The selected position, if any.
    pub closed spec fn selected(&self) -> Option<nat> {
        match self.index {
            Some(i) => Some(i as nat),
            None => None,
        }
    }

    /// A selection always points at a line.
    pub open spec fn wf(&self) -> bool {
        self.selected() matches Some(i) ==> i < self.lines().len()
    }

    /// An empty history.
    pub fn new() -> (r: InputHistory)
        ensures
            r.wf(),
            r.lines() == Seq::<Seq<char>>::empty(),
            r.selected() is None,
    {
        let r = InputHistory { entries: Vec::new(), index: None };
        assert(r.lines() =~= Seq::<Seq<char>>::empty());
        r
    }

    /// Adds an entered line as the newest and clears the selection.
    pub fn record(&mut self, line: String)
        requires
            old(self).wf(),
        ensures
            final(self).wf(),
            final(self).lines() == old(self).lines().push(line@),
            final(self).selected() is None,
    {
        self.entries.push(line);
        self.index = None;
        assert(self.lines() =~= old(self).lines().push(line@));
    }

    /// Moves the selection one line older; gives the line now selected, to
    /// show in the input field.
    pub fn prev(&mut self) -> (r: Option<String>)
        requires
            old(self).wf(),
        ensures
            final(self).wf(),
            final(self).lines() == old(self).lines(),
            final(self).selected() == prev_index(old(self).lines().len(), old(self).selected()),
            match final(self).selected() {
                Some(i) => r matches Some(s) && s@ == final(self).lines()[i as int],
                None => r is None,
            },
    {
        let len = self.entries.len();
        if len > 0 {
            self.index = match self.index {
                None => Some(len - 1),
                Some(0) => Some(0),
                Some(i) => Some(i - 1),
            };
        }
        match self.index {
            Some(i) => Some(self.entries[i].clone()),
            None => None,
        }
    }

    /// Moves the selection one line newer; gives the line now selected, to
    /// show in the input field, or none once past the newest line.
    pub fn next(&mut self) -> (r: Option<String>)
        requires
            old(self).wf(),
        ensures
            final(self).wf(),
            final(self).lines() == old(self).lines(),
            final(self).selected() == next_index(old(self).lines().len(), old(self).selected()),
            match final(self).selected() {
                Some(i) => r matches Some(s) && s@ == final(self).lines()[i as int],
                None => r is None,
            },
    {
        let len = self.entries.len();
        self.index = match self.index {
            Some(i) => if i == len - 1 {
                None
            } else {
                Some(i + 1)
            },
            None => None,
        };
        match self.index {
            Some(i) => Some(self.entries[i].clone()),
            None => None,
        }
    }
}

} // verus!

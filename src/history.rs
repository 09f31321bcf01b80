use vstd::prelude::*;

verus! {

/// How many lines the history of the debug console keeps.
pub const MAX_HISTORY_LEN: usize = 500;

/// The last lines exchanged over the socket, newest first, each numbered.
pub struct History {
    entries: Vec<(usize, String)>,
    last_id: usize,
}

/// The number that follows `id`, going back to zero after the largest.
pub open spec fn next_id(id: usize) -> usize {
    if id == usize::MAX {
        0
    } else {
        (id + 1) as usize
    }
}

impl History {
    /// The lines, newest first, with their numbers.
    pub closed spec fn lines(&self) -> Seq<(usize, Seq<char>)> {
        Seq::new(self.entries@.len(), |i: int| (self.entries@[i].0, self.entries@[i].1@))
    }

    /// The number given to the last line.
    pub closed spec fn last_id(&self) -> usize {
        self.last_id
    }

    pub fn new() -> (r: History)
        ensures
            r.lines() == Seq::<(usize, Seq<char>)>::empty(),
            r.last_id() == 0,
    {
        let r = History { entries: Vec::new(), last_id: 0 };
        assert(r.lines() =~= Seq::<(usize, Seq<char>)>::empty());
        r
    }

    pub fn len(&self) -> (r: usize)
        ensures
            r == self.lines().len(),
    {
        self.entries.len()
    }

    /// The line at `i`, counting from the newest.
    pub fn get(&self, i: usize) -> (r: (usize, String))
        requires
            i < self.lines().len(),
        ensures
            (r.0, r.1@) == self.lines()[i as int],
    {
        (self.entries[i].0, self.entries[i].1.clone())
    }

    /// Adds `line` as the newest, under the number after the last one; the
    /// oldest lines go so that at most `MAX_HISTORY_LEN` remain.
    pub fn push(&mut self, line: String)
        ensures
            final(self).last_id() == next_id(old(self).last_id()),
            final(self).lines() == seq![(next_id(old(self).last_id()), line@)] + old(
                self,
            ).lines().take(
                if old(self).lines().len() < MAX_HISTORY_LEN {
                    old(self).lines().len() as int
                } else {
                    MAX_HISTORY_LEN - 1
                },
            ),
            final(self).lines().len() <= MAX_HISTORY_LEN,
    {
        let ghost old_lines = self.lines();
        if self.entries.len() >= MAX_HISTORY_LEN {
            self.entries.truncate(MAX_HISTORY_LEN - 1);
        }
        let ghost kept = self.lines();
        assert(kept =~= old_lines.take(
            if old_lines.len() < MAX_HISTORY_LEN {
                old_lines.len() as int
            } else {
                MAX_HISTORY_LEN - 1
            },
        ));
        self.last_id = if self.last_id == usize::MAX {
            0
        } else {
            self.last_id + 1
        };
        self.entries.insert(0, (self.last_id, line));
        assert(self.lines() =~= seq![(self.last_id, line@)] + kept);
    }
}

} // verus!

//! A caller-owned, append-only log of formatted results.
use vstd::prelude::*;

verus! {

pub struct History {
    entries: Vec<String>,
}

impl History {
    /// The entries, oldest first.
    pub closed spec fn view(&self) -> Seq<Seq<char>> {
        self.entries@.map_values(|s: String| s@)
    }

    pub fn new() -> (r: History)
        ensures
            r@ == Seq::<Seq<char>>::empty(),
    {
        let r = History { entries: Vec::new() };
        assert(r@ =~= Seq::<Seq<char>>::empty());
        r
    }

    /// Appends `entry` after all earlier entries.
    pub fn record(&mut self, entry: String)
        ensures
            final(self)@ == old(self)@.push(entry@),
    {
        let ghost before = self.entries@;
        self.entries.push(entry);
        assert(self@ =~= before.map_values(|s: String| s@).push(entry@));
    }

    pub fn len(&self) -> (r: usize)
        ensures
            r == self@.len(),
    {
        self.entries.len()
    }

    /// The entry recorded `i`-th, oldest first.
    pub fn entry(&self, i: usize) -> (r: &String)
        requires
            i < self@.len(),
        ensures
            r@ == self@[i as int],
    {
        &self.entries[i]
    }

    /// The most recent entry, if any.
    pub fn last(&self) -> (r: Option<&String>)
        ensures
            r is None <==> self@.len() == 0,
            r matches Some(s) ==> s@ == self@.last(),
    {
        if self.entries.len() == 0 {
            None
        } else {
            Some(&self.entries[self.entries.len() - 1])
        }
    }
}

} // verus!

//! Champion name-to-identifier lookup table.
//!
//! The table itself is supplied externally (it is downloaded once at startup
//! by the embedding process); the library only models it as an ordered list
//! of `(name, id)` pairs and performs verified first-match lookups in it.

use vstd::prelude::*;

verus! {

/// First-match lookup of `name` in an association list of
/// `(name, identifier)` pairs; `None` when no pair carries `name`.
pub open spec fn lookup_in(entries: Seq<(Seq<char>, u32)>, name: Seq<char>) -> Option<u32>
    decreases entries.len(),
{
    if entries.len() == 0 {
        None
    } else if entries[0].0 == name {
        Some(entries[0].1)
    } else {
        lookup_in(entries.skip(1), name)
    }
}

/// Mapping from champion names to their numeric identifiers.
///
/// Identifiers are opaque positive integers fixed for the process lifetime.
/// Lookup is by exact name, first match wins.
pub struct ChampionTable {
    pub entries: Vec<(String, u32)>,
}

impl View for ChampionTable {
    type V = Seq<(Seq<char>, u32)>;

    open spec fn view(&self) -> Seq<(Seq<char>, u32)> {
        self.entries@.map_values(|e: (String, u32)| (e.0@, e.1))
    }
}

impl ChampionTable {
    /// An empty table: every lookup misses.
    pub fn new() -> (r: ChampionTable)
        ensures
            r@ =~= Seq::<(Seq<char>, u32)>::empty(),
    {
        ChampionTable { entries: Vec::new() }
    }

    /// Appends one `(name, id)` pair at the end of the table.
    pub fn push(&mut self, name: String, id: u32)
        ensures
            final(self)@ =~= old(self)@.push((name@, id)),
    {
        self.entries.push((name, id));
    }

    /// Looks `name` up, returning the identifier of the first entry that
    /// carries it, or `None` when the table has no such entry.
    pub fn get(&self, name: &String) -> (r: Option<u32>)
        ensures
            r == lookup_in(self@, name@),
    {
        let n: usize = self.entries.len();
        let mut i: usize = 0;
        assert(self@.skip(0) =~= self@);
        while i < n
            invariant
                n == self.entries.len(),
                i <= n,
                lookup_in(self@, name@) == lookup_in(self@.skip(i as int), name@),
            decreases n - i,
        {
            if self.entries[i].0 == *name {
                assert(self@.skip(i as int)[0] == (self.entries@[i as int].0@, self.entries@[i as int].1));
                return Some(self.entries[i].1);
            }
            assert(self@.skip(i as int)[0] == (self.entries@[i as int].0@, self.entries@[i as int].1));
            assert(self@.skip(i as int).skip(1) =~= self@.skip(i + 1 as int));
            i = i + 1;
        }
        assert(self@.skip(i as int).len() == 0);
        None
    }
}

} // verus!

//! The open-ended string-to-string state blob that requests carry, with a
//! verified lookup: the value of the entry written last under a key wins.

use vstd::prelude::*;

verus! {

/// One key/value entry of a state blob.
#[derive(Debug)]
pub struct StateEntry {
    pub key: String,
    pub value: String,
}

impl View for StateEntry {
    type V = (Seq<char>, Seq<char>);

    open spec fn view(&self) -> (Seq<char>, Seq<char>) {
        (self.key@, self.value@)
    }
}

/// Value under `key` in the entry list `m`: the last entry with that key
/// wins, as it would after the earlier ones were overwritten.
pub open spec fn spec_lookup(m: Seq<(Seq<char>, Seq<char>)>, key: Seq<char>) -> Option<Seq<char>>
    decreases m.len(),
{
    if m.len() == 0 {
        None
    } else if m.last().0 == key {
        Some(m.last().1)
    } else {
        spec_lookup(m.drop_last(), key)
    }
}

/// A string-to-string state blob, as the requests carry it.
#[derive(Debug)]
pub struct StateMap {
    entries: Vec<StateEntry>,
}

impl View for StateMap {
    type V = Seq<(Seq<char>, Seq<char>)>;

    closed spec fn view(&self) -> Seq<(Seq<char>, Seq<char>)> {
        self.entries@.map_values(|e: StateEntry| e@)
    }
}

impl StateMap {
    /// An empty state blob.
    pub fn new() -> (r: StateMap)
        ensures
            r@ == Seq::<(Seq<char>, Seq<char>)>::empty(),
    {
        let entries: Vec<StateEntry> = Vec::new();
        proof {
            assert(entries@.map_values(|e: StateEntry| e@) =~= Seq::<(
                Seq<char>,
                Seq<char>,
            )>::empty());
        }
        StateMap { entries }
    }

    /// Writes `value` under `key`; a later write under the same key wins.
    pub fn insert(&mut self, key: String, value: String)
        ensures
            final(self)@ == old(self)@.push((key@, value@)),
    {
        let ghost k = key@;
        let ghost val = value@;
        let ghost pre = self.entries@;
        self.entries.push(StateEntry { key, value });
        proof {
            assert(self.entries@.map_values(|e: StateEntry| e@) =~= pre.map_values(
                |e: StateEntry| e@,
            ).push((k, val)));
        }
    }

    /// All entries, in the order they were written.
    pub fn entries(&self) -> (r: &Vec<StateEntry>)
        ensures
            r@.map_values(|e: StateEntry| e@) == self@,
    {
        &self.entries
    }

    /// Reads the value under `key`, if one was written.
    pub fn get(&self, key: &str) -> (r: Option<&String>)
        ensures
            match r {
                Some(v) => spec_lookup(self@, key@) == Some(v@),
                None => spec_lookup(self@, key@) is None,
            },
    {
        let probe = key.to_owned();
        let n = self.entries.len();
        let mut found: Option<usize> = None;
        let mut i: usize = 0;
        while i < n
            invariant
                i <= n,
                n == self.entries@.len(),
                match found {
                    Some(j) => j < i && spec_lookup(self@.take(i as int), key@) == Some(
                        self.entries@[j as int].value@,
                    ),
                    None => spec_lookup(self@.take(i as int), key@) is None,
                },
                probe@ == key@,
            decreases n - i,
        {
            proof {
                let prefix = self@.take(i as int);
                let prefix2 = self@.take(i + 1);
                assert(prefix2 =~= prefix.push(self@[i as int]));
                assert(prefix2.drop_last() =~= prefix);
                assert(self@[i as int] == self.entries@[i as int]@);
            }
            if self.entries[i].key == probe {
                found = Some(i);
            }
            i = i + 1;
        }
        proof {
            assert(self@.take(n as int) =~= self@);
        }
        match found {
            Some(j) => Some(&self.entries[j].value),
            None => None,
        }
    }
}

} // verus!

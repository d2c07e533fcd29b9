//! The headers of a request: each name with the list of its values.

use vstd::prelude::*;

use crate::text::str_eq;

verus! {

/// The characters of each string of a sequence.
pub open spec fn texts(v: Seq<String>) -> Seq<Seq<char>> {
    v.map_values(|s: String| s@)
}

/// The header mapping after `value` has arrived under `name`: a name that is
/// already present keeps its earlier values, in order, in front of the new one.
pub open spec fn append_value(
    m: Map<Seq<char>, Seq<Seq<char>>>,
    name: Seq<char>,
    value: Seq<char>,
) -> Map<Seq<char>, Seq<Seq<char>>> {
    if m.contains_key(name) {
        m.insert(name, m[name].push(value))
    } else {
        m.insert(name, seq![value])
    }
}

/// One header: its name and the values that arrived under it, oldest first.
#[derive(Debug)]
pub struct Header {
    pub name: String,
    pub values: Vec<String>,
}

/// The headers of a request: a mapping from a header's name to the list of its
/// values. No name occurs twice.
#[derive(Debug)]
pub struct Headers {
    entries: Vec<Header>,
}

impl View for Headers {
    type V = Map<Seq<char>, Seq<Seq<char>>>;

    closed spec fn view(&self) -> Map<Seq<char>, Seq<Seq<char>>> {
        Map::new(
            |k: Seq<char>| self.position(k) is Some,
            |k: Seq<char>| texts(self.entries@[self.position(k).unwrap()].values@),
        )
    }
}

impl Headers {
    #[verifier::type_invariant]
    spec fn distinct_names(&self) -> bool {
        forall|i: int, j: int|
            0 <= i < j < self.entries@.len() ==> self.entries@[i].name@ != self.entries@[j].name@
    }

    /// Where the entry of a name stands, if the name is present.
    spec fn position(&self, name: Seq<char>) -> Option<int> {
        if exists|i: int| 0 <= i < self.entries@.len() && self.entries@[i].name@ == name {
            Some(choose|i: int| 0 <= i < self.entries@.len() && self.entries@[i].name@ == name)
        } else {
            None
        }
    }

    /// A mapping without any header.
    pub fn new() -> (r: Headers)
        ensures
            r@ == Map::<Seq<char>, Seq<Seq<char>>>::empty(),
    {
        let r = Headers { entries: Vec::new() };
        r
    }

    /// The index of the entry named `name`, or the number of entries if there is
    /// none.
    fn find(&self, name: &str) -> (i: usize)
        ensures
            i <= self.entries@.len(),
            i < self.entries@.len() ==> self.position(name@) == Some(i as int),
            i == self.entries@.len() ==> self.position(name@) is None,
    {
        proof {
            use_type_invariant(self);
        }
        let mut i: usize = 0;
        while i < self.entries.len()
            invariant
                i <= self.entries@.len(),
                self.distinct_names(),
                forall|k: int| 0 <= k < i ==> self.entries@[k].name@ != name@,
            decreases self.entries@.len() - i,
        {
            if str_eq(self.entries[i].name.as_str(), name) {
                return i;
            }
            i += 1;
        }
        i
    }

    /// The values that arrived under `name`, oldest first.
    pub fn get(&self, name: &str) -> (r: Option<&Vec<String>>)
        ensures
            r is Some <==> self@.contains_key(name@),
            r matches Some(values) ==> texts(values@) == self@[name@],
    {
        let i = self.find(name);
        if i < self.entries.len() {
            Some(&self.entries[i].values)
        } else {
            None
        }
    }

    /// How many different names the mapping holds.
    pub fn len(&self) -> (n: usize)
        ensures
            n == self@.dom().len(),
            self@.dom().finite(),
    {
        proof {
            use_type_invariant(self);
            self.lemma_domain_size();
        }
        self.entries.len()
    }

    proof fn lemma_domain_size(&self)
        requires
            self.distinct_names(),
        ensures
            self@.dom().finite(),
            self@.dom().len() == self.entries@.len(),
    {
        let names = self.entries@.map_values(|h: Header| h.name@);
        names.unique_seq_to_set();
        assert(self@.dom() =~= names.to_set()) by {
            assert forall|k: Seq<char>| self@.dom().contains(k) implies names.to_set().contains(k) by {
                let i = self.position(k).unwrap();
                assert(names[i] == k);
            }
        }
    }

    /// Records that `value` arrived under `name`, after the values that the name
    /// already has.
    pub fn append(&mut self, name: String, value: String)
        ensures
            final(self)@ == append_value(old(self)@, name@, value@),
    {
        proof {
            use_type_invariant(&*self);
        }
        let i = self.find(name.as_str());
        let ghost before = self.entries@;
        let mut entries: Vec<Header> = Vec::new();
        std::mem::swap(&mut self.entries, &mut entries);
        if i < entries.len() {
            let mut entry = entries.remove(i);
            entry.values.push(value);
            entries.insert(i, entry);
            assert(texts(entries@[i as int].values@) =~= texts(before[i as int].values@).push(value@));
            self.entries = entries;
            assert forall|k: Seq<char>| self.position(k) == old(self).position(k) by {
                if old(self).position(k) is Some {
                    let j = old(self).position(k).unwrap();
                    assert(self.entries@[j].name@ == k);
                }
            }
        } else {
            let mut values: Vec<String> = Vec::new();
            values.push(value);
            entries.push(Header { name, values });
            assert(texts(entries@[before.len() as int].values@) =~= seq![value@]);
            self.entries = entries;
            assert forall|k: Seq<char>|
                self.position(k) == (if k == name@ {
                    Some(before.len() as int)
                } else {
                    old(self).position(k)
                }) by {
                if k != name@ && old(self).position(k) is Some {
                    let j = old(self).position(k).unwrap();
                    assert(self.entries@[j].name@ == k);
                }
            }
        }
    }
}

} // verus!

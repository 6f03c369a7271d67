//! A snapshot of the process environment.

use vstd::prelude::*;

use crate::bytes::{bytes_eq, to_vec};

verus! {

/// The environment variables that an operation may consult: names bound to
/// values, both arbitrary byte strings.
///
/// A snapshot is a value.  The caller takes one from the process before each
/// operation, or builds one by hand.
#[derive(Debug, Clone)]
pub struct Environment {
    vars: Vec<(Vec<u8>, Vec<u8>)>,
}

/// The value of the first entry at or after `from` that is named `name`.
spec fn lookup(
    entries: Seq<(Vec<u8>, Vec<u8>)>,
    name: Seq<u8>,
    from: int,
) -> Option<Seq<u8>>
    decreases entries.len() - from,
{
    if from < 0 || from >= entries.len() {
        None
    } else if entries[from].0@ == name {
        Some(entries[from].1@)
    } else {
        lookup(entries, name, from + 1)
    }
}

/// No entry in `entries[from..to]` is named `name`.
spec fn absent(entries: Seq<(Vec<u8>, Vec<u8>)>, name: Seq<u8>, from: int, to: int) -> bool {
    forall|j: int| from <= j < to ==> (#[trigger] entries[j]).0@ != name
}

proof fn lemma_lookup_skips(entries: Seq<(Vec<u8>, Vec<u8>)>, name: Seq<u8>, from: int, to: int)
    requires
        0 <= from <= to <= entries.len(),
        absent(entries, name, from, to),
    ensures
        lookup(entries, name, from) == lookup(entries, name, to),
    decreases to - from,
{
    if from < to {
        lemma_lookup_skips(entries, name, from + 1, to);
    }
}

proof fn lemma_lookup_same_names(
    before: Seq<(Vec<u8>, Vec<u8>)>,
    after: Seq<(Vec<u8>, Vec<u8>)>,
    at: int,
    name: Seq<u8>,
    from: int,
)
    requires
        0 <= at < before.len(),
        after == before.update(at, after[at]),
        after[at].0@ == before[at].0@,
        0 <= from,
        name != before[at].0@ || from > at,
    ensures
        lookup(after, name, from) == lookup(before, name, from),
    decreases before.len() - from,
{
    if from < before.len() {
        lemma_lookup_same_names(before, after, at, name, from + 1);
    }
}

proof fn lemma_lookup_push(
    before: Seq<(Vec<u8>, Vec<u8>)>,
    entry: (Vec<u8>, Vec<u8>),
    name: Seq<u8>,
    from: int,
)
    requires
        0 <= from <= before.len(),
    ensures
        lookup(before.push(entry), name, from) == match lookup(before, name, from) {
            Some(value) => Some(value),
            None => if entry.0@ == name {
                Some(entry.1@)
            } else {
                None
            },
        },
    decreases before.len() - from,
{
    let after = before.push(entry);
    if from < before.len() {
        assert(after[from] == before[from]);
        lemma_lookup_push(before, entry, name, from + 1);
    } else {
        assert(after[from] == entry);
        assert(lookup(after, name, from + 1) is None);
    }
}

proof fn lemma_lookup_remove(
    before: Seq<(Vec<u8>, Vec<u8>)>,
    at: int,
    name: Seq<u8>,
    from: int,
)
    requires
        0 <= at < before.len(),
        0 <= from,
        name != before[at].0@,
    ensures
        from <= at ==> lookup(before.remove(at), name, from) == lookup(before, name, from),
        from > at ==> lookup(before.remove(at), name, from - 1) == lookup(before, name, from),
    decreases before.len() - from,
{
    let after = before.remove(at);
    if from < before.len() {
        lemma_lookup_remove(before, at, name, from + 1);
        if from < at {
            assert(after[from] == before[from]);
        } else if from > at {
            assert(after[from - 1] == before[from]);
        }
    }
}

impl View for Environment {
    type V = Map<Seq<u8>, Seq<u8>>;

    /// The variables as a map from name to value.
    closed spec fn view(&self) -> Map<Seq<u8>, Seq<u8>> {
        Map::new(
            |name: Seq<u8>| lookup(self.vars@, name, 0) is Some,
            |name: Seq<u8>| lookup(self.vars@, name, 0)->0,
        )
    }
}

impl Environment {
    /// An environment in which no variable is set.
    pub fn new() -> (env: Environment)
        ensures
            env@ == Map::<Seq<u8>, Seq<u8>>::empty(),
    {
        let env = Environment { vars: Vec::new() };
        assert(env@ =~= Map::<Seq<u8>, Seq<u8>>::empty());
        env
    }

    /// The index of the first entry named `name`, if there is one.
    fn position(&self, name: &[u8]) -> (found: Option<usize>)
        ensures
            match found {
                Some(at) => at < self.vars.len() && self.vars[at as int].0@ == name@ && absent(
                    self.vars@,
                    name@,
                    0,
                    at as int,
                ),
                None => absent(self.vars@, name@, 0, self.vars.len() as int),
            },
    {
        let mut i: usize = 0;
        while i < self.vars.len()
            invariant
                i <= self.vars.len(),
                absent(self.vars@, name@, 0, i as int),
            decreases self.vars.len() - i,
        {
            if bytes_eq(self.vars[i].0.as_slice(), name) {
                return Some(i);
            }
            i += 1;
        }
        None
    }

    /// The value of the variable `name`, or `None` where it is not set.
    pub fn get(&self, name: &[u8]) -> (value: Option<&[u8]>)
        ensures
            match value {
                Some(bytes) => self@.contains_key(name@) && self@[name@] == bytes@,
                None => !self@.contains_key(name@),
            },
    {
        let found = self.position(name);
        proof {
            match found {
                Some(at) => lemma_lookup_skips(self.vars@, name@, 0, at as int),
                None => lemma_lookup_skips(self.vars@, name@, 0, self.vars.len() as int),
            }
        }
        match found {
            Some(at) => Some(self.vars[at].1.as_slice()),
            None => None,
        }
    }

    /// Sets the variable `name` to `value`, in place of any value it had.
    pub fn set(&mut self, name: &[u8], value: &[u8])
        ensures
            final(self)@ == old(self)@.insert(name@, value@),
    {
        let found = self.position(name);
        let entry = (to_vec(name), to_vec(value));
        let ghost before = self.vars@;
        match found {
            Some(at) => {
                self.vars.set(at, entry);
                proof {
                    let after = self.vars@;
                    lemma_lookup_skips(after, name@, 0, at as int);
                    assert forall|other: Seq<u8>| other != name@ implies lookup(after, other, 0)
                        == lookup(before, other, 0) by {
                        lemma_lookup_same_names(before, after, at as int, other, 0);
                    }
                }
            },
            None => {
                self.vars.push(entry);
                proof {
                    lemma_lookup_skips(before, name@, 0, before.len() as int);
                    assert forall|other: Seq<u8>|
                        lookup(self.vars@, other, 0) == if other == name@ {
                            Some(value@)
                        } else {
                            lookup(before, other, 0)
                        } by {
                        lemma_lookup_push(before, entry, other, 0);
                    }
                }
            },
        }
        assert(self@ =~= old(self)@.insert(name@, value@));
    }

    /// Unsets the variable `name`.
    pub fn remove(&mut self, name: &[u8])
        ensures
            final(self)@ == old(self)@.remove(name@),
    {
        loop
            invariant
                forall|other: Seq<u8>|
                    other != name@ ==> lookup(self.vars@, other, 0) == lookup(
                        old(self).vars@,
                        other,
                        0,
                    ),
            ensures
                lookup(self.vars@, name@, 0) is None,
            decreases self.vars.len(),
        {
            let found = self.position(name);
            match found {
                Some(at) => {
                    let ghost before = self.vars@;
                    self.vars.remove(at);
                    proof {
                        assert forall|other: Seq<u8>| other != name@ implies lookup(
                            self.vars@,
                            other,
                            0,
                        ) == lookup(before, other, 0) by {
                            lemma_lookup_remove(before, at as int, other, 0);
                        }
                    }
                },
                None => {
                    proof {
                        lemma_lookup_skips(self.vars@, name@, 0, self.vars.len() as int);
                    }
                    break ;
                },
            }
        }
        assert(self@ =~= old(self)@.remove(name@));
    }
}

} // verus!

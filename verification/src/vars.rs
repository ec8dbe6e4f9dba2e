//! Environment variable sets handed to worker processes.
use vstd::prelude::*;

verus! {

/// The map that a sequence of `(name, value)` assignments builds when they
/// are applied in order: a later assignment of a name replaces an earlier one.
pub open spec fn assignments_map(s: Seq<(String, String)>) -> Map<Seq<char>, Seq<char>>
    decreases s.len(),
{
    if s.len() == 0 {
        Map::empty()
    } else {
        assignments_map(s.drop_last()).insert(s.last().0@, s.last().1@)
    }
}

/// The names of a sequence of assignments, in order.
pub open spec fn names_of(s: Seq<(String, String)>) -> Seq<Seq<char>> {
    s.map_values(|e: (String, String)| e.0@)
}

/// A set of environment variables: each name occurs at most once.
#[derive(Debug)]
pub struct EnvVars {
    entries: Vec<(String, String)>,
}

impl View for EnvVars {
    type V = Map<Seq<char>, Seq<char>>;

    closed spec fn view(&self) -> Map<Seq<char>, Seq<char>> {
        assignments_map(self.entries@)
    }
}

proof fn lemma_push(s: Seq<(String, String)>, e: (String, String))
    ensures
        assignments_map(s.push(e)) == assignments_map(s).insert(e.0@, e.1@),
{
    assert(s.push(e).drop_last() =~= s);
}

proof fn lemma_update(s: Seq<(String, String)>, i: int, e: (String, String))
    requires
        names_of(s).no_duplicates(),
        0 <= i < s.len(),
        s[i].0@ == e.0@,
    ensures
        assignments_map(s.update(i, e)) =~= assignments_map(s).insert(e.0@, e.1@),
    decreases s.len(),
{
    let t = s.update(i, e);
    if i == s.len() - 1 {
        assert(t.drop_last() =~= s.drop_last());
    } else {
        let d = s.drop_last();
        assert(t.drop_last() =~= d.update(i, e));
        assert(names_of(d) =~= names_of(s).drop_last());
        assert(names_of(d).no_duplicates()) by {
            assert forall|a: int, b: int| 0 <= a < b < names_of(d).len()
                implies names_of(d)[a] != names_of(d)[b] by {
                assert(names_of(s)[a] == names_of(d)[a]);
                assert(names_of(s)[b] == names_of(d)[b]);
            }
        }
        lemma_update(d, i, e);
        assert(names_of(s)[i] != names_of(s)[s.len() - 1]);
    }
}

impl Clone for EnvVars {
    fn clone(&self) -> (r: Self)
        ensures
            r.assignments() == self.assignments(),
            r@ == self@,
    {
        proof {
            use_type_invariant(self);
        }
        let mut entries: Vec<(String, String)> = Vec::new();
        let n = self.entries.len();
        let mut i: usize = 0;
        while i < n
            invariant
                n == self.entries.len(),
                i <= n,
                entries@ == self.entries@.take(i as int),
            decreases n - i,
        {
            let name = self.entries[i].0.clone();
            let value = self.entries[i].1.clone();
            entries.push((name, value));
            proof {
                assert(entries@ =~= self.entries@.take(i + 1));
            }
            i = i + 1;
        }
        proof {
            assert(self.entries@.take(n as int) =~= self.entries@);
            assert(names_of(entries@) =~= names_of(self.entries@));
        }
        EnvVars { entries }
    }
}

impl EnvVars {
    /// Well-formedness: no name occurs twice.
    #[verifier::type_invariant]
    closed spec fn wf(&self) -> bool {
        names_of(self.entries@).no_duplicates()
    }

    /// The assignments held, in the order in which their names were first set.
    pub closed spec fn assignments(&self) -> Seq<(String, String)> {
        self.entries@
    }

    /// The view is the map that the held assignments build.
    pub proof fn lemma_view(&self)
        ensures
            self@ == assignments_map(self.assignments()),
    {
    }

    /// The assignments held, for handing them to a process.
    pub fn entries(&self) -> (r: &Vec<(String, String)>)
        ensures
            r@ == self.assignments(),
    {
        &self.entries
    }

    /// An empty set of variables.
    pub fn new() -> (r: EnvVars)
        ensures
            r@ == Map::<Seq<char>, Seq<char>>::empty(),
    {
        EnvVars { entries: Vec::new() }
    }

    /// Sets `name` to `value`, replacing any earlier value of `name`.
    pub fn insert(&mut self, name: String, value: String)
        ensures
            final(self)@ == old(self)@.insert(name@, value@),
    {
        proof {
            use_type_invariant(&*self);
        }
        let mut entries: Vec<(String, String)> = Vec::new();
        std::mem::swap(&mut entries, &mut self.entries);
        let ghost before = entries@;
        let n = entries.len();
        let mut i: usize = 0;
        while i < n
            invariant
                n == entries.len(),
                i <= n,
                entries@ == before,
                before == old(self).entries@,
                names_of(before).no_duplicates(),
                forall|j: int| 0 <= j < i ==> #[trigger] before[j].0@ != name@,
            decreases n - i,
        {
            if entries[i].0 == name {
                proof {
                    lemma_update(before, i as int, (name, value));
                }
                entries.set(i, (name, value));
                proof {
                    assert(names_of(entries@) =~= names_of(before));
                }
                self.entries = entries;
                return;
            }
            i = i + 1;
        }
        proof {
            lemma_push(before, (name, value));
            assert(!names_of(before).contains(name@)) by {
                if names_of(before).contains(name@) {
                    let j = choose|j: int| 0 <= j < names_of(before).len() && names_of(before)[j] == name@;
                    assert(before[j].0@ == name@);
                }
            }
        }
        entries.push((name, value));
        proof {
            assert(names_of(entries@) =~= names_of(before).push(name@));
        }
        self.entries = entries;
    }

    /// Builds a set of variables from assignments applied in order, so that
    /// a later value of a name replaces an earlier one.
    pub fn from_assignments(pairs: Vec<(String, String)>) -> (r: EnvVars)
        ensures
            r@ == assignments_map(pairs@),
    {
        let mut r = EnvVars::new();
        let n = pairs.len();
        let mut i: usize = 0;
        while i < n
            invariant
                n == pairs.len(),
                i <= n,
                r@ == assignments_map(pairs@.take(i as int)),
            decreases n - i,
        {
            let name = pairs[i].0.clone();
            let value = pairs[i].1.clone();
            r.insert(name, value);
            proof {
                assert(pairs@.take(i + 1).drop_last() =~= pairs@.take(i as int));
            }
            i = i + 1;
        }
        proof {
            assert(pairs@.take(n as int) =~= pairs@);
        }
        r
    }
}

}

use vstd::prelude::*;

verus! {

/// One meaning of a word.
#[derive(Debug, Clone, PartialEq, Eq)]
pub struct Sense {
    /// The meaning itself.
    pub sense: String,
    /// The period or context of use, when one is known.
    pub date: Option<String>,
    /// Example sentences, in display order; empty when none are given.
    pub examples: Vec<String>,
}

/// One part of speech of a word, with its meanings in display order.
#[derive(Debug, Clone, PartialEq, Eq)]
pub struct PartOfSpeech {
    /// The label, such as "Noun" or "Verb".
    pub part_of_speech: String,
    /// The meanings under this label.
    pub senses: Vec<Sense>,
}

/// One historical origin of a word, with its parts of speech in display order.
#[derive(Debug, Clone, PartialEq, Eq)]
pub struct Etymology {
    /// The parts of speech of this origin.
    pub parts_of_speech: Vec<PartOfSpeech>,
}

/// Everything a dictionary shard holds on one word.
#[derive(Debug, Clone, PartialEq, Eq)]
pub struct Definition {
    /// The word being defined.
    pub word: String,
    /// Its origins, in display order.
    pub etymologies: Vec<Etymology>,
}

/// A loaded shard: each word, exactly as stored, maps to one definition.
pub struct Dictionary {
    entries: Vec<(String, Definition)>,
}

impl View for Dictionary {
    type V = Map<Seq<char>, Definition>;

    closed spec fn view(&self) -> Map<Seq<char>, Definition> {
        Map::new(
            |k: Seq<char>| self.holds(k),
            |k: Seq<char>| self.entries@[self.position(k)].1,
        )
    }
}

impl Dictionary {
    spec fn holds(&self, k: Seq<char>) -> bool {
        exists|i: int| 0 <= i < self.entries@.len() && (#[trigger] self.entries@[i]).0@ == k
    }

    spec fn position(&self, k: Seq<char>) -> int {
        choose|i: int| 0 <= i < self.entries@.len() && (#[trigger] self.entries@[i]).0@ == k
    }

    /// No word is stored twice.
    pub closed spec fn wf(&self) -> bool {
        forall|i: int, j: int|
            0 <= i < self.entries@.len() && 0 <= j < self.entries@.len() && (
            #[trigger] self.entries@[i]).0@ == (#[trigger] self.entries@[j]).0@ ==> i == j
    }

    /// An empty shard.
    pub fn new() -> (r: Dictionary)
        ensures
            r.wf(),
            r@ == Map::<Seq<char>, Definition>::empty(),
    {
        let r = Dictionary { entries: Vec::new() };
        assert(r@ =~= Map::<Seq<char>, Definition>::empty());
        r
    }

    fn find(&self, word: &String) -> (r: Option<usize>)
        requires
            self.wf(),
        ensures
            r matches Some(i) ==> i < self.entries@.len() && self.entries@[i as int].0@ == word@
                && self.position(word@) == i,
            r is None <==> !self.holds(word@),
    {
        let mut i: usize = 0;
        while i < self.entries.len()
            invariant
                self.wf(),
                i <= self.entries@.len(),
                forall|j: int| 0 <= j < i ==> (#[trigger] self.entries@[j]).0@ != word@,
            decreases self.entries@.len() - i,
        {
            if self.entries[i].0 == *word {
                assert(self.holds(word@));
                return Some(i);
            }
            i = i + 1;
        }
        None
    }

    /// Looks a word up exactly as given: case matters, and nothing is
    /// normalised.
    pub fn get(&self, word: &String) -> (r: Option<&Definition>)
        requires
            self.wf(),
        ensures
            r matches Some(d) ==> self@.contains_key(word@) && self@[word@] == *d,
            r is None <==> !self@.contains_key(word@),
    {
        match self.find(word) {
            Some(i) => Some(&self.entries[i].1),
            None => None,
        }
    }

    /// Stores a definition under a word, replacing what was stored under it.
    pub fn insert(&mut self, word: String, def: Definition)
        requires
            old(self).wf(),
        ensures
            final(self).wf(),
            final(self)@ == old(self)@.insert(word@, def),
    {
        let ghost k = word@;
        match self.find(&word) {
            Some(i) => {
                self.entries[i] = (word, def);
                assert forall|j: int| 0 <= j < self.entries@.len() && j != i implies
                    self.entries@[j].0@ != k by {
                    if self.entries@[j].0@ == k {
                        assert(old(self).entries@[j].0@ == old(self).entries@[i as int].0@);
                    }
                }
                assert forall|q: Seq<char>| old(self).holds(q) || q == k implies self.holds(q) by {
                    if q == k {
                        assert(self.entries@[i as int].0@ == q);
                    } else {
                        let p = old(self).position(q);
                        assert(self.entries@[p].0@ == q);
                    }
                }
                assert forall|q: Seq<char>| self.holds(q) implies old(self).holds(q) || q == k by {
                    let p = self.position(q);
                    if p != i {
                        assert(old(self).entries@[p].0@ == q);
                    }
                }
                assert forall|q: Seq<char>| #[trigger] self.holds(q) && q != k implies
                    self.position(q) == old(self).position(q) by {
                    let p = self.position(q);
                    assert(old(self).entries@[p].0@ == q);
                }
                assert(self.position(k) == i) by {
                    assert(self.holds(k));
                }
                assert(self@ =~= old(self)@.insert(k, def));
            },
            None => {
                self.entries.push((word, def));
                let ghost n = (self.entries@.len() - 1) as int;
                assert forall|q: Seq<char>| old(self).holds(q) implies self.holds(q)
                    && self.position(q) == old(self).position(q) by {
                    let p = old(self).position(q);
                    assert(self.entries@[p].0@ == q);
                }
                assert(self.holds(k)) by {
                    assert(self.entries@[n].0@ == k);
                }
                assert forall|q: Seq<char>| self.holds(q) implies old(self).holds(q) || q == k by {
                    let p = self.position(q);
                    if p != n {
                        assert(old(self).entries@[p].0@ == q);
                    }
                }
                assert(self.position(k) == n);
                assert(self@ =~= old(self)@.insert(k, def));
            },
        }
    }
}

} // verus!

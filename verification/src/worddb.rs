//! Store of the unique words harvested from documents.

use vstd::prelude::*;

verus! {

broadcast use vstd::set::group_set_axioms, vstd::seq::group_seq_axioms;

/// Stores unique words.
pub struct WordDb {
    words: Vec<String>,
}

impl View for WordDb {
    type V = Set<Seq<char>>;

    closed spec fn view(&self) -> Set<Seq<char>> {
        self.word_seq().to_set()
    }
}

impl WordDb {
    /// The sequence of stored words, as character sequences.
    closed spec fn word_seq(&self) -> Seq<Seq<char>> {
        self.words@.map_values(|s: String| s@)
    }

    /// Well-formedness: no word is stored twice.
    pub closed spec fn wf(&self) -> bool {
        self.word_seq().no_duplicates()
    }

    /// Returns a new WordDb instance.
    pub fn new() -> (db: WordDb)
        ensures
            db.wf(),
            db@ == Set::<Seq<char>>::empty(),
    {
        let db = WordDb { words: Vec::new() };
        proof {
            assert(db.word_seq() =~= Seq::empty());
            assert(db@ =~= Set::empty());
        }
        db
    }

    /// Returns the length of the word database.
    pub fn len(&self) -> (n: usize)
        requires
            self.wf(),
        ensures
            n == self@.len(),
    {
        proof {
            self.word_seq().unique_seq_to_set();
        }
        self.words.len()
    }

    /// Inserts word into db, unless it is already there.
    pub fn insert(&mut self, word: String)
        requires
            old(self).wf(),
        ensures
            final(self).wf(),
            final(self)@ == old(self)@.insert(word@),
    {
        let n = self.words.len();
        let mut i: usize = 0;
        while i < n
            invariant
                self.wf(),
                self.words@ == old(self).words@,
                n == self.words.len(),
                i <= n,
                forall|j: int| 0 <= j < i ==> self.word_seq()[j] != word@,
            decreases n - i,
        {
            if self.words[i].eq(&word) {
                proof {
                    assert(self.word_seq()[i as int] == word@);
                    assert(self@.contains(word@));
                    assert(self@ =~= self@.insert(word@));
                }
                return ;
            }
            i += 1;
        }
        let ghost olds = self.word_seq();
        self.words.push(word);
        proof {
            assert(self.word_seq() =~= olds.push(word@));
            assert(!olds.contains(word@)) by {
                if olds.contains(word@) {
                    let j = choose|j: int| 0 <= j < olds.len() && olds[j] == word@;
                }
            }
            assert(self.word_seq().no_duplicates()) by {
                assert forall|a: int, b: int|
                    0 <= a < b < self.word_seq().len() implies self.word_seq()[a]
                    != self.word_seq()[b] by {
                    if b == self.word_seq().len() - 1 {
                        assert(olds[a] == self.word_seq()[a]);
                    }
                }
            }
            assert(self@ =~= olds.to_set().insert(word@)) by {
                assert forall|w: Seq<char>| #[trigger] self@.contains(w) implies olds.to_set(
                ).insert(word@).contains(w) by {
                    let j = choose|j: int|
                        0 <= j < self.word_seq().len() && self.word_seq()[j] == w;
                    if j < olds.len() {
                        assert(olds[j] == w);
                    }
                }
                assert forall|w: Seq<char>|
                    olds.to_set().insert(word@).contains(w) implies #[trigger] self@.contains(
                    w,
                ) by {
                    if olds.to_set().contains(w) {
                        let j = choose|j: int| 0 <= j < olds.len() && olds[j] == w;
                        assert(self.word_seq()[j] == w);
                    } else {
                        assert(self.word_seq()[self.word_seq().len() - 1] == w);
                    }
                }
            }
        }
    }

    /// Returns the discovered words, each exactly once.
    pub fn iter(&self) -> (r: Vec<String>)
        requires
            self.wf(),
        ensures
            r@.map_values(|s: String| s@).to_set() == self@,
            r@.map_values(|s: String| s@).no_duplicates(),
            r@.len() == self@.len(),
    {
        let n = self.words.len();
        let mut out: Vec<String> = Vec::new();
        let mut i: usize = 0;
        while i < n
            invariant
                self.wf(),
                n == self.words.len(),
                i <= n,
                out@.map_values(|s: String| s@) == self.word_seq().take(i as int),
            decreases n - i,
        {
            let ghost prev = out@;
            out.push(self.words[i].clone());
            i += 1;
            proof {
                assert(out@ == prev.push(self.words@[i - 1]));
                assert(out@.map_values(|s: String| s@) =~= self.word_seq().take(i as int)) by {
                    assert(self.word_seq().take(i as int).drop_last() =~= self.word_seq().take(
                        i - 1,
                    ));
                    assert(out@.map_values(|s: String| s@) =~= prev.map_values(
                        |s: String| s@,
                    ).push(self.words@[i - 1]@));
                }
            }
        }
        proof {
            assert(self.word_seq().take(n as int) =~= self.word_seq());
            self.word_seq().unique_seq_to_set();
        }
        out
    }
}

} // verus!

//! The table that assigns a model to each translation direction.
//!
//! A direction is an ordered pair of a source and a target language. The
//! models themselves live with the caller; the table holds their indices.
use vstd::prelude::*;
use crate::error::{ConfigError, TranslateError};
use crate::text::same_text;

verus! {

/// An ordered pair of source and target language, as a table's key.
pub type DirectionKey = (Seq<char>, Seq<char>);

/// One line of the table: a direction and the index of the model for it.
pub struct Direction {
    pub source: String,
    pub target: String,
    pub model: usize,
}

impl Direction {
    /// The key under which this line stands in the table.
    pub open spec fn key(&self) -> DirectionKey {
        (self.source@, self.target@)
    }
}

/// The directions that the engine serves, each with its model.
pub struct DirectionTable {
    entries: Vec<Direction>,
    models: usize,
}

/// Index of the model that translates Ukrainian to English in the table that
/// `DirectionTable::bidirectional` builds.
pub const UK_TO_EN: usize = 0;

/// Index of the model that translates English to Ukrainian in that table.
pub const EN_TO_UK: usize = 1;

impl View for DirectionTable {
    type V = Map<DirectionKey, usize>;

    /// The table as a map from directions to model indices.
    closed spec fn view(&self) -> Map<DirectionKey, usize> {
        Map::new(
            |k: DirectionKey| self.holds(k),
            |k: DirectionKey| self.entries@[self.line_of(k)].model,
        )
    }
}

impl DirectionTable {
    spec fn holds(&self, k: DirectionKey) -> bool {
        exists|i: int| 0 <= i < self.entries@.len() && #[trigger] self.entries@[i].key() == k
    }

    spec fn line_of(&self, k: DirectionKey) -> int {
        choose|i: int| 0 <= i < self.entries@.len() && #[trigger] self.entries@[i].key() == k
    }

    /// The number of models that the table may refer to.
    pub closed spec fn models(&self) -> nat {
        self.models as nat
    }

    /// No direction stands twice, and every line names a model that exists.
    pub closed spec fn wf(&self) -> bool {
        &&& forall|i: int|
            0 <= i < self.entries@.len() ==> (#[trigger] self.entries@[i]).model < self.models
        &&& forall|i: int, j: int|
            0 <= i < self.entries@.len() && 0 <= j < self.entries@.len() && i != j ==> (
            #[trigger] self.entries@[i]).key() != (#[trigger] self.entries@[j]).key()
    }

    proof fn lemma_line(&self, i: int)
        requires
            self.wf(),
            0 <= i < self.entries@.len(),
        ensures
            self@.contains_key(self.entries@[i].key()),
            self@[self.entries@[i].key()] == self.entries@[i].model,
            self.line_of(self.entries@[i].key()) == i,
    {
        let k = self.entries@[i].key();
        assert(self.holds(k));
        let j = self.line_of(k);
        assert(self.entries@[j].key() == k);
    }

    /// An empty table for `models` models.
    pub fn new(models: usize) -> (table: DirectionTable)
        ensures
            table.wf(),
            table@ == Map::<DirectionKey, usize>::empty(),
            table.models() == models,
    {
        let table = DirectionTable { entries: Vec::new(), models };
        assert(table@ =~= Map::<DirectionKey, usize>::empty());
        table
    }

    /// The number of directions in the table.
    pub fn len(&self) -> (n: usize)
        requires
            self.wf(),
        ensures
            n == self@.dom().len(),
            self@.dom().finite(),
    {
        proof {
            self.lemma_dom_len(self.entries@.len() as int);
            assert(self.dom_upto(self.entries@.len() as int) =~= self@.dom());
        }
        self.entries.len()
    }

    spec fn dom_upto(&self, n: int) -> Set<DirectionKey> {
        Set::new(|k: DirectionKey| exists|i: int| 0 <= i < n && #[trigger] self.entries@[i].key() == k)
    }

    proof fn lemma_dom_len(&self, n: int)
        requires
            self.wf(),
            0 <= n <= self.entries@.len(),
        ensures
            self.dom_upto(n).finite(),
            self.dom_upto(n).len() == n,
        decreases n,
    {
        if n == 0 {
            assert(self.dom_upto(0) =~= Set::<DirectionKey>::empty());
        } else {
            self.lemma_dom_len(n - 1);
            let k = self.entries@[n - 1].key();
            assert(!self.dom_upto(n - 1).contains(k));
            assert(self.dom_upto(n) =~= self.dom_upto(n - 1).insert(k));
        }
    }

    /// Finds the model for the direction from `source` to `target`.
    ///
    /// Fails with `UnsupportedDirection` where the table does not hold the
    /// pair.
    pub fn select(&self, source: &str, target: &str) -> (r: Result<usize, TranslateError>)
        requires
            self.wf(),
        ensures
            match r {
                Ok(model) => self@.contains_key((source@, target@)) && self@[(source@, target@)]
                    == model && model < self.models(),
                Err(e) => e == TranslateError::UnsupportedDirection && !self@.contains_key(
                    (source@, target@),
                ),
            },
    {
        let mut i: usize = 0;
        while i < self.entries.len()
            invariant
                self.wf(),
                i <= self.entries@.len(),
                forall|j: int| 0 <= j < i ==> (#[trigger] self.entries@[j]).key() != (source@, target@),
            decreases self.entries@.len() - i,
        {
            let entry = &self.entries[i];
            if same_text(entry.source.as_str(), source) && same_text(entry.target.as_str(), target) {
                proof {
                    self.lemma_line(i as int);
                }
                return Ok(entry.model);
            }
            i += 1;
        }
        Err(TranslateError::UnsupportedDirection)
    }

    /// Enters the direction from `source` to `target` with its model.
    ///
    /// Fails with `UnknownModel` where `model` is not below the number of
    /// models, else with `DuplicateDirection` where the table holds the pair
    /// already; the table is then left as it was.
    pub fn add(&mut self, source: &str, target: &str, model: usize) -> (r: Result<(), ConfigError>)
        requires
            old(self).wf(),
        ensures
            final(self).wf(),
            final(self).models() == old(self).models(),
            match r {
                Ok(_) => model < old(self).models() && !old(self)@.contains_key((source@, target@))
                    && final(self)@ == old(self)@.insert((source@, target@), model),
                Err(e) => final(self)@ == old(self)@ && if model >= old(self).models() {
                    e == ConfigError::UnknownModel
                } else {
                    e == ConfigError::DuplicateDirection && old(self)@.contains_key(
                        (source@, target@),
                    )
                },
            },
    {
        if model >= self.models {
            return Err(ConfigError::UnknownModel);
        }
        if self.select(source, target).is_ok() {
            return Err(ConfigError::DuplicateDirection);
        }
        let ghost before = *self;
        let entry = Direction {
            source: String::from_str(source),
            target: String::from_str(target),
            model,
        };
        self.entries.push(entry);
        proof {
            let k = (source@, target@);
            let n = before.entries@.len() as int;
            assert(self.entries@[n].key() == k);
            assert forall|i: int| 0 <= i < n implies self.entries@[i] == before.entries@[i] by {}
            assert forall|i: int| 0 <= i < n implies (#[trigger] self.entries@[i]).key() != k by {
                assert(before.holds(before.entries@[i].key()));
            }
            assert(self.wf());
            assert forall|q: DirectionKey| #[trigger] self@.contains_key(q) <==> before@.insert(
                k,
                model,
            ).contains_key(q) by {
                if before.holds(q) {
                    let j = before.line_of(q);
                    assert(self.entries@[j].key() == q);
                }
                if q == k {
                    assert(self.holds(q));
                }
            }
            assert forall|q: DirectionKey| #[trigger] self@.contains_key(q) implies self@[q]
                == before@.insert(k, model)[q] by {
                let j = self.line_of(q);
                self.lemma_line(j);
                if j < n {
                    before.lemma_line(j);
                }
            }
            assert(self@ =~= before@.insert(k, model));
        }
        Ok(())
    }

    /// The table of the two directions between Ukrainian ("uk") and English
    /// ("en"), for two models: `UK_TO_EN` and `EN_TO_UK`.
    pub fn bidirectional() -> (table: DirectionTable)
        ensures
            table.wf(),
            table.models() == 2,
            table@ == Map::<DirectionKey, usize>::empty().insert(("uk"@, "en"@), UK_TO_EN).insert(
                ("en"@, "uk"@),
                EN_TO_UK,
            ),
    {
        let mut table = DirectionTable::new(2);
        let _ = table.add("uk", "en", UK_TO_EN);
        proof {
            reveal_strlit("en");
            reveal_strlit("uk");
            assert("en"@[0] != "uk"@[0]);
        }
        let _ = table.add("en", "uk", EN_TO_UK);
        table
    }
}

} // verus!

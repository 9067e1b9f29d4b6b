//! The tokens that are staged for one forward pass.
use vstd::prelude::*;
use crate::error::TranslateError;

verus! {

/// The number of tokens that one forward pass takes at most.
pub const BATCH_CAPACITY: usize = 512;

/// The cache slot of every token: a session holds one sequence.
pub const CACHE_SLOT: i32 = 0;

/// A token as it is handed to a forward pass.
#[derive(Clone, Copy, Debug, PartialEq, Eq, Structural)]
pub struct StagedToken {
    /// The token's id in the model's vocabulary.
    pub id: i32,
    /// The token's position in the sequence, counted from zero.
    pub position: i32,
    /// The cache slot of the sequence that the token belongs to.
    pub slot: i32,
    /// Whether the pass is to compute the distribution after this token.
    pub needs_logits: bool,
}

/// The staged form of a prompt: each token at its index, and logits asked
/// for the last one only.
pub open spec fn prompt_batch(tokens: Seq<i32>) -> Seq<StagedToken> {
    Seq::new(
        tokens.len(),
        |i: int|
            StagedToken {
                id: tokens[i],
                position: i as i32,
                slot: CACHE_SLOT,
                needs_logits: i == tokens.len() - 1,
            },
    )
}

/// The staged form of one generated token at `position`, with logits.
pub open spec fn next_batch(id: i32, position: i32) -> Seq<StagedToken> {
    seq![StagedToken { id, position, slot: CACHE_SLOT, needs_logits: true }]
}

/// The tokens of one forward pass, `BATCH_CAPACITY` at most.
pub struct Batch {
    tokens: Vec<StagedToken>,
}

impl View for Batch {
    type V = Seq<StagedToken>;

    closed spec fn view(&self) -> Seq<StagedToken> {
        self.tokens@
    }
}

impl Batch {
    /// The batch holds no more tokens than a forward pass takes.
    pub closed spec fn wf(&self) -> bool {
        self.tokens@.len() <= BATCH_CAPACITY
    }

    /// Well-formed batches are within the capacity.
    pub proof fn lemma_within_capacity(&self)
        requires
            self.wf(),
        ensures
            self@.len() <= BATCH_CAPACITY,
    {
    }

    /// An empty batch.
    pub fn new() -> (batch: Batch)
        ensures
            batch.wf(),
            batch@ == Seq::<StagedToken>::empty(),
    {
        Batch { tokens: Vec::new() }
    }

    /// The number of staged tokens.
    pub fn len(&self) -> (n: usize)
        ensures
            n == self@.len(),
    {
        self.tokens.len()
    }

    /// The staged tokens, in order.
    pub fn tokens(&self) -> (tokens: &Vec<StagedToken>)
        ensures
            tokens@ == self@,
    {
        &self.tokens
    }

    /// Takes every token out of the batch.
    pub fn clear(&mut self)
        ensures
            final(self).wf(),
            final(self)@ == Seq::<StagedToken>::empty(),
    {
        self.tokens.clear();
    }

    /// Stages one token behind those that are staged already.
    ///
    /// Fails with `ForwardError`, and leaves the batch as it was, where the
    /// batch is full.
    pub fn add(&mut self, id: i32, position: i32, needs_logits: bool) -> (r: Result<
        (),
        TranslateError,
    >)
        requires
            old(self).wf(),
        ensures
            final(self).wf(),
            match r {
                Ok(_) => old(self)@.len() < BATCH_CAPACITY && final(self)@ == old(self)@.push(
                    StagedToken { id, position, slot: CACHE_SLOT, needs_logits },
                ),
                Err(e) => old(self)@.len() == BATCH_CAPACITY && e == TranslateError::ForwardError
                    && final(self)@ == old(self)@,
            },
    {
        if self.tokens.len() >= BATCH_CAPACITY {
            return Err(TranslateError::ForwardError);
        }
        self.tokens.push(StagedToken { id, position, slot: CACHE_SLOT, needs_logits });
        Ok(())
    }

    /// Stages a whole prompt: each token at its index, logits for the last.
    ///
    /// Fails with `ForwardError` where the prompt has more tokens than a
    /// forward pass takes.
    pub fn stage_prompt(tokens: &[i32]) -> (r: Result<Batch, TranslateError>)
        ensures
            match r {
                Ok(batch) => tokens@.len() <= BATCH_CAPACITY && batch.wf() && batch@
                    == prompt_batch(tokens@),
                Err(e) => tokens@.len() > BATCH_CAPACITY && e == TranslateError::ForwardError,
            },
    {
        let n = tokens.len();
        if n > BATCH_CAPACITY {
            return Err(TranslateError::ForwardError);
        }
        let mut batch = Batch::new();
        let mut i: usize = 0;
        let mut position: i32 = 0;
        while i < n
            invariant
                n == tokens@.len(),
                n <= BATCH_CAPACITY,
                i <= n,
                position == i,
                batch.wf(),
                batch@.len() == i,
                forall|j: int| 0 <= j < i ==> #[trigger] batch@[j] == prompt_batch(tokens@)[j],
            decreases n - i,
        {
            let is_last = i + 1 == n;
            let staged = batch.add(tokens[i], position, is_last);
            assert(staged.is_ok());
            i += 1;
            position += 1;
        }
        assert(batch@ =~= prompt_batch(tokens@));
        Ok(batch)
    }

    /// Replaces what is staged by one generated token at `position`, with
    /// logits.
    pub fn stage_next(&mut self, id: i32, position: i32)
        ensures
            final(self).wf(),
            final(self)@ == next_batch(id, position),
    {
        self.clear();
        let staged = self.add(id, position, true);
        assert(staged.is_ok());
        assert(self@ =~= next_batch(id, position));
    }
}

} // verus!

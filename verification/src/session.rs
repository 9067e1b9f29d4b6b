//! The steps of a request, in executable form.
//!
//! Each pending step is a value of its own type. The caller reads from it
//! what the model is to do, does it, and hands the result to the step's one
//! consuming method, which gives the next step. A step cannot be answered
//! twice or out of turn, and a session's state is never shared: it moves
//! from step to step and is dropped with the last.
use vstd::prelude::*;
use crate::batch::{Batch, StagedToken};
use crate::config::ContextParams;
use crate::error::TranslateError;
use crate::protocol::{
    admission, after_context, after_detokenize, after_forward, after_sample, after_tokenize,
    ContextView, DetokenizeView, OutcomeView, SessionView, StepView, TokensView,
};
use crate::stream::{TextStream, MAX_FRAGMENT_BYTES};
use crate::text::trim;

verus! {

/// How a request ended.
pub struct Outcome {
    /// The translation, or why there is none.
    pub result: Result<String, TranslateError>,
    /// Number of forward passes that the request asked for.
    pub forward_passes: u64,
}

/// A request that waits for a generation context.
pub struct PendingContext {
    model: usize,
    prompt: String,
    params: ContextParams,
    max_len: i32,
}

/// A request that waits for the tokens of its prompt.
pub struct PendingTokens {
    prompt: String,
    capacity: u32,
    max_len: i32,
}

/// The state of a session.
struct Generation {
    prompt_len: i64,
    position: i64,
    max_len: i64,
    batch: Batch,
    output: String,
    stream: TextStream,
}

/// A session that waits for a forward pass.
pub struct PendingForward {
    run: Generation,
}

/// A session that waits for a sampled token.
pub struct PendingSample {
    run: Generation,
}

/// A session that waits for the bytes of a token.
pub struct PendingBytes {
    run: Generation,
    token: i32,
}

/// A step in the course of a request.
pub enum Step {
    /// Open a context on the model and report its capacity.
    Context(PendingContext),
    /// Turn the prompt into tokens, a beginning-of-sequence marker first.
    Tokenize(PendingTokens),
    /// Run a forward pass over the batch.
    Forward(PendingForward),
    /// Sample a token from the logits at the given index of the batch.
    Sample(PendingSample),
    /// Turn the sampled token into bytes.
    Detokenize(PendingBytes),
    /// The request has ended.
    Done(Outcome),
}

/// The tokens that a tokenizer gave, if it gave any, as a sequence.
pub open spec fn tokens_view(tokens: Option<Vec<i32>>) -> Option<Seq<i32>> {
    match tokens {
        Some(tokens) => Some(tokens@),
        None => None,
    }
}

/// The bytes that a tokenizer gave, if it gave any, as a sequence.
pub open spec fn bytes_view(bytes: Option<Vec<u8>>) -> Option<Seq<u8>> {
    match bytes {
        Some(bytes) => Some(bytes@),
        None => None,
    }
}

impl View for Outcome {
    type V = OutcomeView;

    open spec fn view(&self) -> OutcomeView {
        OutcomeView {
            result: match self.result {
                Ok(text) => Ok(text@),
                Err(error) => Err(error),
            },
            forward_passes: self.forward_passes as int,
        }
    }
}

impl View for PendingContext {
    type V = ContextView;

    closed spec fn view(&self) -> ContextView {
        ContextView {
            model: self.model,
            prompt: self.prompt@,
            params: self.params,
            max_len: self.max_len as int,
        }
    }
}

impl View for PendingTokens {
    type V = TokensView;

    closed spec fn view(&self) -> TokensView {
        TokensView {
            prompt: self.prompt@,
            capacity: self.capacity as int,
            max_len: self.max_len as int,
        }
    }
}

impl View for Generation {
    type V = SessionView;

    closed spec fn view(&self) -> SessionView {
        SessionView {
            prompt_len: self.prompt_len as int,
            position: self.position as int,
            max_len: self.max_len as int,
            batch: self.batch@,
            output: self.output@,
            fed: self.stream.fed(),
        }
    }
}

impl View for PendingForward {
    type V = SessionView;

    closed spec fn view(&self) -> SessionView {
        self.run@
    }
}

impl View for PendingSample {
    type V = SessionView;

    closed spec fn view(&self) -> SessionView {
        self.run@
    }
}

impl View for PendingBytes {
    type V = DetokenizeView;

    closed spec fn view(&self) -> DetokenizeView {
        DetokenizeView { session: self.run@, token: self.token }
    }
}

impl View for Step {
    type V = StepView;

    open spec fn view(&self) -> StepView {
        match self {
            Step::Context(pending) => StepView::Context(pending@),
            Step::Tokenize(pending) => StepView::Tokenize(pending@),
            Step::Forward(pending) => StepView::Forward(pending@),
            Step::Sample(pending) => StepView::Sample(pending@),
            Step::Detokenize(pending) => StepView::Detokenize(pending@),
            Step::Done(outcome) => StepView::Done(outcome@),
        }
    }
}

/// Tests whether a prompt of `prompt_len` tokens is admitted to a context
/// of the given capacity under the limit `max_len`.
///
/// Fails with `ContextTooSmall` where the context cannot hold the prompt and
/// what may be generated, else with `PromptTooLong` where the prompt leaves
/// no room for a generated token.
pub fn check_budget(prompt_len: usize, max_len: i32, capacity: u32) -> (r: Result<
    (),
    TranslateError,
>)
    ensures
        match r {
            Ok(_) => admission(prompt_len as int, max_len as int, capacity as int).is_none(),
            Err(error) => admission(prompt_len as int, max_len as int, capacity as int) == Some(
                error,
            ),
        },
{
    if max_len as i64 > capacity as i64 {
        Err(TranslateError::ContextTooSmall)
    } else if max_len <= 0 || prompt_len >= max_len as usize {
        Err(TranslateError::PromptTooLong)
    } else {
        Ok(())
    }
}

/// The end of a request that never came to a forward pass.
fn reject(error: TranslateError) -> (step: Step)
    ensures
        step.wf(),
        step@ == crate::protocol::rejected(error),
{
    Step::Done(Outcome { result: Err(error), forward_passes: 0 })
}

impl Generation {
    spec fn wf(&self) -> bool {
        self.batch.wf() && self@.wf()
    }

    fn passes(&self) -> (n: u64)
        requires
            self.wf(),
        ensures
            n == self@.forward_passes(),
    {
        (self.position - self.prompt_len + 1) as u64
    }

    fn finish(self) -> (step: Step)
        requires
            self.wf(),
        ensures
            step.wf(),
            step@ == self@.finish(),
    {
        let forward_passes = self.passes();
        Step::Done(Outcome { result: Ok(trim(self.output.as_str())), forward_passes })
    }

    fn fail(self, error: TranslateError) -> (step: Step)
        requires
            self.wf(),
        ensures
            step.wf(),
            step@ == self@.fail(error),
    {
        let forward_passes = self.passes();
        Step::Done(Outcome { result: Err(error), forward_passes })
    }
}

impl PendingContext {
    /// Makes the step that asks for a context on `model` for `prompt`.
    pub(crate) fn new(model: usize, prompt: String, params: ContextParams, max_len: i32) -> (pending:
        PendingContext)
        ensures
            pending@ == (ContextView { model, prompt: prompt@, params, max_len: max_len as int }),
    {
        PendingContext { model, prompt, params, max_len }
    }

    /// Index of the model on which the context is to be opened.
    pub fn model(&self) -> (model: usize)
        ensures
            model == self@.model,
    {
        self.model
    }

    /// What the context is to be opened with.
    pub fn params(&self) -> (params: ContextParams)
        ensures
            params == self@.params,
    {
        self.params
    }

    /// Takes the capacity of the context that was opened, or `None` where
    /// none could be opened, which ends the request with `ContextError`.
    pub fn opened(self, capacity: Option<u32>) -> (next: Step)
        ensures
            next.wf(),
            next@ == after_context(self@, capacity),
    {
        match capacity {
            Some(capacity) => Step::Tokenize(
                PendingTokens { prompt: self.prompt, capacity, max_len: self.max_len },
            ),
            None => reject(TranslateError::ContextError),
        }
    }
}

impl PendingTokens {
    /// The prompt that is to be turned into tokens.
    pub fn prompt(&self) -> (prompt: &str)
        ensures
            prompt@ == self@.prompt,
    {
        self.prompt.as_str()
    }

    /// Takes the tokens of the prompt, or `None` where the tokenizer
    /// rejected it.
    ///
    /// The request ends without a forward pass where the tokenizer failed or
    /// gave no token (`TokenizeError`), where the prompt is not admitted
    /// (`ContextTooSmall`, `PromptTooLong`: see `admission`), and where it
    /// does not fit into one batch (`ForwardError`). Else the prompt is
    /// staged, and the next step asks for the first forward pass.
    pub fn tokenized(self, tokens: Option<Vec<i32>>) -> (next: Step)
        ensures
            next.wf(),
            next@ == after_tokenize(self@, tokens_view(tokens)),
    {
        let tokens = match tokens {
            Some(tokens) => tokens,
            None => {
                return reject(TranslateError::TokenizeError);
            },
        };
        match check_budget(tokens.len(), self.max_len, self.capacity) {
            Err(error) => {
                return reject(error);
            },
            Ok(_) => {},
        }
        if tokens.len() == 0 {
            return reject(TranslateError::TokenizeError);
        }
        match Batch::stage_prompt(tokens.as_slice()) {
            Err(error) => reject(error),
            Ok(batch) => {
                let prompt_len = tokens.len() as i64;
                let run = Generation {
                    prompt_len,
                    position: prompt_len,
                    max_len: self.max_len as i64,
                    batch,
                    output: String::new(),
                    stream: TextStream::new(),
                };
                Step::Forward(PendingForward { run })
            },
        }
    }
}

impl PendingForward {
    /// The session's well-formedness; holds of every step that the engine
    /// gives out.
    pub closed spec fn wf(&self) -> bool {
        self.run.wf()
    }

    /// The tokens that the forward pass is to run over.
    pub fn batch(&self) -> (tokens: &Vec<StagedToken>)
        ensures
            tokens@ == self@.batch,
    {
        self.run.batch.tokens()
    }

    /// Takes the result of the forward pass.
    ///
    /// A failed pass ends the request with `ForwardError`. After a pass
    /// that succeeded the next token is sampled while the position is within
    /// the limit; beyond it the request ends with the trimmed output.
    pub fn completed(self, succeeded: bool) -> (next: Step)
        requires
            self.wf(),
        ensures
            next.wf(),
            next@ == after_forward(self@, succeeded),
    {
        if !succeeded {
            self.run.fail(TranslateError::ForwardError)
        } else if self.run.position <= self.run.max_len {
            Step::Sample(PendingSample { run: self.run })
        } else {
            self.run.finish()
        }
    }
}

impl PendingSample {
    /// The session's well-formedness; holds of every step that the engine
    /// gives out.
    pub closed spec fn wf(&self) -> bool {
        self.run.wf() && self.run.position <= self.run.max_len
    }

    /// Index, in the batch of the last forward pass, of the token from whose
    /// logits the next token is sampled: the last one.
    pub fn logits_index(&self) -> (index: i32)
        requires
            self.wf(),
        ensures
            index == self@.batch.len() - 1,
    {
        proof {
            self.run.batch.lemma_within_capacity();
        }
        (self.run.batch.len() - 1) as i32
    }

    /// Takes the sampled token and whether it marks the end of generation.
    ///
    /// The end-of-generation marker ends the request with the trimmed
    /// output, to which the marker adds nothing. For any other token the
    /// next step asks for its bytes.
    pub fn sampled(self, token: i32, end_of_generation: bool) -> (next: Step)
        requires
            self.wf(),
        ensures
            next.wf(),
            next@ == after_sample(self@, token, end_of_generation),
    {
        if end_of_generation {
            self.run.finish()
        } else {
            Step::Detokenize(PendingBytes { run: self.run, token })
        }
    }
}

impl PendingBytes {
    /// The session's well-formedness; holds of every step that the engine
    /// gives out.
    pub closed spec fn wf(&self) -> bool {
        self.run.wf() && self.run.position <= self.run.max_len
    }

    /// The token whose bytes are asked for.
    pub fn token(&self) -> (token: i32)
        ensures
            token == self@.token,
    {
        self.token
    }

    /// Takes the bytes of the token, or `None` where the tokenizer failed.
    ///
    /// A failure, or a fragment of more than `MAX_FRAGMENT_BYTES` bytes,
    /// ends the request with `TokenizeError`. Else the text that the bytes
    /// complete is appended to the output, the token is staged at the
    /// position, alone and with logits, the position moves on by one, and
    /// the next step asks for a forward pass.
    pub fn decoded(self, bytes: Option<Vec<u8>>) -> (next: Step)
        requires
            self.wf(),
        ensures
            next.wf(),
            next@ == after_detokenize(self@, bytes_view(bytes)),
    {
        let token = self.token;
        let mut run = self.run;
        let bytes = match bytes {
            Some(bytes) => bytes,
            None => {
                return run.fail(TranslateError::TokenizeError);
            },
        };
        if bytes.len() > MAX_FRAGMENT_BYTES {
            return run.fail(TranslateError::TokenizeError);
        }
        let text = run.stream.push(bytes.as_slice());
        run.output.append(text.as_str());
        run.batch.stage_next(token, run.position as i32);
        run.position = run.position + 1;
        Step::Forward(PendingForward { run })
    }
}

impl Step {
    /// What holds of every step that the engine gives out.
    pub open spec fn wf(&self) -> bool {
        &&& self@.wf()
        &&& match self {
            Step::Forward(pending) => pending.wf(),
            Step::Sample(pending) => pending.wf(),
            Step::Detokenize(pending) => pending.wf(),
            _ => true,
        }
    }

    /// Whether the request has ended.
    pub fn is_done(&self) -> (done: bool)
        ensures
            done == (self@ is Done),
    {
        match self {
            Step::Done(_) => true,
            _ => false,
        }
    }
}

} // verus!

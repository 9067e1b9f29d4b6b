//! The course of a request, as mathematics.
//!
//! A request passes through steps. Each step but the last waits for the
//! result of one operation of the model, and the functions of this module
//! say which step follows on which result. `crate::session` holds the
//! executable form of every step and `crate::laws` what holds of all courses.
use vstd::prelude::*;
use crate::batch::{next_batch, prompt_batch, StagedToken, BATCH_CAPACITY};
use crate::config::{ContextParams, GenerationConfig};
use crate::error::TranslateError;
use crate::prompt::{instruction, prompt_text};
use crate::router::DirectionKey;
use crate::stream::{fragment_text, MAX_FRAGMENT_BYTES};
use crate::text::{is_trimmed, trimmed};

verus! {

/// A request that waits for a generation context.
pub struct ContextView {
    /// Index of the model that serves the request.
    pub model: usize,
    /// The prompt.
    pub prompt: Seq<char>,
    /// What the context is to be opened with.
    pub params: ContextParams,
    /// Upper limit of prompt and output together, in tokens.
    pub max_len: int,
}

/// A request that waits for the tokens of its prompt.
pub struct TokensView {
    /// The prompt.
    pub prompt: Seq<char>,
    /// Capacity of the context that was opened, in tokens.
    pub capacity: int,
    /// Upper limit of prompt and output together, in tokens.
    pub max_len: int,
}

/// A session: a request whose prompt has been staged.
pub struct SessionView {
    /// Number of tokens of the prompt.
    pub prompt_len: int,
    /// Position of the next token: the number of tokens handed to forward
    /// passes so far.
    pub position: int,
    /// Upper limit of prompt and output together, in tokens.
    pub max_len: int,
    /// The tokens of the forward pass that was asked for last.
    pub batch: Seq<StagedToken>,
    /// The text generated so far.
    pub output: Seq<char>,
    /// The bytes of the tokens generated so far.
    pub fed: Seq<u8>,
}

/// A session that waits for the bytes of a token.
pub struct DetokenizeView {
    /// The session.
    pub session: SessionView,
    /// The token that was sampled.
    pub token: i32,
}

/// How a request ended.
pub struct OutcomeView {
    /// The translation, or why there is none.
    pub result: Result<Seq<char>, TranslateError>,
    /// Number of forward passes that the request asked for.
    pub forward_passes: int,
}

/// A step in the course of a request.
pub enum StepView {
    /// Open a context on the model.
    Context(ContextView),
    /// Turn the prompt into tokens, a beginning-of-sequence marker first.
    Tokenize(TokensView),
    /// Run a forward pass over the batch.
    Forward(SessionView),
    /// Sample a token from the logits of the batch's last token.
    Sample(SessionView),
    /// Turn the sampled token into bytes.
    Detokenize(DetokenizeView),
    /// The request has ended.
    Done(OutcomeView),
}

impl SessionView {
    /// Forward passes asked for so far: one for the prompt and one for each
    /// generated token.
    pub open spec fn forward_passes(self) -> int {
        self.position - self.prompt_len + 1
    }

    /// Forward passes asked for by the decode loop: one for each generated
    /// token.
    pub open spec fn decode_passes(self) -> int {
        self.position - self.prompt_len
    }

    /// What holds of every session: the prompt is not empty, fits into one
    /// batch and leaves room for a generated token, and no position lies
    /// beyond the limit by more than one.
    pub open spec fn wf(self) -> bool {
        &&& 1 <= self.prompt_len <= BATCH_CAPACITY
        &&& self.prompt_len < self.max_len <= i32::MAX
        &&& self.prompt_len <= self.position <= self.max_len + 1
        &&& 1 <= self.batch.len() <= BATCH_CAPACITY
    }

    /// The session's end with the text generated so far, trimmed.
    pub open spec fn finish(self) -> StepView {
        StepView::Done(
            OutcomeView {
                result: Ok(trimmed(self.output)),
                forward_passes: self.forward_passes(),
            },
        )
    }

    /// The session's end with an error.
    pub open spec fn fail(self, error: TranslateError) -> StepView {
        StepView::Done(OutcomeView { result: Err(error), forward_passes: self.forward_passes() })
    }
}

/// The end of a request that never came to a forward pass.
pub open spec fn rejected(error: TranslateError) -> StepView {
    StepView::Done(OutcomeView { result: Err(error), forward_passes: 0 })
}

/// The first step of a request for a translation of `text` from `source` to
/// `target`: the prompt is built, which fails for a target language without
/// an instruction, and then the model is looked up, which fails for a
/// direction that the table does not hold.
pub open spec fn start(
    table: Map<DirectionKey, usize>,
    config: GenerationConfig,
    text: Seq<char>,
    source: Seq<char>,
    target: Seq<char>,
) -> StepView {
    match instruction(target) {
        None => rejected(TranslateError::UnsupportedLanguage),
        Some(words) => if table.contains_key((source, target)) {
            StepView::Context(
                ContextView {
                    model: table[(source, target)],
                    prompt: prompt_text(words, text),
                    params: config.context_params_spec(),
                    max_len: config.max_output_length as int,
                },
            )
        } else {
            rejected(TranslateError::UnsupportedDirection)
        },
    }
}

/// Cache entries that a request needs: those of the prompt and those of the
/// tokens that may be generated.
pub open spec fn cache_required(prompt_len: int, max_len: int) -> int {
    prompt_len + (max_len - prompt_len)
}

/// Why a prompt of `prompt_len` tokens is not admitted, if it is not: the
/// context must hold the prompt and what may be generated, and the prompt
/// must leave room for a generated token.
pub open spec fn admission(prompt_len: int, max_len: int, capacity: int) -> Option<TranslateError> {
    if cache_required(prompt_len, max_len) > capacity {
        Some(TranslateError::ContextTooSmall)
    } else if prompt_len >= max_len {
        Some(TranslateError::PromptTooLong)
    } else {
        None
    }
}

/// The step after an attempt to open a context, which gave the capacity of
/// the context or failed.
pub open spec fn after_context(pending: ContextView, capacity: Option<u32>) -> StepView {
    match capacity {
        Some(capacity) => StepView::Tokenize(
            TokensView { prompt: pending.prompt, capacity: capacity as int, max_len: pending.max_len },
        ),
        None => rejected(TranslateError::ContextError),
    }
}

/// The step after an attempt to tokenize the prompt, which gave the tokens
/// or failed.
pub open spec fn after_tokenize(pending: TokensView, tokens: Option<Seq<i32>>) -> StepView {
    match tokens {
        None => rejected(TranslateError::TokenizeError),
        Some(tokens) => match admission(tokens.len() as int, pending.max_len, pending.capacity) {
            Some(error) => rejected(error),
            None => if tokens.len() == 0 {
                rejected(TranslateError::TokenizeError)
            } else if tokens.len() > BATCH_CAPACITY {
                rejected(TranslateError::ForwardError)
            } else {
                StepView::Forward(
                    SessionView {
                        prompt_len: tokens.len() as int,
                        position: tokens.len() as int,
                        max_len: pending.max_len,
                        batch: prompt_batch(tokens),
                        output: Seq::empty(),
                        fed: Seq::empty(),
                    },
                )
            },
        },
    }
}

/// The step after a forward pass, which succeeded or failed: on success a
/// token is sampled while the position is within the limit.
pub open spec fn after_forward(session: SessionView, succeeded: bool) -> StepView {
    if !succeeded {
        session.fail(TranslateError::ForwardError)
    } else if session.position <= session.max_len {
        StepView::Sample(session)
    } else {
        session.finish()
    }
}

/// The step after sampling gave `token`: the end, where the token marks the
/// end of generation.
pub open spec fn after_sample(session: SessionView, token: i32, end_of_generation: bool) -> StepView {
    if end_of_generation {
        session.finish()
    } else {
        StepView::Detokenize(DetokenizeView { session, token })
    }
}

/// The step after an attempt to turn the token into bytes: the text that the
/// bytes complete is appended, and the token is staged at the position.
pub open spec fn after_detokenize(pending: DetokenizeView, bytes: Option<Seq<u8>>) -> StepView {
    let session = pending.session;
    match bytes {
        None => session.fail(TranslateError::TokenizeError),
        Some(bytes) => if bytes.len() > MAX_FRAGMENT_BYTES {
            session.fail(TranslateError::TokenizeError)
        } else {
            StepView::Forward(
                SessionView {
                    position: session.position + 1,
                    batch: next_batch(pending.token, session.position as i32),
                    output: session.output + fragment_text(session.fed, bytes),
                    fed: session.fed + bytes,
                    ..session
                },
            )
        },
    }
}

impl StepView {
    /// What holds of every step that the engine gives out.
    pub open spec fn wf(self) -> bool {
        match self {
            StepView::Context(pending) => i32::MIN <= pending.max_len <= i32::MAX,
            StepView::Tokenize(pending) => i32::MIN <= pending.max_len <= i32::MAX,
            StepView::Forward(session) => session.wf(),
            StepView::Sample(session) => session.wf() && session.position <= session.max_len,
            StepView::Detokenize(pending) => pending.session.wf() && pending.session.position
                <= pending.session.max_len,
            StepView::Done(outcome) => outcome.forward_passes >= 0 && match outcome.result {
                Ok(text) => is_trimmed(text),
                Err(_) => true,
            },
        }
    }

    /// Number of forward passes that the request has asked for, this step
    /// included.
    pub open spec fn forward_passes(self) -> int {
        match self {
            StepView::Context(_) => 0,
            StepView::Tokenize(_) => 0,
            StepView::Forward(session) => session.forward_passes(),
            StepView::Sample(session) => session.forward_passes(),
            StepView::Detokenize(pending) => pending.session.forward_passes(),
            StepView::Done(outcome) => outcome.forward_passes,
        }
    }

    /// An upper limit of the number of steps that follow this one.
    pub open spec fn steps_left(self) -> int {
        match self {
            StepView::Context(pending) => 3 * room(pending.max_len) + 6,
            StepView::Tokenize(pending) => 3 * room(pending.max_len) + 5,
            StepView::Forward(session) => 3 * (session.max_len + 1 - session.position) + 1,
            StepView::Sample(session) => 3 * (session.max_len + 1 - session.position),
            StepView::Detokenize(pending) => 3 * (pending.session.max_len + 1
                - pending.session.position) - 1,
            StepView::Done(_) => 0,
        }
    }
}

/// The limit, or zero where the limit is negative.
pub open spec fn room(max_len: int) -> int {
    if max_len > 0 {
        max_len
    } else {
        0
    }
}

} // verus!

//! What holds of every request, whatever the model answers.
use vstd::prelude::*;
use crate::config::GenerationConfig;
use crate::error::TranslateError;
use crate::prompt::instruction;
use crate::protocol::{
    admission, after_context, after_detokenize, after_forward, after_sample, after_tokenize,
    cache_required, rejected, start, SessionView, StepView, TokensView,
};
use crate::router::DirectionKey;
use crate::text::{is_trimmed, lemma_trimmed_is_trimmed};

verus! {

/// What the model may answer to a step.
pub enum Answer {
    /// The capacity of the context that was opened, if one was.
    Context(Option<u32>),
    /// The tokens of the prompt, if the tokenizer took it.
    Tokens(Option<Seq<i32>>),
    /// Whether the forward pass succeeded.
    Forward(bool),
    /// The sampled token, and whether it marks the end of generation.
    Sample(i32, bool),
    /// The bytes of the token, if the tokenizer gave them.
    Bytes(Option<Seq<u8>>),
}

/// The answer is of the kind that the step waits for.
pub open spec fn fits(step: StepView, answer: Answer) -> bool {
    match (step, answer) {
        (StepView::Context(_), Answer::Context(_)) => true,
        (StepView::Tokenize(_), Answer::Tokens(_)) => true,
        (StepView::Forward(_), Answer::Forward(_)) => true,
        (StepView::Sample(_), Answer::Sample(_, _)) => true,
        (StepView::Detokenize(_), Answer::Bytes(_)) => true,
        _ => false,
    }
}

/// The step that follows `step` on `answer`. An answer that does not fit
/// leaves the step as it is, and so does any answer to the last step.
pub open spec fn advance(step: StepView, answer: Answer) -> StepView {
    match (step, answer) {
        (StepView::Context(pending), Answer::Context(capacity)) => after_context(pending, capacity),
        (StepView::Tokenize(pending), Answer::Tokens(tokens)) => after_tokenize(pending, tokens),
        (StepView::Forward(session), Answer::Forward(succeeded)) => after_forward(
            session,
            succeeded,
        ),
        (StepView::Sample(session), Answer::Sample(token, end)) => after_sample(session, token, end),
        (StepView::Detokenize(pending), Answer::Bytes(bytes)) => after_detokenize(pending, bytes),
        _ => step,
    }
}

/// The step that is reached from `step` through the answers, in order.
pub open spec fn course(step: StepView, answers: Seq<Answer>) -> StepView
    decreases answers.len(),
{
    if answers.len() == 0 {
        step
    } else {
        course(advance(step, answers[0]), answers.drop_first())
    }
}

/// Every answer fits the step that it is given to, as long as the request
/// has not ended.
pub open spec fn in_turn(step: StepView, answers: Seq<Answer>) -> bool
    decreases answers.len(),
{
    answers.len() > 0 ==> (step is Done || fits(step, answers[0])) && in_turn(
        advance(step, answers[0]),
        answers.drop_first(),
    )
}

/// The step belongs to a session with a prompt of `prompt_len` tokens under
/// the limit `max_len`, or ends one, and the forward passes of its decode
/// loop, one for each generated token, are `max_len - prompt_len + 1` at
/// most.
pub open spec fn within_budget(step: StepView, prompt_len: int, max_len: int) -> bool {
    &&& step.wf()
    &&& 1 <= step.forward_passes() <= max_len - prompt_len + 2
    &&& match step {
        StepView::Forward(session) => session.prompt_len == prompt_len && session.max_len
            == max_len,
        StepView::Sample(session) => session.prompt_len == prompt_len && session.max_len == max_len,
        StepView::Detokenize(pending) => pending.session.prompt_len == prompt_len
            && pending.session.max_len == max_len,
        StepView::Done(_) => true,
        _ => false,
    }
}

/// A pair that the table does not hold ends the request with
/// `UnsupportedDirection` at once: no tokenizer and no forward pass is asked
/// for. A pair that it holds goes to the model that the table names. Both
/// where the target language has an instruction: a request without one ends
/// with `UnsupportedLanguage`, whatever the pair is.
pub proof fn lemma_direction_decides(
    table: Map<DirectionKey, usize>,
    config: GenerationConfig,
    text: Seq<char>,
    source: Seq<char>,
    target: Seq<char>,
)
    requires
        instruction(target).is_some(),
    ensures
        !table.contains_key((source, target)) ==> start(table, config, text, source, target)
            == rejected(TranslateError::UnsupportedDirection),
        table.contains_key((source, target)) ==> (start(table, config, text, source, target)
            matches StepView::Context(pending) && pending.model == table[(source, target)]),
        rejected(TranslateError::UnsupportedDirection).forward_passes() == 0,
{
}

/// A target language other than "en" and "uk" ends the request with
/// `UnsupportedLanguage` at once, without a forward pass.
pub proof fn lemma_language_decides(
    table: Map<DirectionKey, usize>,
    config: GenerationConfig,
    text: Seq<char>,
    source: Seq<char>,
    target: Seq<char>,
)
    requires
        target != "en"@,
        target != "uk"@,
    ensures
        start(table, config, text, source, target) == rejected(
            TranslateError::UnsupportedLanguage,
        ),
        rejected(TranslateError::UnsupportedLanguage).forward_passes() == 0,
{
}

/// A prompt that has as many tokens as the limit allows in all, or more,
/// ends the request with `PromptTooLong` and without a forward pass, where
/// the context holds what the limit allows. (Where it does not, the request
/// ends with `ContextTooSmall`.)
pub proof fn lemma_prompt_too_long(pending: TokensView, tokens: Seq<i32>)
    requires
        tokens.len() >= pending.max_len,
        pending.max_len <= pending.capacity,
    ensures
        after_tokenize(pending, Some(tokens)) == rejected(TranslateError::PromptTooLong),
        after_tokenize(pending, Some(tokens)).forward_passes() == 0,
{
}

/// A context that cannot hold the prompt and what may be generated ends the
/// request with `ContextTooSmall` and without a forward pass.
pub proof fn lemma_context_too_small(pending: TokensView, tokens: Seq<i32>)
    requires
        cache_required(tokens.len() as int, pending.max_len) > pending.capacity,
    ensures
        after_tokenize(pending, Some(tokens)) == rejected(TranslateError::ContextTooSmall),
        after_tokenize(pending, Some(tokens)).forward_passes() == 0,
{
}

/// A prompt is staged only where it is admitted, and the session then
/// starts at the end of the prompt with one forward pass asked for.
pub proof fn lemma_first_forward(pending: TokensView, tokens: Option<Seq<i32>>)
    requires
        StepView::Tokenize(pending).wf(),
        after_tokenize(pending, tokens) is Forward,
    ensures
        tokens.is_some(),
        admission(tokens.unwrap().len() as int, pending.max_len, pending.capacity).is_none(),
        within_budget(
            after_tokenize(pending, tokens),
            tokens.unwrap().len() as int,
            pending.max_len,
        ),
        after_tokenize(pending, tokens).forward_passes() == 1,
{
}

/// One step: the next step is in order again, fewer steps are left, and a
/// forward pass is counted exactly where the next step asks for one.
pub proof fn lemma_advance(step: StepView, answer: Answer)
    requires
        step.wf(),
        fits(step, answer),
    ensures
        advance(step, answer).wf(),
        0 <= advance(step, answer).steps_left() < step.steps_left(),
        advance(step, answer).forward_passes() == step.forward_passes() + if advance(
            step,
            answer,
        ) is Forward {
            1int
        } else {
            0int
        },
{
    match (step, answer) {
        (StepView::Forward(session), Answer::Forward(_)) => {
            lemma_trimmed_is_trimmed(session.output);
        },
        (StepView::Sample(session), Answer::Sample(_, _)) => {
            lemma_trimmed_is_trimmed(session.output);
        },
        _ => {},
    }
}

/// One step of a session stays within the session's budget.
pub proof fn lemma_advance_within_budget(
    step: StepView,
    answer: Answer,
    prompt_len: int,
    max_len: int,
)
    requires
        within_budget(step, prompt_len, max_len),
    ensures
        within_budget(advance(step, answer), prompt_len, max_len),
{
    if fits(step, answer) {
        lemma_advance(step, answer);
    }
}

/// The decode loop runs at most `max_len - prompt_len + 1` forward passes:
/// from the first forward pass of a session on, whatever the model answers
/// and however long it goes on, the request never asks for more than these
/// and the one for the prompt.
pub proof fn lemma_decode_passes_bounded(session: SessionView, answers: Seq<Answer>)
    requires
        session.wf(),
        session.position == session.prompt_len,
    ensures
        within_budget(
            course(StepView::Forward(session), answers),
            session.prompt_len,
            session.max_len,
        ),
        course(StepView::Forward(session), answers).forward_passes() - 1 <= session.max_len
            - session.prompt_len + 1,
{
    lemma_course_within_budget(
        StepView::Forward(session),
        answers,
        session.prompt_len,
        session.max_len,
    );
}

/// A course that starts within a budget stays within it.
pub proof fn lemma_course_within_budget(
    step: StepView,
    answers: Seq<Answer>,
    prompt_len: int,
    max_len: int,
)
    requires
        within_budget(step, prompt_len, max_len),
    ensures
        within_budget(course(step, answers), prompt_len, max_len),
    decreases answers.len(),
{
    if answers.len() > 0 {
        lemma_advance_within_budget(step, answers[0], prompt_len, max_len);
        lemma_course_within_budget(
            advance(step, answers[0]),
            answers.drop_first(),
            prompt_len,
            max_len,
        );
    }
}

/// Every course stays in order.
pub proof fn lemma_course_wf(step: StepView, answers: Seq<Answer>)
    requires
        step.wf(),
    ensures
        course(step, answers).wf(),
    decreases answers.len(),
{
    if answers.len() > 0 {
        if fits(step, answers[0]) {
            lemma_advance(step, answers[0]);
        }
        lemma_course_wf(advance(step, answers[0]), answers.drop_first());
    }
}

/// Every request ends: once as many answers have come in turn as the first
/// step has steps left, the request has ended.
pub proof fn lemma_course_ends(step: StepView, answers: Seq<Answer>)
    requires
        step.wf(),
        in_turn(step, answers),
        answers.len() >= step.steps_left(),
    ensures
        course(step, answers) is Done,
    decreases answers.len(),
{
    if answers.len() > 0 {
        if fits(step, answers[0]) {
            lemma_advance(step, answers[0]);
        }
        lemma_course_ends(advance(step, answers[0]), answers.drop_first());
    }
}

/// A translation neither starts nor ends with white space, however the
/// request came to it.
pub proof fn lemma_output_trimmed(step: StepView, answers: Seq<Answer>)
    requires
        step.wf(),
    ensures
        match course(step, answers) {
            StepView::Done(outcome) => match outcome.result {
                Ok(text) => is_trimmed(text),
                Err(_) => true,
            },
            _ => true,
        },
{
    lemma_course_wf(step, answers);
}

} // verus!

//! What a request carries and what is answered to it.
use vstd::prelude::*;
use crate::error::{ErrorClass, TranslateError};

verus! {

/// Status of a reply that carries a translation.
pub const STATUS_OK: u16 = 200;

/// Status of a reply to a request that asked for what the engine does not
/// serve.
pub const STATUS_BAD_REQUEST: u16 = 400;

/// Status of a reply to a request on which the model failed.
pub const STATUS_SERVER_ERROR: u16 = 500;

/// A request for a translation.
pub struct TranslationRequest {
    pub text: String,
    pub source_lang: String,
    pub target_lang: String,
}

/// A translation, with the languages of its request.
pub struct TranslationResult {
    pub translated_text: String,
    pub source_lang: String,
    pub target_lang: String,
}

/// The answer to a request.
pub enum Reply {
    /// The translation.
    Translated(TranslationResult),
    /// A status and a message that says what went wrong.
    Failed(u16, String),
}

/// What opens the message of every failure.
pub open spec fn failure_opener() -> Seq<char> {
    "Translation failed: "@
}

/// What a failure of a request from `source` to `target` is called in a
/// message.
pub open spec fn error_text(error: TranslateError, source: Seq<char>, target: Seq<char>) -> Seq<
    char,
> {
    match error {
        TranslateError::UnsupportedDirection => "Unsupported translation direction: "@ + source
            + " to "@ + target,
        TranslateError::UnsupportedLanguage => "Unsupported target language: "@ + target,
        TranslateError::PromptTooLong => "the prompt is too long, it has more tokens than n_len"@,
        TranslateError::ContextTooSmall => "n_kv_req > n_ctx, the required kv cache size is not big enough; either reduce n_len or increase n_ctx"@,
        TranslateError::ContextError => "unable to create the llama_context"@,
        TranslateError::TokenizeError => "failed to tokenize the prompt"@,
        TranslateError::ForwardError => "llama_decode() failed"@,
    }
}

/// The status of a failure: a client error for what the request is to
/// blame for, a server error for what the model is.
pub open spec fn status_spec(error: TranslateError) -> u16 {
    match error.class_spec() {
        ErrorClass::Validation => STATUS_BAD_REQUEST,
        ErrorClass::Backend => STATUS_SERVER_ERROR,
    }
}

impl TranslateError {
    /// What the error is called in a message, for a request from `source`
    /// to `target`.
    pub fn text(&self, source: &str, target: &str) -> (text: String)
        ensures
            text@ == error_text(*self, source@, target@),
    {
        match self {
            TranslateError::UnsupportedDirection => {
                let mut text = String::from_str("Unsupported translation direction: ");
                text.append(source);
                text.append(" to ");
                text.append(target);
                text
            },
            TranslateError::UnsupportedLanguage => {
                let mut text = String::from_str("Unsupported target language: ");
                text.append(target);
                text
            },
            TranslateError::PromptTooLong => String::from_str(
                "the prompt is too long, it has more tokens than n_len",
            ),
            TranslateError::ContextTooSmall => String::from_str(
                "n_kv_req > n_ctx, the required kv cache size is not big enough; either reduce n_len or increase n_ctx",
            ),
            TranslateError::ContextError => String::from_str("unable to create the llama_context"),
            TranslateError::TokenizeError => String::from_str("failed to tokenize the prompt"),
            TranslateError::ForwardError => String::from_str("llama_decode() failed"),
        }
    }

    /// The status of a reply that reports the error.
    pub fn status(&self) -> (status: u16)
        ensures
            status == status_spec(*self),
    {
        match self.class() {
            ErrorClass::Validation => STATUS_BAD_REQUEST,
            ErrorClass::Backend => STATUS_SERVER_ERROR,
        }
    }
}

impl Reply {
    /// The reply's status.
    pub open spec fn status_of(&self) -> u16 {
        match self {
            Reply::Translated(_) => STATUS_OK,
            Reply::Failed(status, _) => *status,
        }
    }

    /// The reply's status.
    pub fn status(&self) -> (status: u16)
        ensures
            status == self.status_of(),
    {
        match self {
            Reply::Translated(_) => STATUS_OK,
            Reply::Failed(status, _) => *status,
        }
    }
}

/// Answers `request` with the result of its translation.
///
/// A translation is sent back with the languages that the request named. A
/// failure is sent back as a status, which tells the request's faults from
/// the model's, and a message that names the error.
pub fn reply(request: TranslationRequest, result: Result<String, TranslateError>) -> (r: Reply)
    ensures
        match result {
            Ok(text) => r matches Reply::Translated(sent) && sent.translated_text@ == text@
                && sent.source_lang@ == request.source_lang@ && sent.target_lang@
                == request.target_lang@,
            Err(error) => r matches Reply::Failed(status, message) && status == status_spec(error)
                && message@ == failure_opener() + error_text(
                error,
                request.source_lang@,
                request.target_lang@,
            ),
        },
{
    match result {
        Ok(translated_text) => Reply::Translated(
            TranslationResult {
                translated_text,
                source_lang: request.source_lang,
                target_lang: request.target_lang,
            },
        ),
        Err(error) => {
            let mut message = String::from_str("Translation failed: ");
            let text = error.text(request.source_lang.as_str(), request.target_lang.as_str());
            message.append(text.as_str());
            Reply::Failed(error.status(), message)
        },
    }
}

} // verus!

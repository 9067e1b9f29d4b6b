//! The ways in which a request, or the start of the process, can fail.
use vstd::prelude::*;

verus! {

/// Why a translation request failed.
#[derive(Clone, Copy, Debug, PartialEq, Eq, Structural)]
pub enum TranslateError {
    /// No model serves the ordered pair of source and target language.
    UnsupportedDirection,
    /// The prompt template knows no instruction for the target language.
    UnsupportedLanguage,
    /// The prompt leaves no room for a generated token.
    PromptTooLong,
    /// The context window cannot hold the prompt and the generated tokens.
    ContextTooSmall,
    /// The model could not open a generation context.
    ContextError,
    /// The model's tokenizer rejected the text or a token.
    TokenizeError,
    /// A batch could not be staged, or a forward pass failed.
    ForwardError,
}

/// Who is to blame for a failed request.
#[derive(Clone, Copy, Debug, PartialEq, Eq, Structural)]
pub enum ErrorClass {
    /// The request asked for something that the engine does not serve.
    Validation,
    /// The model failed while it worked on a request that was in order.
    Backend,
}

/// Why the configuration was refused at startup.
#[derive(Clone, Copy, Debug, PartialEq, Eq, Structural)]
pub enum ConfigError {
    /// The context size was overridden with zero.
    ZeroContextSize,
    /// A direction names a model that the registry does not hold.
    UnknownModel,
    /// A direction was entered twice.
    DuplicateDirection,
}

impl TranslateError {
    /// Errors of direction, language, length and capacity are the request's
    /// fault; the others are the model's.
    pub open spec fn class_spec(self) -> ErrorClass {
        match self {
            TranslateError::UnsupportedDirection
            | TranslateError::UnsupportedLanguage
            | TranslateError::PromptTooLong
            | TranslateError::ContextTooSmall => ErrorClass::Validation,
            TranslateError::ContextError
            | TranslateError::TokenizeError
            | TranslateError::ForwardError => ErrorClass::Backend,
        }
    }

    /// The class of this error.
    pub fn class(&self) -> (c: ErrorClass)
        ensures
            c == self.class_spec(),
    {
        match self {
            TranslateError::UnsupportedDirection => ErrorClass::Validation,
            TranslateError::UnsupportedLanguage => ErrorClass::Validation,
            TranslateError::PromptTooLong => ErrorClass::Validation,
            TranslateError::ContextTooSmall => ErrorClass::Validation,
            TranslateError::ContextError => ErrorClass::Backend,
            TranslateError::TokenizeError => ErrorClass::Backend,
            TranslateError::ForwardError => ErrorClass::Backend,
        }
    }
}

} // verus!

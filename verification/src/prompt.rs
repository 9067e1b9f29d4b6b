//! The prompt that asks the model for a translation.
//!
//! The template has two turns: a user turn with the instruction and the text,
//! and the opening of an assistant turn, which the model continues. The text
//! is put in as it is: a text that holds a delimiter of the template is not
//! escaped.
use vstd::prelude::*;
use crate::error::TranslateError;
use crate::text::same_text;

verus! {

/// What opens the user turn.
pub open spec fn user_opener() -> Seq<char> {
    "<|im_start|>user\n"@
}

/// What stands between the instruction and the text.
pub open spec fn instruction_end() -> Seq<char> {
    ":\n"@
}

/// What closes the user turn.
pub open spec fn turn_end() -> Seq<char> {
    "<|im_end|>\n"@
}

/// What opens the assistant turn, which is left empty.
pub open spec fn assistant_opener() -> Seq<char> {
    "<|im_start|>assistant"@
}

/// The instruction for a target language, where the template has one.
pub open spec fn instruction(target: Seq<char>) -> Option<Seq<char>> {
    if target == "en"@ {
        Some("Translate the text to English"@)
    } else if target == "uk"@ {
        Some("Translate the text to Ukrainian"@)
    } else {
        None
    }
}

/// The template, filled with an instruction and a text.
pub open spec fn prompt_text(instruction: Seq<char>, text: Seq<char>) -> Seq<char> {
    user_opener() + instruction + instruction_end() + text + turn_end() + assistant_opener()
}

/// `part` occurs in `s`.
pub open spec fn contains(s: Seq<char>, part: Seq<char>) -> bool {
    exists|i: int| 0 <= i <= s.len() - part.len() && #[trigger] s.subrange(i, i + part.len()) == part
}

/// `s` ends with `part`.
pub open spec fn ends_with(s: Seq<char>, part: Seq<char>) -> bool {
    part.len() <= s.len() && s.subrange(s.len() - part.len(), s.len() as int) == part
}

/// Whether the template has an instruction for `target`.
pub fn is_supported_language(target: &str) -> (r: bool)
    ensures
        r == instruction(target@).is_some(),
{
    same_text(target, "en") || same_text(target, "uk")
}

/// Builds the prompt for `text` and the target language `target`.
///
/// Fails with `UnsupportedLanguage` where the template has no instruction for
/// the target language.
pub fn fill_prompt(text: &str, target: &str) -> (r: Result<String, TranslateError>)
    ensures
        match instruction(target@) {
            Some(words) => r.is_ok() && r.unwrap()@ == prompt_text(words, text@),
            None => r == Err::<String, TranslateError>(TranslateError::UnsupportedLanguage),
        },
{
    let words = if same_text(target, "en") {
        "Translate the text to English"
    } else if same_text(target, "uk") {
        "Translate the text to Ukrainian"
    } else {
        return Err(TranslateError::UnsupportedLanguage);
    };
    let mut prompt = String::from_str("<|im_start|>user\n");
    prompt.append(words);
    prompt.append(":\n");
    prompt.append(text);
    prompt.append("<|im_end|>\n");
    prompt.append("<|im_start|>assistant");
    Ok(prompt)
}

/// Every prompt holds its instruction and ends with the opening of the
/// assistant turn, whatever the text is.
pub proof fn lemma_prompt_shape(instruction: Seq<char>, text: Seq<char>)
    ensures
        contains(prompt_text(instruction, text), instruction),
        ends_with(prompt_text(instruction, text), assistant_opener()),
{
    let p = prompt_text(instruction, text);
    let at = user_opener().len() as int;
    assert(p.subrange(at, at + instruction.len()) =~= instruction);
    assert(p.subrange(p.len() - assistant_opener().len(), p.len() as int) =~= assistant_opener());
}

/// The prompt for English holds "Translate the text to English", the one for
/// Ukrainian "Translate the text to Ukrainian".
pub proof fn lemma_prompt_names_language(target: Seq<char>, text: Seq<char>)
    requires
        instruction(target).is_some(),
    ensures
        target == "en"@ ==> contains(
            prompt_text(instruction(target).unwrap(), text),
            "Translate the text to English"@,
        ),
        target == "uk"@ ==> contains(
            prompt_text(instruction(target).unwrap(), text),
            "Translate the text to Ukrainian"@,
        ),
        ends_with(prompt_text(instruction(target).unwrap(), text), assistant_opener()),
{
    reveal_strlit("en");
    reveal_strlit("uk");
    assert("en"@[0] != "uk"@[0]);
    lemma_prompt_shape(instruction(target).unwrap(), text);
}

} // verus!

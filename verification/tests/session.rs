use kulyk::api::{reply, Reply, TranslationRequest};
use kulyk::batch::StagedToken;
use kulyk::config::{ContextParams, GenerationConfig};
use kulyk::engine::Translator;
use kulyk::error::TranslateError;
use kulyk::router::DirectionTable;
use kulyk::session::{check_budget, Outcome, Step};

const EOG: i32 = 2;

/// A model that answers from a script.
struct Script {
    capacity: Option<u32>,
    tokens: Option<Vec<i32>>,
    /// The tokens that sampling gives, in order; `EOG` after the last.
    samples: Vec<i32>,
    /// What sampling gives once `samples` is used up.
    then: i32,
    /// The forward pass, counted from one, that fails.
    failing_pass: Option<u64>,
    /// The token that the tokenizer has no bytes for.
    unknown_token: Option<i32>,
}

/// What the script was asked to do.
struct Trace {
    model: Option<usize>,
    params: Option<ContextParams>,
    prompt: Option<String>,
    batches: Vec<Vec<StagedToken>>,
    logits: Vec<i32>,
    detokenized: Vec<i32>,
    steps: usize,
}

fn script(tokens: usize) -> Script {
    Script {
        capacity: Some(2048),
        tokens: Some((1..=tokens as i32).collect()),
        samples: Vec::new(),
        then: EOG,
        failing_pass: None,
        unknown_token: None,
    }
}

fn bytes_of(token: i32) -> Vec<u8> {
    match token {
        100 => b" Hello".to_vec(),
        101 => b" world".to_vec(),
        102 => b" \n".to_vec(),
        110 => vec![0xd0],
        111 => vec![0x9f],
        _ => vec![b'a' + (token % 26) as u8],
    }
}

fn drive(first: Step, script: &Script) -> (Outcome, Trace) {
    let mut trace = Trace {
        model: None,
        params: None,
        prompt: None,
        batches: Vec::new(),
        logits: Vec::new(),
        detokenized: Vec::new(),
        steps: 0,
    };
    let mut sampled = 0;
    let mut step = first;
    loop {
        trace.steps += 1;
        assert!(trace.steps < 100_000, "the request does not end");
        step = match step {
            Step::Context(pending) => {
                trace.model = Some(pending.model());
                trace.params = Some(pending.params());
                pending.opened(script.capacity)
            }
            Step::Tokenize(pending) => {
                trace.prompt = Some(pending.prompt().to_string());
                pending.tokenized(script.tokens.clone())
            }
            Step::Forward(pending) => {
                trace.batches.push(pending.batch().clone());
                let pass = trace.batches.len() as u64;
                pending.completed(script.failing_pass != Some(pass))
            }
            Step::Sample(pending) => {
                trace.logits.push(pending.logits_index());
                let token = script.samples.get(sampled).copied().unwrap_or(script.then);
                sampled += 1;
                pending.sampled(token, token == EOG)
            }
            Step::Detokenize(pending) => {
                let token = pending.token();
                trace.detokenized.push(token);
                if script.unknown_token == Some(token) {
                    pending.decoded(None)
                } else {
                    pending.decoded(Some(bytes_of(token)))
                }
            }
            Step::Done(outcome) => return (outcome, trace),
        };
    }
}

fn translator(max_output_length: i32) -> Translator {
    let config = GenerationConfig::new(max_output_length, None, None, None, None).unwrap();
    Translator::new(config, DirectionTable::bidirectional())
}

#[test]
fn supported_pairs_reach_their_model() {
    let t = translator(32);
    let (_, uk_en) = drive(t.translate("Привіт", "uk", "en"), &script(5));
    assert_eq!(uk_en.model, Some(0));
    let (_, en_uk) = drive(t.translate("Hello", "en", "uk"), &script(5));
    assert_eq!(en_uk.model, Some(1));
}

#[test]
fn unsupported_pair_ends_before_tokenization() {
    let t = translator(32);
    for (source, target) in [("en", "en"), ("uk", "uk"), ("de", "en"), ("", "uk")] {
        let step = t.translate("Hello", source, target);
        assert!(step.is_done());
        let (outcome, trace) = drive(step, &script(5));
        assert_eq!(outcome.result, Err(TranslateError::UnsupportedDirection));
        assert_eq!(outcome.forward_passes, 0);
        assert_eq!(trace.steps, 1);
        assert!(trace.prompt.is_none());
        assert!(trace.batches.is_empty());
    }
}

#[test]
fn unsupported_target_language_is_an_error() {
    let t = translator(32);
    for (source, target) in [("uk", "fr"), ("en", "de"), ("en", ""), ("xx", "yy")] {
        let (outcome, trace) = drive(t.translate("Hello", source, target), &script(5));
        assert_eq!(outcome.result, Err(TranslateError::UnsupportedLanguage));
        assert_eq!(outcome.forward_passes, 0);
        assert!(trace.model.is_none());
        assert!(trace.batches.is_empty());
    }
}

#[test]
fn the_prompt_and_the_settings_reach_the_model() {
    let config = GenerationConfig::new(32, Some(5), Some(2), None, Some(1024)).unwrap();
    let t = Translator::new(config, DirectionTable::bidirectional());
    assert_eq!(t.settings().seed(), 5);
    let (_, trace) = drive(t.translate("Hello", "en", "uk"), &script(5));
    assert_eq!(
        trace.params,
        Some(ContextParams { capacity: 1024, threads: Some(2), threads_batch: Some(2) })
    );
    assert_eq!(
        trace.prompt.as_deref(),
        Some("<|im_start|>user\nTranslate the text to Ukrainian:\nHello<|im_end|>\n<|im_start|>assistant")
    );
}

#[test]
fn prompt_as_long_as_the_limit_is_too_long() {
    let t = translator(32);
    for tokens in [32, 33, 100, 600] {
        let (outcome, trace) = drive(t.translate("Hello", "en", "uk"), &script(tokens));
        assert_eq!(outcome.result, Err(TranslateError::PromptTooLong));
        assert_eq!(outcome.forward_passes, 0);
        assert!(trace.batches.is_empty());
    }
}

#[test]
fn prompt_one_below_the_limit_is_admitted() {
    let t = translator(32);
    let (outcome, trace) = drive(t.translate("Hello", "en", "uk"), &script(31));
    assert_eq!(outcome.result, Ok(String::new()));
    assert_eq!(trace.batches.len(), 1);
    assert_eq!(outcome.forward_passes, 1);
}

#[test]
fn limit_of_zero_or_less_admits_no_prompt() {
    for limit in [0, -1, i32::MIN] {
        let t = translator(limit);
        let (outcome, _) = drive(t.translate("Hello", "en", "uk"), &script(1));
        assert_eq!(outcome.result, Err(TranslateError::PromptTooLong));
        assert_eq!(outcome.forward_passes, 0);
    }
}

#[test]
fn context_smaller_than_the_limit_is_too_small() {
    let t = translator(32);
    let mut s = script(5);
    s.capacity = Some(31);
    let (outcome, trace) = drive(t.translate("Hello", "en", "uk"), &s);
    assert_eq!(outcome.result, Err(TranslateError::ContextTooSmall));
    assert_eq!(outcome.forward_passes, 0);
    assert!(trace.batches.is_empty());
    s.capacity = Some(32);
    let (outcome, _) = drive(t.translate("Hello", "en", "uk"), &s);
    assert_eq!(outcome.result, Ok(String::new()));
}

#[test]
fn too_small_a_context_is_reported_before_too_long_a_prompt() {
    let t = translator(4);
    let mut s = script(5);
    s.capacity = Some(2);
    let (outcome, _) = drive(t.translate("Hello", "en", "uk"), &s);
    assert_eq!(outcome.result, Err(TranslateError::ContextTooSmall));
}

#[test]
fn budget_check_by_itself() {
    assert_eq!(check_budget(5, 32, 2048), Ok(()));
    assert_eq!(check_budget(31, 32, 32), Ok(()));
    assert_eq!(check_budget(32, 32, 32), Err(TranslateError::PromptTooLong));
    assert_eq!(check_budget(5, 32, 31), Err(TranslateError::ContextTooSmall));
    assert_eq!(check_budget(0, 0, 0), Err(TranslateError::PromptTooLong));
    assert_eq!(check_budget(0, -5, 0), Err(TranslateError::PromptTooLong));
    assert_eq!(check_budget(1, i32::MAX, u32::MAX), Ok(()));
    assert_eq!(check_budget(1, i32::MAX, 2147483646), Err(TranslateError::ContextTooSmall));
}

#[test]
fn context_that_cannot_be_opened() {
    let t = translator(32);
    let mut s = script(5);
    s.capacity = None;
    let (outcome, trace) = drive(t.translate("Hello", "en", "uk"), &s);
    assert_eq!(outcome.result, Err(TranslateError::ContextError));
    assert_eq!(outcome.forward_passes, 0);
    assert!(trace.prompt.is_none());
}

#[test]
fn prompt_that_the_tokenizer_rejects() {
    let t = translator(32);
    let mut s = script(5);
    s.tokens = None;
    let (outcome, trace) = drive(t.translate("Hello", "en", "uk"), &s);
    assert_eq!(outcome.result, Err(TranslateError::TokenizeError));
    assert_eq!(outcome.forward_passes, 0);
    assert!(trace.batches.is_empty());
}

#[test]
fn prompt_without_tokens() {
    let t = translator(32);
    let (outcome, _) = drive(t.translate("Hello", "en", "uk"), &script(0));
    assert_eq!(outcome.result, Err(TranslateError::TokenizeError));
    assert_eq!(outcome.forward_passes, 0);
}

#[test]
fn prompt_larger_than_a_batch() {
    let t = translator(1000);
    let (outcome, trace) = drive(t.translate("Hello", "en", "uk"), &script(513));
    assert_eq!(outcome.result, Err(TranslateError::ForwardError));
    assert_eq!(outcome.forward_passes, 0);
    assert!(trace.batches.is_empty());
    let (outcome, trace) = drive(t.translate("Hello", "en", "uk"), &script(512));
    assert_eq!(outcome.result, Ok(String::new()));
    assert_eq!(trace.batches[0].len(), 512);
}

#[test]
fn generation_stops_at_the_end_marker() {
    let t = translator(32);
    let mut s = script(4);
    s.samples = vec![100, 101, 102];
    let (outcome, trace) = drive(t.translate("Привіт світ", "uk", "en"), &s);
    assert_eq!(outcome.result, Ok("Hello world".to_string()));
    assert_eq!(outcome.forward_passes, 4);
    assert_eq!(trace.detokenized, vec![100, 101, 102]);
    assert_eq!(trace.logits, vec![3, 0, 0, 0]);
    assert_eq!(trace.batches.len(), 4);
    assert_eq!(
        trace.batches[0],
        vec![
            StagedToken { id: 1, position: 0, slot: 0, needs_logits: false },
            StagedToken { id: 2, position: 1, slot: 0, needs_logits: false },
            StagedToken { id: 3, position: 2, slot: 0, needs_logits: false },
            StagedToken { id: 4, position: 3, slot: 0, needs_logits: true },
        ]
    );
    assert_eq!(
        trace.batches[1],
        vec![StagedToken { id: 100, position: 4, slot: 0, needs_logits: true }]
    );
    assert_eq!(
        trace.batches[3],
        vec![StagedToken { id: 102, position: 6, slot: 0, needs_logits: true }]
    );
}

#[test]
fn end_marker_at_once_gives_empty_text() {
    let t = translator(32);
    let (outcome, trace) = drive(t.translate("Hello", "en", "uk"), &script(4));
    assert_eq!(outcome.result, Ok(String::new()));
    assert_eq!(outcome.forward_passes, 1);
    assert!(trace.detokenized.is_empty());
}

#[test]
fn generation_stops_at_the_limit() {
    let t = translator(32);
    let mut s = script(10);
    s.then = 7;
    let (outcome, trace) = drive(t.translate("Hello", "en", "uk"), &s);
    // one pass for the prompt, and 32 - 10 + 1 in the decode loop
    assert_eq!(outcome.forward_passes, 24);
    assert_eq!(trace.batches.len(), 24);
    assert_eq!(trace.detokenized.len(), 23);
    assert_eq!(outcome.result, Ok("h".repeat(23)));
    assert_eq!(trace.batches[23][0].position, 32);
}

#[test]
fn decode_loop_never_exceeds_its_bound() {
    for limit in [2, 3, 17, 32, 200] {
        for tokens in [1usize, 2, 16, 31, 199] {
            let t = translator(limit);
            let mut s = script(tokens);
            s.then = 7;
            let (outcome, trace) = drive(t.translate("Hello", "en", "uk"), &s);
            if (tokens as i32) < limit {
                let bound = (limit - tokens as i32 + 1) as u64;
                assert_eq!(outcome.forward_passes - 1, bound);
                assert_eq!(trace.batches.len() as u64, bound + 1);
            } else {
                assert_eq!(outcome.forward_passes, 0);
            }
        }
    }
}

#[test]
fn failed_prompt_pass_ends_the_request() {
    let t = translator(32);
    let mut s = script(4);
    s.samples = vec![100, 101];
    s.failing_pass = Some(1);
    let (outcome, trace) = drive(t.translate("Hello", "en", "uk"), &s);
    assert_eq!(outcome.result, Err(TranslateError::ForwardError));
    assert_eq!(outcome.forward_passes, 1);
    assert!(trace.logits.is_empty());
}

#[test]
fn failed_pass_in_the_loop_ends_the_request() {
    let t = translator(32);
    let mut s = script(4);
    s.samples = vec![100, 101, 102];
    s.failing_pass = Some(3);
    let (outcome, trace) = drive(t.translate("Hello", "en", "uk"), &s);
    assert_eq!(outcome.result, Err(TranslateError::ForwardError));
    assert_eq!(outcome.forward_passes, 3);
    assert_eq!(trace.batches.len(), 3);
    assert_eq!(trace.detokenized, vec![100, 101]);
}

#[test]
fn token_without_bytes_ends_the_request() {
    let t = translator(32);
    let mut s = script(4);
    s.samples = vec![100, 55, 101];
    s.unknown_token = Some(55);
    let (outcome, trace) = drive(t.translate("Hello", "en", "uk"), &s);
    assert_eq!(outcome.result, Err(TranslateError::TokenizeError));
    assert_eq!(outcome.forward_passes, 2);
    assert_eq!(trace.batches.len(), 2);
}

#[test]
fn character_split_over_two_tokens() {
    let t = translator(32);
    let mut s = script(4);
    s.samples = vec![110, 111];
    let (outcome, _) = drive(t.translate("Hello", "en", "uk"), &s);
    assert_eq!(outcome.result, Ok("П".to_string()));
}

#[test]
fn output_is_trimmed() {
    let t = translator(32);
    let mut s = script(4);
    s.samples = vec![102, 100, 102, 101, 102, 102];
    let (outcome, _) = drive(t.translate("Hello", "en", "uk"), &s);
    assert_eq!(outcome.result, Ok("Hello \n world".to_string()));
    s.samples = vec![102, 102];
    let (outcome, _) = drive(t.translate("Hello", "en", "uk"), &s);
    assert_eq!(outcome.result, Ok(String::new()));
}

#[test]
fn end_to_end_ukrainian_to_english() {
    let t = translator(32);
    let request = TranslationRequest {
        text: "Привіт світ".to_string(),
        source_lang: "uk".to_string(),
        target_lang: "en".to_string(),
    };
    let mut s = script(20);
    s.samples = vec![100, 101];
    let first = t.translate(&request.text, &request.source_lang, &request.target_lang);
    let (outcome, trace) = drive(first, &s);
    assert_eq!(trace.model, Some(0));
    assert!(trace.detokenized.len() <= 32);
    assert!(outcome.forward_passes <= 33);
    match reply(request, outcome.result) {
        Reply::Translated(sent) => {
            assert!(!sent.translated_text.is_empty());
            assert_eq!(sent.translated_text, sent.translated_text.trim());
            assert_eq!(sent.translated_text, "Hello world");
            assert_eq!(sent.source_lang, "uk");
            assert_eq!(sent.target_lang, "en");
        }
        Reply::Failed(_, message) => panic!("{}", message),
    }
}

#[test]
fn end_to_end_unsupported_target() {
    let t = translator(32);
    let request = TranslationRequest {
        text: "Hello".to_string(),
        source_lang: "en".to_string(),
        target_lang: "fr".to_string(),
    };
    let first = t.translate(&request.text, &request.source_lang, &request.target_lang);
    let (outcome, trace) = drive(first, &script(5));
    assert_eq!(outcome.result, Err(TranslateError::UnsupportedLanguage));
    assert_eq!(outcome.forward_passes, 0);
    assert!(trace.batches.is_empty());
    let answer = reply(request, outcome.result);
    assert_eq!(answer.status(), 400);
    match answer {
        Reply::Failed(status, message) => {
            assert_eq!(status, 400);
            assert_eq!(message, "Translation failed: Unsupported target language: fr");
        }
        Reply::Translated(_) => panic!("a translation to an unsupported language"),
    }
    // the translator serves the next request
    let (next, _) = drive(t.translate("Hello", "en", "uk"), &script(5));
    assert!(next.result.is_ok());
}

#[test]
fn replies_to_failures() {
    let cases = [
        (TranslateError::UnsupportedDirection, 400, "Translation failed: Unsupported translation direction: en to en"),
        (TranslateError::UnsupportedLanguage, 400, "Translation failed: Unsupported target language: en"),
        (TranslateError::PromptTooLong, 400, "Translation failed: the prompt is too long, it has more tokens than n_len"),
        (TranslateError::ContextTooSmall, 400, "Translation failed: n_kv_req > n_ctx, the required kv cache size is not big enough; either reduce n_len or increase n_ctx"),
        (TranslateError::ContextError, 500, "Translation failed: unable to create the llama_context"),
        (TranslateError::TokenizeError, 500, "Translation failed: failed to tokenize the prompt"),
        (TranslateError::ForwardError, 500, "Translation failed: llama_decode() failed"),
    ];
    for (error, status, message) in cases {
        let request = TranslationRequest {
            text: "Hello".to_string(),
            source_lang: "en".to_string(),
            target_lang: "en".to_string(),
        };
        assert_eq!(error.status(), status);
        match reply(request, Err(error)) {
            Reply::Failed(s, m) => {
                assert_eq!(s, status);
                assert_eq!(m, message);
            }
            Reply::Translated(_) => panic!("a translation after a failure"),
        }
    }
}

#[test]
fn reply_to_a_translation() {
    let request = TranslationRequest {
        text: "Hello".to_string(),
        source_lang: "en".to_string(),
        target_lang: "uk".to_string(),
    };
    let answer = reply(request, Ok("Привіт".to_string()));
    assert_eq!(answer.status(), 200);
    match answer {
        Reply::Translated(sent) => {
            assert_eq!(sent.translated_text, "Привіт");
            assert_eq!(sent.source_lang, "en");
            assert_eq!(sent.target_lang, "uk");
        }
        Reply::Failed(_, message) => panic!("{}", message),
    }
}

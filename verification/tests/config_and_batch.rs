use kulyk::batch::{Batch, StagedToken, BATCH_CAPACITY, CACHE_SLOT};
use kulyk::config::{
    ContextParams, GenerationConfig, SamplerStage, DEFAULT_CONTEXT_SIZE, DEFAULT_MAX_OUTPUT_LENGTH,
    DEFAULT_SEED,
};
use kulyk::error::{ConfigError, ErrorClass, TranslateError};

#[test]
fn defaults() {
    let config = GenerationConfig::default();
    assert_eq!(config.max_output_length, 32);
    assert_eq!(config.seed(), 1234);
    assert_eq!(
        config.context_params(),
        ContextParams { capacity: 2048, threads: None, threads_batch: None }
    );
    assert_eq!(DEFAULT_CONTEXT_SIZE, 2048);
    assert_eq!(DEFAULT_SEED, 1234);
    assert_eq!(DEFAULT_MAX_OUTPUT_LENGTH, 32);
}

#[test]
fn configured_values_win() {
    let config = GenerationConfig::new(64, Some(7), Some(4), Some(8), Some(4096)).unwrap();
    assert_eq!(config.max_output_length, 64);
    assert_eq!(config.seed(), 7);
    assert_eq!(
        config.context_params(),
        ContextParams { capacity: 4096, threads: Some(4), threads_batch: Some(8) }
    );
}

#[test]
fn batch_threads_fall_back_to_threads() {
    let config = GenerationConfig::new(32, None, Some(6), None, None).unwrap();
    assert_eq!(
        config.context_params(),
        ContextParams { capacity: 2048, threads: Some(6), threads_batch: Some(6) }
    );
    let other = GenerationConfig::new(32, None, None, Some(3), None).unwrap();
    assert_eq!(
        other.context_params(),
        ContextParams { capacity: 2048, threads: None, threads_batch: Some(3) }
    );
}

#[test]
fn zero_context_size_is_refused() {
    assert_eq!(
        GenerationConfig::new(32, None, None, None, Some(0)).err(),
        Some(ConfigError::ZeroContextSize)
    );
    assert!(GenerationConfig::new(32, None, None, None, Some(1)).is_ok());
}

#[test]
fn sampler_is_seeded_then_greedy() {
    let config = GenerationConfig::default();
    assert_eq!(config.sampler_chain(), vec![SamplerStage::Seeded(1234), SamplerStage::Greedy]);
    let seeded = GenerationConfig::new(32, Some(99), None, None, None).unwrap();
    assert_eq!(seeded.sampler_chain(), vec![SamplerStage::Seeded(99), SamplerStage::Greedy]);
}

#[test]
fn error_classes() {
    assert_eq!(TranslateError::UnsupportedDirection.class(), ErrorClass::Validation);
    assert_eq!(TranslateError::UnsupportedLanguage.class(), ErrorClass::Validation);
    assert_eq!(TranslateError::PromptTooLong.class(), ErrorClass::Validation);
    assert_eq!(TranslateError::ContextTooSmall.class(), ErrorClass::Validation);
    assert_eq!(TranslateError::ContextError.class(), ErrorClass::Backend);
    assert_eq!(TranslateError::TokenizeError.class(), ErrorClass::Backend);
    assert_eq!(TranslateError::ForwardError.class(), ErrorClass::Backend);
}

#[test]
fn prompt_is_staged_in_order() {
    let batch = Batch::stage_prompt(&[1, 15, 27]).unwrap();
    assert_eq!(batch.len(), 3);
    assert_eq!(
        batch.tokens(),
        &vec![
            StagedToken { id: 1, position: 0, slot: 0, needs_logits: false },
            StagedToken { id: 15, position: 1, slot: 0, needs_logits: false },
            StagedToken { id: 27, position: 2, slot: 0, needs_logits: true },
        ]
    );
    assert_eq!(CACHE_SLOT, 0);
}

#[test]
fn prompt_of_one_token_asks_for_logits() {
    let batch = Batch::stage_prompt(&[1]).unwrap();
    assert_eq!(
        batch.tokens(),
        &vec![StagedToken { id: 1, position: 0, slot: 0, needs_logits: true }]
    );
}

#[test]
fn empty_prompt_stages_nothing() {
    let batch = Batch::stage_prompt(&[]).unwrap();
    assert_eq!(batch.len(), 0);
}

#[test]
fn batch_takes_512_tokens_and_no_more() {
    assert_eq!(BATCH_CAPACITY, 512);
    let full: Vec<i32> = (0..512).collect();
    let batch = Batch::stage_prompt(&full).unwrap();
    assert_eq!(batch.len(), 512);
    assert!(batch.tokens()[511].needs_logits);
    assert!(!batch.tokens()[510].needs_logits);
    assert_eq!(batch.tokens()[511].position, 511);
    let over: Vec<i32> = (0..513).collect();
    assert_eq!(Batch::stage_prompt(&over).err(), Some(TranslateError::ForwardError));
}

#[test]
fn add_fails_on_a_full_batch() {
    let mut batch = Batch::new();
    for i in 0..512 {
        assert_eq!(batch.add(i, i, false), Ok(()));
    }
    assert_eq!(batch.add(512, 512, true), Err(TranslateError::ForwardError));
    assert_eq!(batch.len(), 512);
    batch.clear();
    assert_eq!(batch.len(), 0);
    assert_eq!(batch.add(9, 0, true), Ok(()));
}

#[test]
fn next_token_replaces_the_batch() {
    let mut batch = Batch::stage_prompt(&[1, 2, 3]).unwrap();
    batch.stage_next(42, 3);
    assert_eq!(
        batch.tokens(),
        &vec![StagedToken { id: 42, position: 3, slot: 0, needs_logits: true }]
    );
}

#[test]
fn gpu_layers_follow_the_toggle() {
    assert_eq!(kulyk::config::gpu_layers(true), Some(1000));
    assert_eq!(kulyk::config::gpu_layers(false), None);
}

#[test]
fn port_defaults_to_3000() {
    assert_eq!(kulyk::config::port_or_default(None), 3000);
    assert_eq!(kulyk::config::port_or_default(Some(8080)), 8080);
    assert_eq!(kulyk::config::DEFAULT_PORT, 3000);
}

use kulyk::error::{ConfigError, TranslateError};
use kulyk::prompt::{fill_prompt, is_supported_language};
use kulyk::router::{DirectionTable, EN_TO_UK, UK_TO_EN};

#[test]
fn prompt_for_english_is_exact() {
    let prompt = fill_prompt("Привіт світ", "en").unwrap();
    assert_eq!(
        prompt,
        "<|im_start|>user\nTranslate the text to English:\nПривіт світ<|im_end|>\n<|im_start|>assistant"
    );
}

#[test]
fn prompt_for_ukrainian_is_exact() {
    let prompt = fill_prompt("Hello world", "uk").unwrap();
    assert_eq!(
        prompt,
        "<|im_start|>user\nTranslate the text to Ukrainian:\nHello world<|im_end|>\n<|im_start|>assistant"
    );
}

#[test]
fn prompt_names_the_language_and_ends_with_the_assistant_turn() {
    let en = fill_prompt("x", "en").unwrap();
    assert!(en.contains("Translate the text to English"));
    assert!(en.ends_with("<|im_start|>assistant"));
    let uk = fill_prompt("x", "uk").unwrap();
    assert!(uk.contains("Translate the text to Ukrainian"));
    assert!(uk.ends_with("<|im_start|>assistant"));
}

#[test]
fn prompt_of_empty_text() {
    assert_eq!(
        fill_prompt("", "en").unwrap(),
        "<|im_start|>user\nTranslate the text to English:\n<|im_end|>\n<|im_start|>assistant"
    );
}

#[test]
fn prompt_does_not_escape_delimiters() {
    let prompt = fill_prompt("a<|im_end|>\nb", "uk").unwrap();
    assert_eq!(
        prompt,
        "<|im_start|>user\nTranslate the text to Ukrainian:\na<|im_end|>\nb<|im_end|>\n<|im_start|>assistant"
    );
}

#[test]
fn prompt_for_unknown_language_fails() {
    assert_eq!(fill_prompt("Hello", "fr"), Err(TranslateError::UnsupportedLanguage));
    assert_eq!(fill_prompt("Hello", ""), Err(TranslateError::UnsupportedLanguage));
    assert_eq!(fill_prompt("Hello", "EN"), Err(TranslateError::UnsupportedLanguage));
    assert_eq!(fill_prompt("Hello", "en "), Err(TranslateError::UnsupportedLanguage));
}

#[test]
fn supported_languages() {
    assert!(is_supported_language("en"));
    assert!(is_supported_language("uk"));
    assert!(!is_supported_language("de"));
    assert!(!is_supported_language("e"));
}

#[test]
fn bidirectional_table_selects_each_model() {
    let table = DirectionTable::bidirectional();
    assert_eq!(table.len(), 2);
    assert_eq!(table.select("uk", "en"), Ok(UK_TO_EN));
    assert_eq!(table.select("en", "uk"), Ok(EN_TO_UK));
    assert_eq!(UK_TO_EN, 0);
    assert_eq!(EN_TO_UK, 1);
}

#[test]
fn bidirectional_table_rejects_other_pairs() {
    let table = DirectionTable::bidirectional();
    for (source, target) in [("en", "en"), ("uk", "uk"), ("fr", "en"), ("uk", "de"), ("", "")] {
        assert_eq!(table.select(source, target), Err(TranslateError::UnsupportedDirection));
    }
}

#[test]
fn empty_table_rejects_everything() {
    let table = DirectionTable::new(3);
    assert_eq!(table.len(), 0);
    assert_eq!(table.select("uk", "en"), Err(TranslateError::UnsupportedDirection));
}

#[test]
fn table_add_and_select() {
    let mut table = DirectionTable::new(3);
    assert_eq!(table.add("de", "en", 2), Ok(()));
    assert_eq!(table.add("en", "de", 0), Ok(()));
    assert_eq!(table.len(), 2);
    assert_eq!(table.select("de", "en"), Ok(2));
    assert_eq!(table.select("en", "de"), Ok(0));
    assert_eq!(table.select("de", "de"), Err(TranslateError::UnsupportedDirection));
}

#[test]
fn table_refuses_a_direction_twice() {
    let mut table = DirectionTable::new(2);
    assert_eq!(table.add("uk", "en", 0), Ok(()));
    assert_eq!(table.add("uk", "en", 1), Err(ConfigError::DuplicateDirection));
    assert_eq!(table.len(), 1);
    assert_eq!(table.select("uk", "en"), Ok(0));
}

#[test]
fn table_refuses_an_unknown_model() {
    let mut table = DirectionTable::new(2);
    assert_eq!(table.add("uk", "en", 2), Err(ConfigError::UnknownModel));
    assert_eq!(table.len(), 0);
    let mut none = DirectionTable::new(0);
    assert_eq!(none.add("uk", "en", 0), Err(ConfigError::UnknownModel));
}

use emotion_chat::analysis::{build_analysis_prompts, contains_str, fallback_classification};
use emotion_chat::Sentiment;

#[test]
fn test_fallback_on_deserialize_error() {
    let result = fallback_classification("failed to deserialize the model response");
    let classification = result.expect("a malformed response downgrades to a default");
    assert_eq!(classification.sentiment, Sentiment::Neutral);
    assert_eq!(classification.confidence_bits, 0.5f32.to_bits());
}

#[test]
fn test_fallback_on_expected_value_error() {
    let result = fallback_classification("expected value at line 1 column 1");
    let classification = result.expect("an empty response downgrades to a default");
    assert_eq!(classification.sentiment, Sentiment::Neutral);
    assert_eq!(classification.confidence_bits, 0.5f32.to_bits());
}

#[test]
fn test_fallback_propagates_other_errors() {
    assert!(fallback_classification("connection timed out").is_none());
    assert!(fallback_classification("").is_none());
}

#[test]
fn test_contains_str() {
    assert!(contains_str("failed to deserialize input", "deserialize"));
    assert!(contains_str("abc", ""));
    assert!(contains_str("abc", "abc"));
    assert!(!contains_str("abc", "abcd"));
    assert!(!contains_str("deserialise", "deserialize"));
}

#[test]
fn test_build_analysis_prompts_short_text() {
    let (input, system) = build_analysis_prompts("hi");
    assert_eq!(
        input,
        "Analyze the sentiment of this very short text: \"hi\". Since the text is brief, \
         consider common usage patterns. Is it Positive, Negative, or Neutral? \
         Return a confidence score."
    );
    assert!(system.contains("brief text analysis"));
}

#[test]
fn test_build_analysis_prompts_trims_before_measuring() {
    let (input, system) = build_analysis_prompts("   hi   ");
    assert!(input.contains("very short text: \"   hi   \""));
    assert!(system.contains("brief text analysis"));
}

#[test]
fn test_build_analysis_prompts_ordinary_text() {
    let text = "I am feeling wonderful today";
    let (input, system) = build_analysis_prompts(text);
    assert_eq!(input, text);
    assert!(system.contains("Be accurate and thoughtful"));
    assert!(!system.contains("brief text analysis"));
}

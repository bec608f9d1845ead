use emotion_chat::conversation::EmotionTrend;
use emotion_chat::strategy::{select_strategy, ResponseStrategy};
use emotion_chat::{Sentiment, SentimentClassification};

#[test]
fn test_select_strategy_negative_declining() {
    let emotion = SentimentClassification {
        sentiment: Sentiment::Negative,
        confidence_bits: 0.8f32.to_bits(),
    };

    let strategy = select_strategy(&emotion, EmotionTrend::Declining);
    assert_eq!(strategy, ResponseStrategy::Empathetic);
}

#[test]
fn test_select_strategy_negative_stable() {
    let emotion = SentimentClassification {
        sentiment: Sentiment::Negative,
        confidence_bits: 0.8f32.to_bits(),
    };

    let strategy = select_strategy(&emotion, EmotionTrend::Stable);
    assert_eq!(strategy, ResponseStrategy::Encouraging);
}

#[test]
fn test_select_strategy_positive() {
    let emotion = SentimentClassification {
        sentiment: Sentiment::Positive,
        confidence_bits: 0.8f32.to_bits(),
    };

    let strategy = select_strategy(&emotion, EmotionTrend::Improving);
    assert_eq!(strategy, ResponseStrategy::Cheerful);
}

#[test]
fn test_select_strategy_neutral() {
    let emotion = SentimentClassification {
        sentiment: Sentiment::Neutral,
        confidence_bits: 0.5f32.to_bits(),
    };

    let strategy = select_strategy(&emotion, EmotionTrend::Stable);
    assert_eq!(strategy, ResponseStrategy::Neutral);
}

#[test]
fn test_strategy_prompts() {
    let prompts = vec![
        ResponseStrategy::Empathetic.to_prompt(),
        ResponseStrategy::Encouraging.to_prompt(),
        ResponseStrategy::Neutral.to_prompt(),
        ResponseStrategy::Cheerful.to_prompt(),
    ];

    for prompt in prompts {
        assert!(!prompt.is_empty());
        assert!(prompt.len() > 50);
    }
}

#[test]
fn test_select_strategy_negative_improving_falls_back() {
    let emotion = SentimentClassification {
        sentiment: Sentiment::Negative,
        confidence_bits: 0.9f32.to_bits(),
    };

    let strategy = select_strategy(&emotion, EmotionTrend::Improving);
    assert_eq!(strategy, ResponseStrategy::Neutral);
}

#[test]
fn test_select_strategy_positive_any_trend() {
    let emotion = SentimentClassification {
        sentiment: Sentiment::Positive,
        confidence_bits: 0.7f32.to_bits(),
    };

    assert_eq!(select_strategy(&emotion, EmotionTrend::Declining), ResponseStrategy::Cheerful);
    assert_eq!(select_strategy(&emotion, EmotionTrend::Stable), ResponseStrategy::Cheerful);
}

#[test]
fn test_strategy_prompt_contents() {
    assert!(ResponseStrategy::Empathetic.to_prompt().starts_with("You are an empathetic listener."));
    assert!(ResponseStrategy::Encouraging.to_prompt().starts_with("You are an encouraging and positive guide."));
    assert!(ResponseStrategy::Cheerful.to_prompt().starts_with("You are a cheerful and friendly chat companion."));
    assert!(ResponseStrategy::Neutral.to_prompt().starts_with("You are a polite and professional conversational assistant."));
}

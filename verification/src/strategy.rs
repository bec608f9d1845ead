//! Response strategies: the pure mapping from (sentiment, trend) to a
//! strategy, and each strategy's fixed instruction text.

use vstd::prelude::*;

use crate::conversation::EmotionTrend;
use crate::Sentiment;
use crate::SentimentClassification;

verus! {

/// A named response posture governing the tone instruction handed to the
/// reply-generation service.
#[derive(Clone, Copy, Debug, PartialEq, Eq, Structural)]
pub enum ResponseStrategy {
    Empathetic,
    Encouraging,
    Neutral,
    Cheerful,
}

/// The fixed instruction text of each strategy.
pub open spec fn instruction_text(s: ResponseStrategy) -> Seq<char> {
    match s {
        ResponseStrategy::Empathetic => "You are an empathetic listener. The user is going through a difficult time.
                Respond with warmth and understanding. Acknowledge their feelings and provide
                emotional support. Avoid giving unsolicited advice. Focus on being present and compassionate."@,
        ResponseStrategy::Encouraging => "You are an encouraging and positive guide. The user needs some motivation and hope.
                Respond with positivity and energy. Highlight the bright side and offer sincere
                encouragement. Help the user see a path forward."@,
        ResponseStrategy::Cheerful => "You are a cheerful and friendly chat companion. The user is in a good mood.
                Respond in a lighthearted, fun way. Share in their joy and keep the conversation
                engaging and energetic."@,
        ResponseStrategy::Neutral => "You are a polite and professional conversational assistant.
                Respond in a balanced, friendly manner. Focus on understanding the user's needs
                and providing helpful responses."@,
    }
}

/// Every strategy's instruction text is non-empty; it exceeds 50
/// characters.
pub proof fn lemma_instruction_text_long(s: ResponseStrategy)
    ensures
        instruction_text(s).len() > 50,
{
    reveal_strlit("You are an empathetic listener. The user is going through a difficult time.
                Respond with warmth and understanding. Acknowledge their feelings and provide
                emotional support. Avoid giving unsolicited advice. Focus on being present and compassionate.");
    reveal_strlit("You are an encouraging and positive guide. The user needs some motivation and hope.
                Respond with positivity and energy. Highlight the bright side and offer sincere
                encouragement. Help the user see a path forward.");
    reveal_strlit("You are a cheerful and friendly chat companion. The user is in a good mood.
                Respond in a lighthearted, fun way. Share in their joy and keep the conversation
                engaging and energetic.");
    reveal_strlit("You are a polite and professional conversational assistant.
                Respond in a balanced, friendly manner. Focus on understanding the user's needs
                and providing helpful responses.");
}

impl ResponseStrategy {
    /// The instruction string placed verbatim before the generation
    /// request, exactly as `instruction_text` states it.
    pub fn to_prompt(&self) -> (r: &'static str)
        ensures
            r@ == instruction_text(*self),
            r@.len() > 50,
    {
        proof {
            lemma_instruction_text_long(*self);
        }
        match self {
            ResponseStrategy::Empathetic => {
                "You are an empathetic listener. The user is going through a difficult time.
                Respond with warmth and understanding. Acknowledge their feelings and provide
                emotional support. Avoid giving unsolicited advice. Focus on being present and compassionate."
            },
            ResponseStrategy::Encouraging => {
                "You are an encouraging and positive guide. The user needs some motivation and hope.
                Respond with positivity and energy. Highlight the bright side and offer sincere
                encouragement. Help the user see a path forward."
            },
            ResponseStrategy::Cheerful => {
                "You are a cheerful and friendly chat companion. The user is in a good mood.
                Respond in a lighthearted, fun way. Share in their joy and keep the conversation
                engaging and energetic."
            },
            ResponseStrategy::Neutral => {
                "You are a polite and professional conversational assistant.
                Respond in a balanced, friendly manner. Focus on understanding the user's needs
                and providing helpful responses."
            },
        }
    }
}

/// The strategy chosen for a (sentiment, trend) pair: an empathetic ear for
/// a negative and declining mood, encouragement for a negative but stable
/// mood, cheer for any positive mood, and a neutral posture otherwise.
pub open spec fn strategy_for(sentiment: Sentiment, trend: EmotionTrend) -> ResponseStrategy {
    match (sentiment, trend) {
        (Sentiment::Negative, EmotionTrend::Declining) => ResponseStrategy::Empathetic,
        (Sentiment::Negative, EmotionTrend::Stable) => ResponseStrategy::Encouraging,
        (Sentiment::Positive, _) => ResponseStrategy::Cheerful,
        _ => ResponseStrategy::Neutral,
    }
}

/// Picks the response strategy for the latest classification and the
/// current trend, exactly as `strategy_for` states it.
pub fn select_strategy(emotion: &SentimentClassification, trend: EmotionTrend) -> (r:
    ResponseStrategy)
    ensures
        r == strategy_for(emotion.sentiment, trend),
{
    match (emotion.sentiment, trend) {
        (Sentiment::Negative, EmotionTrend::Declining) => ResponseStrategy::Empathetic,
        (Sentiment::Negative, EmotionTrend::Stable) => ResponseStrategy::Encouraging,
        (Sentiment::Positive, _) => ResponseStrategy::Cheerful,
        _ => ResponseStrategy::Neutral,
    }
}

} // verus!

//! Affect-tracking core of a conversational assistant.
//!
//! The library keeps the ordered log of conversation turns, accumulates the
//! sentiment classifications that an external classifier produces, derives a
//! three-way emotional trend from the most recent classifications, and maps
//! (sentiment, trend) pairs to a fixed response strategy whose instruction
//! text conditions the reply-generation service.

use vstd::prelude::*;

pub mod analysis;
pub mod context;
pub mod conversation;
pub mod message;
pub mod strategy;

verus! {

/// Discrete emotional polarity of one piece of user text.
#[derive(Clone, Copy, Debug, PartialEq, Eq, Structural)]
pub enum Sentiment {
    Positive,
    Negative,
    Neutral,
}

/// Output of the external sentiment classifier: a polarity label together
/// with the classifier's confidence.  The confidence is kept exactly as the
/// classifier reported it, as the bit pattern of an IEEE 754 single-precision
/// number; the core never validates, clamps or otherwise reads it.
#[derive(Clone, Copy, Debug, PartialEq, Eq, Structural)]
pub struct SentimentClassification {
    pub sentiment: Sentiment,
    pub confidence_bits: u32,
}

} // verus!

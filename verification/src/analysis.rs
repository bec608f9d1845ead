//! The computational side of sentiment analysis: choosing the prompts
//! handed to the external classifier, and deciding what a failed
//! classification call falls back to.

use vstd::prelude::*;

use crate::Sentiment;
use crate::SentimentClassification;
use vstd::string::{StrSliceExecFns, StringExecFns};
use vstd::utf8::encode_utf8;

verus! {

pub uninterp spec fn trim_of(s: Seq<char>) -> Seq<char>;

/// Relies on str::trim: the input without its leading and trailing
/// whitespace, a subslice determined by the input's characters alone.
#[verifier::external_body]
fn trimmed(s: &str) -> (r: &str)
    ensures
        r@ == trim_of(s@),
        r@.len() <= s@.len(),
{
    s.trim()
}

/// A text counts as short when its trimmed form is under five bytes long,
/// the byte length being what `str::len` reports.
pub open spec fn is_short_text(s: Seq<char>) -> bool {
    (encode_utf8(trim_of(s)).len() as usize) < 5
}

/// The classifier input built for a short text: the text quoted inside a
/// request for extra care with brief inputs.
pub open spec fn short_input_prompt(s: Seq<char>) -> Seq<char> {
    "Analyze the sentiment of this very short text: \""@ + s
        + "\". Since the text is brief, consider common usage patterns. Is it Positive, Negative, or Neutral? Return a confidence score."@
}

/// The classifier's system instruction for short texts.
pub open spec fn short_system_prompt() -> Seq<char> {
    "You are a sentiment analysis expert specializing in brief text analysis. For short inputs like names, greetings, or single words, use contextual clues. Return sentiment type (Positive/Negative/Neutral) and confidence score (0-1). Default to Neutral when uncertain, but set confidence to 0.5-0.7."@
}

/// The classifier's system instruction for ordinary texts.
pub open spec fn long_system_prompt() -> Seq<char> {
    "You are a sentiment analysis expert. Analyze the emotional tone of the user's text. Return the sentiment type (Positive/Negative/Neutral) and a confidence score (0-1). Be accurate and thoughtful in your assessment."@
}

/// Chooses the classifier prompts for one piece of user text, returning the
/// input prompt and the system instruction.  A short text is wrapped in a
/// fuller request and paired with the brief-text instruction; any other
/// text goes to the classifier verbatim under the ordinary instruction.
pub fn build_analysis_prompts(text: &str) -> (r: (String, String))
    ensures
        is_short_text(text@) ==> r.0@ == short_input_prompt(text@) && r.1@
            == short_system_prompt(),
        !is_short_text(text@) ==> r.0@ == text@ && r.1@ == long_system_prompt(),
{
    let t = trimmed(text);
    if t.len() < 5 {
        let mut p = String::from_str("Analyze the sentiment of this very short text: \"");
        p.append(text);
        p.append(
            "\". Since the text is brief, consider common usage patterns. Is it Positive, Negative, or Neutral? Return a confidence score.",
        );
        proof {
            assert(p@ =~= short_input_prompt(text@));
        }
        (
            p,
            String::from_str(
                "You are a sentiment analysis expert specializing in brief text analysis. For short inputs like names, greetings, or single words, use contextual clues. Return sentiment type (Positive/Negative/Neutral) and confidence score (0-1). Default to Neutral when uncertain, but set confidence to 0.5-0.7.",
            ),
        )
    } else {
        (
            String::from_str(text),
            String::from_str(
                "You are a sentiment analysis expert. Analyze the emotional tone of the user's text. Return the sentiment type (Positive/Negative/Neutral) and a confidence score (0-1). Be accurate and thoughtful in your assessment.",
            ),
        )
    }
}

/// Whether `n` occurs in `h` as a contiguous run of characters starting at
/// position `i`.
pub open spec fn is_match_at(h: Seq<char>, n: Seq<char>, i: int) -> bool {
    0 <= i && i + n.len() <= h.len() && h.subrange(i, i + n.len()) == n
}

/// Whether `n` occurs anywhere in `h`.
pub open spec fn contains_seq(h: Seq<char>, n: Seq<char>) -> bool {
    exists|i: int| is_match_at(h, n, i)
}

fn match_at(h: &str, n: &str, i: usize, hl: usize, nl: usize) -> (r: bool)
    requires
        hl == h@.len(),
        nl == n@.len(),
        i + nl <= hl,
    ensures
        r == is_match_at(h@, n@, i as int),
{
    let mut j: usize = 0;
    while j < nl
        invariant
            hl == h@.len(),
            nl == n@.len(),
            i + nl <= hl,
            j <= nl,
            forall|k: int| 0 <= k < j ==> h@[i + k] == n@[k],
        decreases nl - j,
    {
        if h.get_char(i + j) != n.get_char(j) {
            proof {
                assert(h@.subrange(i as int, i as int + n@.len())[j as int] == h@[i + j]);
            }
            return false;
        }
        j = j + 1;
    }
    proof {
        assert(h@.subrange(i as int, i as int + n@.len()) =~= n@);
    }
    true
}

/// Whether the needle occurs in the haystack, exactly as `contains_seq`
/// states it.
pub fn contains_str(h: &str, n: &str) -> (r: bool)
    ensures
        r == contains_seq(h@, n@),
{
    let hl = h.unicode_len();
    let nl = n.unicode_len();
    if nl > hl {
        return false;
    }
    if nl == 0 {
        proof {
            assert(h@.subrange(0, 0) =~= n@);
            assert(is_match_at(h@, n@, 0));
        }
        return true;
    }
    let mut i: usize = 0;
    while i <= hl - nl
        invariant
            hl == h@.len(),
            nl == n@.len(),
            1 <= nl <= hl,
            i <= hl - nl + 1,
            forall|k: int| 0 <= k < i ==> !is_match_at(h@, n@, k),
        decreases hl - nl + 1 - i,
    {
        if match_at(h, n, i, hl, nl) {
            return true;
        }
        i = i + 1;
    }
    false
}

/// The confidence reported with the substitute classification: the bit
/// pattern of one half.
pub const FALLBACK_CONFIDENCE_BITS: u32 = 0x3F000000;

/// Decides what a failed classification call falls back to.  An error
/// message that speaks of deserializing, or of an expected value, marks a
/// malformed or empty classifier response: the session then continues with
/// a substitute Neutral classification of half confidence.  Any other
/// failure yields nothing here and is the caller's to propagate.
pub fn fallback_classification(error_msg: &str) -> (r: Option<SentimentClassification>)
    ensures
        r is Some <==> contains_seq(error_msg@, "deserialize"@) || contains_seq(
            error_msg@,
            "expected value"@,
        ),
        r is Some ==> r->0 == (SentimentClassification {
            sentiment: Sentiment::Neutral,
            confidence_bits: FALLBACK_CONFIDENCE_BITS,
        }),
{
    if contains_str(error_msg, "deserialize") || contains_str(error_msg, "expected value") {
        Some(
            SentimentClassification {
                sentiment: Sentiment::Neutral,
                confidence_bits: FALLBACK_CONFIDENCE_BITS,
            },
        )
    } else {
        None
    }
}

} // verus!

//! Session state: the conversation log, the emotion history, and the
//! three-way trend derived from the most recent classifications.

use vstd::prelude::*;

use crate::message::{Message, MessageRole};
use crate::Sentiment;
use crate::SentimentClassification;
use vstd::string::StringExecFns;

verus! {

/// Directional summary of the recent sentiment record.
#[derive(Clone, Copy, Debug, PartialEq, Eq, Structural)]
pub enum EmotionTrend {
    Improving,
    Declining,
    Stable,
}

/// Numeric score of one sentiment label: Positive counts +1, Neutral 0,
/// Negative -1.
pub open spec fn score(s: Sentiment) -> int {
    match s {
        Sentiment::Positive => 1,
        Sentiment::Neutral => 0,
        Sentiment::Negative => -1,
    }
}

/// Sum of the scores of a sequence of sentiment labels.
pub open spec fn score_sum(s: Seq<Sentiment>) -> int
    decreases s.len(),
{
    if s.len() == 0 {
        0
    } else {
        score(s[0]) + score_sum(s.drop_first())
    }
}

/// The sentiment labels of a classification record, in the record's order.
pub open spec fn sentiments_of(h: Seq<SentimentClassification>) -> Seq<Sentiment> {
    h.map_values(|c: SentimentClassification| c.sentiment)
}

/// The up-to-five most recent entries of a record, most recent first.
pub open spec fn recent_window(h: Seq<Sentiment>) -> Seq<Sentiment> {
    let n: int = if h.len() < 5 { h.len() as int } else { 5 };
    Seq::new(n as nat, |i: int| h[h.len() - 1 - i])
}

/// Trend of a classification record, read off the window of its up-to-five
/// most recent entries, most recent first.  With fewer than two window
/// entries there is nothing to compare, so the trend is Stable.  Otherwise
/// the mean score of the first up-to-three window entries (the most recent
/// ones) is held against the mean score of the rest of the window (the older
/// entries): the trend is Improving or Declining only when the former
/// exceeds or falls short of the latter by more than 3/10.  The comparisons
/// are written with the denominators cleared, which both counts being
/// positive makes sound; when the window has no older rest, neither strict
/// comparison can hold and the trend is Stable.
pub open spec fn trend_of(h: Seq<Sentiment>) -> EmotionTrend {
    let w = recent_window(h);
    if w.len() < 2 {
        EmotionTrend::Stable
    } else {
        let rc: int = if w.len() < 3 { w.len() as int } else { 3 };
        let ec: int = w.len() - rc;
        let rs = score_sum(w.take(rc));
        let es = score_sum(w.skip(rc));
        if ec > 0 && 10 * rs * ec > 10 * es * rc + 3 * rc * ec {
            EmotionTrend::Improving
        } else if ec > 0 && 10 * rs * ec < 10 * es * rc - 3 * rc * ec {
            EmotionTrend::Declining
        } else {
            EmotionTrend::Stable
        }
    }
}

proof fn lemma_score_sum_push(s: Seq<Sentiment>, x: Sentiment)
    ensures
        score_sum(s.push(x)) == score_sum(s) + score(x),
    decreases s.len(),
{
    reveal_with_fuel(score_sum, 3);
    if s.len() == 0 {
        assert(s.push(x)[0] == x);
        assert(s.push(x).drop_first() =~= Seq::<Sentiment>::empty());
    } else {
        assert(s.push(x)[0] == s[0]);
        assert(s.push(x).drop_first() =~= s.drop_first().push(x));
        lemma_score_sum_push(s.drop_first(), x);
    }
}

proof fn lemma_score_sum_bounds(s: Seq<Sentiment>)
    ensures
        -(s.len() as int) <= score_sum(s) <= s.len() as int,
    decreases s.len(),
{
    if s.len() > 0 {
        lemma_score_sum_bounds(s.drop_first());
    }
}

proof fn lemma_score_sum_all_neutral(s: Seq<Sentiment>)
    requires
        forall|i: int| 0 <= i < s.len() ==> s[i] == Sentiment::Neutral,
    ensures
        score_sum(s) == 0,
    decreases s.len(),
{
    if s.len() > 0 {
        assert(forall|i: int|
            0 <= i < s.drop_first().len() ==> s.drop_first()[i] == s[i + 1]);
        lemma_score_sum_all_neutral(s.drop_first());
    }
}

/// A classification record with fewer than two entries yields a Stable
/// trend.
pub proof fn lemma_trend_short(h: Seq<Sentiment>)
    requires
        h.len() < 2,
    ensures
        trend_of(h) == EmotionTrend::Stable,
{
}

/// An all-Neutral classification record of any length yields a Stable
/// trend.
pub proof fn lemma_trend_all_neutral(h: Seq<Sentiment>)
    requires
        forall|i: int| 0 <= i < h.len() ==> h[i] == Sentiment::Neutral,
    ensures
        trend_of(h) == EmotionTrend::Stable,
{
    let w = recent_window(h);
    assert(forall|i: int| 0 <= i < w.len() ==> w[i] == Sentiment::Neutral);
    if w.len() >= 2 {
        let rc: int = if w.len() < 3 { w.len() as int } else { 3 };
        let ec: int = w.len() - rc;
        lemma_score_sum_all_neutral(w.take(rc));
        lemma_score_sum_all_neutral(w.skip(rc));
        let rs = score_sum(w.take(rc));
        let es = score_sum(w.skip(rc));
        assert(10 * rs * ec == 0) by (nonlinear_arith)
            requires rs == 0;
        assert(10 * es * rc == 0) by (nonlinear_arith)
            requires es == 0;
        assert(3 * rc * ec >= 0) by (nonlinear_arith)
            requires rc >= 0, ec >= 0;
    }
}

/// Appending a turn and then reading the log: the appended turn stands at
/// the end of the new log, and every earlier turn keeps its index.
pub proof fn lemma_history_after_append(pre: Seq<Message>, post: Seq<Message>, m: Message)
    requires
        post.len() == pre.len() + 1,
        post.last() == m,
        post.drop_last() == pre,
    ensures
        post[post.len() - 1] == m,
        forall|i: int| 0 <= i < pre.len() ==> post[i] == pre[i],
{
    assert forall|i: int| 0 <= i < pre.len() implies post[i] == pre[i] by {
        assert(pre[i] == post.drop_last()[i]);
    }
}

/// Relies on chrono::Utc::now: the current wall-clock time, read here as
/// whole seconds since the Unix epoch.  Nothing is assumed of the value.
#[verifier::external_body]
fn now_timestamp() -> i64 {
    chrono::Utc::now().timestamp()
}

/// The state owned by one conversation session: the append-only log of
/// turns, the append-only record of classifications, and the timestamp
/// captured once when the session began.
#[derive(Debug, Clone)]
pub struct ConversationState {
    pub messages: Vec<Message>,
    pub emotion_history: Vec<SentimentClassification>,
    pub started_at: i64,
}

/// Exclusive owner of one session's conversation state, offering the
/// mutation and query operations that the outer control loop uses.
pub struct ConversationManager {
    state: ConversationState,
}

impl ConversationManager {
    /// The recorded turns, in insertion (chronological) order.
    pub closed spec fn messages_view(self) -> Seq<Message> {
        self.state.messages@
    }

    /// Every classification ever recorded, in order of recording.
    pub closed spec fn emotions_view(self) -> Seq<SentimentClassification> {
        self.state.emotion_history@
    }

    /// The timestamp captured when the session began.
    pub closed spec fn started_at_view(self) -> i64 {
        self.state.started_at
    }

    /// A fresh session: empty log, empty emotion history, and the current
    /// time as the session's start.
    pub fn new() -> (r: Self)
        ensures
            r.messages_view() =~= Seq::<Message>::empty(),
            r.emotions_view() =~= Seq::<SentimentClassification>::empty(),
    {
        Self {
            state: ConversationState {
                messages: Vec::new(),
                emotion_history: Vec::new(),
                started_at: now_timestamp(),
            },
        }
    }

    /// Appends a turn with the given role and content, stamped with the
    /// current wall-clock time and carrying no classification yet.  All
    /// earlier turns and the emotion history are left as they were.
    pub fn add_message(&mut self, role: MessageRole, content: &str)
        ensures
            final(self).messages_view().len() == old(self).messages_view().len() + 1,
            final(self).messages_view().last().role == role,
            final(self).messages_view().last().content@ == content@,
            final(self).messages_view().last().emotion is None,
            final(self).messages_view().drop_last() == old(self).messages_view(),
            final(self).emotions_view() == old(self).emotions_view(),
            final(self).started_at_view() == old(self).started_at_view(),
    {
        let msg = Message {
            role,
            content: String::from_str(content),
            timestamp: now_timestamp(),
            emotion: None,
        };
        self.state.messages.push(msg);
        proof {
            assert(self.state.messages@.drop_last() =~= old(self).state.messages@);
        }
    }

    /// Records one classification: attaches it to the most recent turn when
    /// that turn is a User turn with no classification yet (a first
    /// attachment wins; later calls leave it standing), and then, in every
    /// case, appends the classification to the emotion history.
    pub fn update_emotion(&mut self, emotion: SentimentClassification)
        ensures
            final(self).emotions_view() == old(self).emotions_view().push(emotion),
            final(self).started_at_view() == old(self).started_at_view(),
            ({
                let msgs = old(self).messages_view();
                if msgs.len() > 0 && msgs.last().role is User && msgs.last().emotion is None {
                    final(self).messages_view() =~= msgs.update(
                        msgs.len() - 1,
                        (Message {
                            role: msgs.last().role,
                            content: msgs.last().content,
                            timestamp: msgs.last().timestamp,
                            emotion: Some(emotion),
                        }),
                    )
                } else {
                    final(self).messages_view() =~= msgs
                }
            }),
    {
        let n = self.state.messages.len();
        if n > 0 {
            let last = &self.state.messages[n - 1];
            if matches!(last.role, MessageRole::User) && last.emotion.is_none() {
                let updated = Message {
                    role: last.role,
                    content: last.content.clone(),
                    timestamp: last.timestamp,
                    emotion: Some(emotion),
                };
                self.state.messages.set(n - 1, updated);
            }
        }
        self.state.emotion_history.push(emotion);
    }

    /// Derives the trend of the up-to-five most recent classifications, as
    /// `trend_of` states it.
    pub fn get_recent_emotion_trend(&self) -> (r: EmotionTrend)
        ensures
            r == trend_of(sentiments_of(self.emotions_view())),
    {
        let hist_len = self.state.emotion_history.len();
        let ghost h = sentiments_of(self.emotions_view());
        let ghost w = recent_window(h);
        let n = if hist_len < 5 { hist_len } else { 5 };
        if n < 2 {
            return EmotionTrend::Stable;
        }
        let rc = if n < 3 { n } else { 3 };
        let ec = n - rc;
        let mut rs: i64 = 0;
        let mut es: i64 = 0;
        let mut i: usize = 0;
        while i < n
            invariant
                hist_len == self.state.emotion_history.len(),
                h == sentiments_of(self.emotions_view()),
                w == recent_window(h),
                n == w.len(),
                2 <= n <= 5,
                n <= hist_len,
                rc == if n < 3 { n as int } else { 3int },
                ec == n - rc,
                i <= n,
                rs == score_sum(w.take(if i <= rc { i as int } else { rc as int })),
                es == score_sum(w.subrange(rc as int, if i >= rc { i as int } else { rc as int })),
                -5 <= rs <= 5,
                -5 <= es <= 5,
            decreases n - i,
        {
            let idx = hist_len - 1 - i;
            let s = self.state.emotion_history[idx].sentiment;
            proof {
                assert(w[i as int] == h[h.len() - 1 - i]);
                assert(h[hist_len - 1 - i] == self.emotions_view()[hist_len - 1 - i].sentiment);
            }
            let sc: i64 = match s {
                Sentiment::Positive => 1,
                Sentiment::Neutral => 0,
                Sentiment::Negative => -1,
            };
            proof {
                assert(sc == score(w[i as int]));
            }
            if i < rc {
                proof {
                    assert(w.take(i + 1) =~= w.take(i as int).push(w[i as int]));
                    lemma_score_sum_push(w.take(i as int), w[i as int]);
                    lemma_score_sum_bounds(w.take(i + 1));
                }
                rs = rs + sc;
            } else {
                proof {
                    assert(w.subrange(rc as int, i + 1) =~= w.subrange(
                        rc as int,
                        i as int,
                    ).push(w[i as int]));
                    lemma_score_sum_push(w.subrange(rc as int, i as int), w[i as int]);
                    lemma_score_sum_bounds(w.subrange(rc as int, i + 1));
                }
                es = es + sc;
            }
            i = i + 1;
        }
        proof {
            assert(w.skip(rc as int) =~= w.subrange(rc as int, n as int));
            assert(rs == score_sum(w.take(rc as int)));
            assert(es == score_sum(w.skip(rc as int)));
        }
        let improving: bool;
        let declining: bool;
        if ec == 0 {
            improving = false;
            declining = false;
        } else if ec == 1 {
            improving = 10 * rs > 30 * es + 9;
            declining = 10 * rs < 30 * es - 9;
        } else {
            improving = 20 * rs > 30 * es + 18;
            declining = 20 * rs < 30 * es - 18;
        }
        proof {
            let rci: int = rc as int;
            let eci: int = ec as int;
            let rsi: int = score_sum(w.take(rci));
            let esi: int = score_sum(w.skip(rci));
            assert(rsi == rs as int);
            assert(esi == es as int);
            if ec == 1 {
                assert(rci == 3);
                assert(10 * rsi * eci == 10 * rsi) by (nonlinear_arith)
                    requires eci == 1;
                assert(10 * esi * rci + 3 * rci * eci == 30 * esi + 9) by (nonlinear_arith)
                    requires rci == 3, eci == 1;
                assert(10 * esi * rci - 3 * rci * eci == 30 * esi - 9) by (nonlinear_arith)
                    requires rci == 3, eci == 1;
            } else if ec == 2 {
                assert(rci == 3);
                assert(10 * rsi * eci == 20 * rsi) by (nonlinear_arith)
                    requires eci == 2;
                assert(10 * esi * rci + 3 * rci * eci == 30 * esi + 18) by (nonlinear_arith)
                    requires rci == 3, eci == 2;
                assert(10 * esi * rci - 3 * rci * eci == 30 * esi - 18) by (nonlinear_arith)
                    requires rci == 3, eci == 2;
            } else {
                assert(ec == 0);
            }
            assert(improving == (eci > 0 && 10 * rsi * eci > 10 * esi * rci + 3 * rci * eci));
            assert(declining == (eci > 0 && 10 * rsi * eci < 10 * esi * rci - 3 * rci * eci));
        }
        if improving {
            EmotionTrend::Improving
        } else if declining {
            EmotionTrend::Declining
        } else {
            EmotionTrend::Stable
        }
    }

    /// Read-only view of the full conversation log, chronological order.
    pub fn get_history(&self) -> (r: &Vec<Message>)
        ensures
            r@ == self.messages_view(),
    {
        &self.state.messages
    }

    /// Read-only view of every classification recorded so far.
    pub fn get_emotion_history(&self) -> (r: &Vec<SentimentClassification>)
        ensures
            r@ == self.emotions_view(),
    {
        &self.state.emotion_history
    }
}

impl Default for ConversationManager {
    /// A fresh session, exactly as `ConversationManager::new` builds it.
    fn default() -> (r: Self)
        ensures
            r.messages_view() =~= Seq::<Message>::empty(),
            r.emotions_view() =~= Seq::<SentimentClassification>::empty(),
    {
        Self::new()
    }
}

} // verus!

//! The poll-enrich-notify cycle as an explicit state machine.
//!
//! The machine owns every decision of the pipeline; the host program
//! owns every effect.  One call of [`step`] consumes the current state
//! and one [`Event`] (what the outside world answered) and returns the
//! next state and one [`Action`] (what the host must do next).  The
//! host performs the action — query the source, fetch a page,
//! ask the summarizer, deliver a message, sleep — and feeds the
//! outcome back as the next event.

use vstd::prelude::*;
use crate::story::{Hit, Search};
use crate::words::{count_words, truncate_view, truncate_words, word_count};
use crate::compose::{
    query_url_view, target_view, sentinel_view, fallback_view, prompt_view, message_view,
    query_url, extraction_target, extraction_sentinel, fallback_summary, summary_prompt,
    compose_message,
};

verus! {

/// Seconds between two polls of the story source.
pub const POLL_INTERVAL_SECS: u64 = 3600;

/// A page with more words than this is summarized; at or below it the
/// raw text is used behind an explanatory note instead.
pub const WORD_THRESHOLD: usize = 100;

/// The summarizer's input is cut to this many whitespace-delimited
/// words before the request is made.
pub const TRUNCATE_WORD_LIMIT: usize = 10000;

/// Attempts granted to the summarizer call before it counts as
/// unavailable.
pub const SUMMARIZER_RETRIES: u64 = 3;

/// Everything that can go wrong at one stage of the pipeline.
#[derive(Clone, Copy, Debug, PartialEq, Eq, Structural)]
pub enum StageFailure {
    /// A required credential was absent at startup; fatal.
    ConfigMissing,
    /// The chat-handle lookup failed or carried no identifier; the
    /// process continues with no recipient.
    RecipientResolutionFailed,
    /// The story-source query failed; the whole cycle is abandoned.
    SourceUnavailable,
    /// Page-text extraction failed for one hit; a sentinel text stands
    /// in for the page.
    ExtractionFailed,
    /// The summarizer failed even after its retry budget; the hit
    /// degrades to the fallback summary.
    SummarizerUnavailable,
    /// Message delivery failed; logged, never retried.
    DeliveryFailed,
}

/// The configuration fixed once at startup.
pub struct Config {
    pub telegram_token: String,
    pub placeholder: String,
    pub help_mesg: String,
    pub keyword: String,
    /// The resolved numeric chat identifier, absent when resolution
    /// failed; delivery is then a no-op.
    pub chat_id: Option<i64>,
}

/// The text standing in for an optional configuration value.
pub open spec fn or_default(v: Option<String>, d: Seq<char>) -> Seq<char> {
    match v {
        Some(s) => s@,
        None => d,
    }
}

/// Assembles the startup configuration from optional environment
/// values, filling in the documented defaults.  Fails exactly when the
/// required credential is absent.
pub fn build_config(
    telegram_token: Option<String>,
    placeholder: Option<String>,
    help_mesg: Option<String>,
    keyword: Option<String>,
    chat_id: Option<i64>,
) -> (r: Result<Config, StageFailure>)
    ensures
        telegram_token is None ==> r == Err::<Config, StageFailure>(StageFailure::ConfigMissing),
        telegram_token matches Some(t) ==> r matches Ok(c) && c.telegram_token == t
            && c.placeholder@ == or_default(placeholder, "Typing ..."@) && c.help_mesg@
            == or_default(
            help_mesg,
            "You can enter text or upload an image with text to chat with this bot. The bot can take several different assistant roles. Type command /qa or /translate or /summarize or /code or /reply_tweet to start."@,
        ) && c.keyword@ == or_default(keyword, "ChatGPT"@) && c.chat_id == chat_id,
{
    let token = match telegram_token {
        Some(t) => t,
        None => {
            return Err(StageFailure::ConfigMissing);
        },
    };
    let placeholder = match placeholder {
        Some(p) => p,
        None => String::from_str("Typing ..."),
    };
    let help_mesg = match help_mesg {
        Some(h) => h,
        None => String::from_str(
            "You can enter text or upload an image with text to chat with this bot. The bot can take several different assistant roles. Type command /qa or /translate or /summarize or /code or /reply_tweet to start.",
        ),
    };
    let keyword = match keyword {
        Some(k) => k,
        None => String::from_str("ChatGPT"),
    };
    Ok(Config { telegram_token: token, placeholder, help_mesg, keyword, chat_id })
}

/// Decides what a chat-handle lookup answer means: the identifier when
/// one came back, a resolution failure otherwise.
pub fn resolve_recipient(id: Option<i64>) -> (r: Result<i64, StageFailure>)
    ensures
        id matches Some(i) ==> r == Ok::<i64, StageFailure>(i),
        id is None ==> r == Err::<i64, StageFailure>(StageFailure::RecipientResolutionFailed),
{
    match id {
        Some(i) => Ok(i),
        None => Err(StageFailure::RecipientResolutionFailed),
    }
}

/// Where the machine stands: idle between polls, or processing the
/// hit at `idx` of the current cycle's search result.
pub enum SchedulerState {
    /// Waiting for the next timer tick.
    Idle,
    /// The source query is out; its answer decides the cycle.
    AwaitingHits,
    /// Page text for hit `idx` is being extracted.
    AwaitingText { hits: Vec<Hit>, idx: usize },
    /// The summarizer is working on hit `idx`, whose extracted text is
    /// kept for the fallback should the summarizer fail.
    AwaitingSummary { hits: Vec<Hit>, idx: usize, text: String },
    /// Hit `idx`'s message is out for delivery.
    AwaitingDelivery { hits: Vec<Hit>, idx: usize },
}

impl SchedulerState {
    /// While a cycle runs, the current index denotes a hit.
    pub open spec fn wf(self) -> bool {
        match self {
            SchedulerState::AwaitingText { hits, idx } => idx < hits.len(),
            SchedulerState::AwaitingSummary { hits, idx, text } => idx < hits.len(),
            SchedulerState::AwaitingDelivery { hits, idx } => idx < hits.len(),
            _ => true,
        }
    }
}

/// What the outside world reports back to the machine.
pub enum Event {
    /// The interval timer fired at epoch second `now`.
    Tick { now: u64 },
    /// The story source answered, or was unreachable.
    HitsFetched(Result<Search, StageFailure>),
    /// Page-text extraction finished, or failed.
    PageFetched(Result<String, StageFailure>),
    /// The summarizer answered, or stayed unavailable after retries.
    SummaryReady(Result<String, StageFailure>),
    /// The delivery attempt finished, successfully or not.
    DeliveryFinished(Result<(), StageFailure>),
}

/// What the host must do next.
pub enum Action {
    /// Wait `seconds`, then post a `Tick`.
    Sleep { seconds: u64 },
    /// Query the story source at `url`; post `HitsFetched`.
    FetchHits { url: String },
    /// Extract the page text behind `url`; post `PageFetched`.
    FetchPage { url: String },
    /// Ask the summarizer `prompt`, retrying up to `max_attempts`
    /// times; post `SummaryReady`.
    RequestSummary { prompt: String, max_attempts: u64 },
    /// Deliver `message` to the configured recipient; post
    /// `DeliveryFinished`.
    Send { message: String },
    /// The event did not belong to the current state; nothing to do.
    Ignore,
}

/// The page text the pipeline works with for hit `h` once extraction
/// answered `res`: the extracted text, or the sentinel on failure.
pub open spec fn extracted_text_view(h: Hit, res: Result<String, StageFailure>) -> Seq<char> {
    match res {
        Ok(t) => t@,
        Err(_) => sentinel_view(h),
    }
}

/// The machine's full transition relation: `next` and `a` are what
/// [`step`] produces from state `s` under event `e`.  Every arm pins
/// both exactly.
pub open spec fn transition(
    s: SchedulerState,
    e: Event,
    c: Config,
    next: SchedulerState,
    a: Action,
) -> bool {
    match (s, e) {
        (SchedulerState::Idle, Event::Tick { now }) => {
            &&& next == SchedulerState::AwaitingHits
            &&& a matches Action::FetchHits { url } && url@ == query_url_view(
                c.keyword@,
                now - POLL_INTERVAL_SECS,
            )
        },
        (SchedulerState::AwaitingHits, Event::HitsFetched(res)) => match res {
            Ok(search) => if search.hits.len() == 0 {
                &&& next == SchedulerState::Idle
                &&& a == Action::Sleep { seconds: POLL_INTERVAL_SECS }
            } else {
                &&& next matches SchedulerState::AwaitingText { hits, idx } && hits == search.hits
                    && idx == 0
                &&& a matches Action::FetchPage { url } && url@ == target_view(search.hits[0])
            },
            Err(_) => {
                &&& next == SchedulerState::Idle
                &&& a == Action::Sleep { seconds: POLL_INTERVAL_SECS }
            },
        },
        (SchedulerState::AwaitingText { hits, idx }, Event::PageFetched(res)) => {
            let text = extracted_text_view(hits[idx as int], res);
            if count_words(text) > WORD_THRESHOLD {
                &&& next matches SchedulerState::AwaitingSummary { hits: h2, idx: i2, text: t2 }
                    && h2 == hits && i2 == idx && t2@ == text
                &&& a matches Action::RequestSummary { prompt, max_attempts } && prompt@
                    == prompt_view(truncate_view(text, TRUNCATE_WORD_LIMIT as nat))
                    && max_attempts == SUMMARIZER_RETRIES
            } else {
                &&& next matches SchedulerState::AwaitingDelivery { hits: h2, idx: i2 } && h2
                    == hits && i2 == idx
                &&& a matches Action::Send { message } && message@ == message_view(
                    hits[idx as int],
                    fallback_view(text),
                )
            }
        },
        (SchedulerState::AwaitingSummary { hits, idx, text }, Event::SummaryReady(res)) => {
            &&& next matches SchedulerState::AwaitingDelivery { hits: h2, idx: i2 } && h2 == hits
                && i2 == idx
            &&& a matches Action::Send { message } && message@ == message_view(
                hits[idx as int],
                match res {
                    Ok(summary) => summary@,
                    Err(_) => fallback_view(text@),
                },
            )
        },
        (SchedulerState::AwaitingDelivery { hits, idx }, Event::DeliveryFinished(res)) => if idx + 1
            < hits.len() {
            &&& next matches SchedulerState::AwaitingText { hits: h2, idx: i2 } && h2 == hits && i2
                == idx + 1
            &&& a matches Action::FetchPage { url } && url@ == target_view(hits[idx + 1])
        } else {
            &&& next == SchedulerState::Idle
            &&& a == Action::Sleep { seconds: POLL_INTERVAL_SECS }
        },
        (s0, _) => {
            &&& next == s0
            &&& a == Action::Ignore
        },
    }
}

/// Drives the machine one step: from `state`, under `event`, to the
/// next state and the action the host must now perform.
pub fn step(state: SchedulerState, config: &Config, event: Event) -> (r: (SchedulerState, Action))
    requires
        state.wf(),
        event matches Event::Tick { now } ==> now >= POLL_INTERVAL_SECS,
    ensures
        r.0.wf(),
        transition(state, event, *config, r.0, r.1),
{
    match (state, event) {
        (SchedulerState::Idle, Event::Tick { now }) => {
            let url = query_url(config.keyword.as_str(), now - POLL_INTERVAL_SECS);
            (SchedulerState::AwaitingHits, Action::FetchHits { url })
        },
        (SchedulerState::AwaitingHits, Event::HitsFetched(res)) => match res {
            Ok(search) => {
                if search.hits.len() == 0 {
                    (SchedulerState::Idle, Action::Sleep { seconds: POLL_INTERVAL_SECS })
                } else {
                    let url = extraction_target(&search.hits[0]);
                    (
                        SchedulerState::AwaitingText { hits: search.hits, idx: 0 },
                        Action::FetchPage { url },
                    )
                }
            },
            Err(_) => (SchedulerState::Idle, Action::Sleep { seconds: POLL_INTERVAL_SECS }),
        },
        (SchedulerState::AwaitingText { hits, idx }, Event::PageFetched(res)) => {
            let text = match res {
                Ok(t) => t,
                Err(_) => extraction_sentinel(&hits[idx]),
            };
            let wc = word_count(text.as_str());
            if wc > WORD_THRESHOLD {
                let truncated = truncate_words(text.as_str(), TRUNCATE_WORD_LIMIT);
                let prompt = summary_prompt(truncated.as_str());
                (
                    SchedulerState::AwaitingSummary { hits, idx, text },
                    Action::RequestSummary { prompt, max_attempts: SUMMARIZER_RETRIES },
                )
            } else {
                let summary = fallback_summary(text.as_str());
                let message = compose_message(&hits[idx], summary.as_str());
                (SchedulerState::AwaitingDelivery { hits, idx }, Action::Send { message })
            }
        },
        (SchedulerState::AwaitingSummary { hits, idx, text }, Event::SummaryReady(res)) => {
            let message = match res {
                Ok(summary) => compose_message(&hits[idx], summary.as_str()),
                Err(_) => {
                    let fb = fallback_summary(text.as_str());
                    compose_message(&hits[idx], fb.as_str())
                },
            };
            (SchedulerState::AwaitingDelivery { hits, idx }, Action::Send { message })
        },
        (SchedulerState::AwaitingDelivery { hits, idx }, Event::DeliveryFinished(_)) => {
            let next_idx = idx + 1;
            if next_idx < hits.len() {
                let url = extraction_target(&hits[next_idx]);
                (SchedulerState::AwaitingText { hits, idx: next_idx }, Action::FetchPage { url })
            } else {
                (SchedulerState::Idle, Action::Sleep { seconds: POLL_INTERVAL_SECS })
            }
        },
        (s, _) => (s, Action::Ignore),
    }
}

/// Law: when extraction yields at most the threshold's worth of
/// words, the hit's message carries the fallback-prefixed raw text —
/// never a model summary — and no summarizer request is made.
pub proof fn lemma_short_text_gets_fallback(
    hits: Vec<Hit>,
    idx: usize,
    res: Result<String, StageFailure>,
    c: Config,
    next: SchedulerState,
    a: Action,
)
    requires
        idx < hits.len(),
        transition(
            SchedulerState::AwaitingText { hits, idx },
            Event::PageFetched(res),
            c,
            next,
            a,
        ),
        count_words(extracted_text_view(hits[idx as int], res)) <= WORD_THRESHOLD,
    ensures
        a matches Action::Send { message } && message@ == message_view(
            hits[idx as int],
            fallback_view(extracted_text_view(hits[idx as int], res)),
        ),
        !(a is RequestSummary),
{
}

/// Law: when extraction yields more than the threshold's worth of
/// words, the summarizer is consulted for the hit — once, with a
/// retry budget of at most three attempts — and the machine then
/// awaits its answer.
pub proof fn lemma_substantial_text_requests_summary(
    hits: Vec<Hit>,
    idx: usize,
    res: Result<String, StageFailure>,
    c: Config,
    next: SchedulerState,
    a: Action,
)
    requires
        idx < hits.len(),
        transition(
            SchedulerState::AwaitingText { hits, idx },
            Event::PageFetched(res),
            c,
            next,
            a,
        ),
        count_words(extracted_text_view(hits[idx as int], res)) > WORD_THRESHOLD,
    ensures
        a matches Action::RequestSummary { prompt, max_attempts } && prompt@ == prompt_view(
            truncate_view(extracted_text_view(hits[idx as int], res), TRUNCATE_WORD_LIMIT as nat),
        ) && max_attempts == SUMMARIZER_RETRIES,
        SUMMARIZER_RETRIES <= 3,
        next is AwaitingSummary,
{
}

/// Law: a summarizer request arises only from the arrival of a hit's
/// page text, and the machine then awaits the answer; no state
/// answers a summarizer reply with a second request, so each hit is
/// summarized at most once.
pub proof fn lemma_summary_requested_once(
    s: SchedulerState,
    e: Event,
    c: Config,
    next: SchedulerState,
    a: Action,
)
    requires
        transition(s, e, c, next, a),
        a is RequestSummary,
    ensures
        s is AwaitingText,
        e is PageFetched,
        next is AwaitingSummary,
{
}

/// Law: on summarizer success the message's summary field is exactly
/// the summarizer's returned text.
pub proof fn lemma_summary_success_used(
    hits: Vec<Hit>,
    idx: usize,
    text: String,
    summary: String,
    c: Config,
    next: SchedulerState,
    a: Action,
)
    requires
        idx < hits.len(),
        transition(
            SchedulerState::AwaitingSummary { hits, idx, text },
            Event::SummaryReady(Ok(summary)),
            c,
            next,
            a,
        ),
    ensures
        a matches Action::Send { message } && message@ == message_view(
            hits[idx as int],
            summary@,
        ),
{
}

/// Law: whatever the summarizer answers — success or exhaustion of
/// its retries — the hit still gets exactly one delivery attempt; a
/// failed summarization degrades the hit to its fallback summary
/// instead of dropping it.
pub proof fn lemma_summary_outcome_sends(
    hits: Vec<Hit>,
    idx: usize,
    text: String,
    res: Result<String, StageFailure>,
    c: Config,
    next: SchedulerState,
    a: Action,
)
    requires
        idx < hits.len(),
        transition(
            SchedulerState::AwaitingSummary { hits, idx, text },
            Event::SummaryReady(res),
            c,
            next,
            a,
        ),
    ensures
        a is Send,
        next is AwaitingDelivery,
{
}

/// Law: processing a hit's extraction outcome — even a failure, which
/// degrades to the sentinel text — always advances toward exactly one
/// delivery attempt: either the message goes out for delivery now, or
/// the summarizer is consulted first.
pub proof fn lemma_hit_always_progresses(
    hits: Vec<Hit>,
    idx: usize,
    res: Result<String, StageFailure>,
    c: Config,
    next: SchedulerState,
    a: Action,
)
    requires
        idx < hits.len(),
        transition(
            SchedulerState::AwaitingText { hits, idx },
            Event::PageFetched(res),
            c,
            next,
            a,
        ),
    ensures
        (a is Send && next is AwaitingDelivery) || (a is RequestSummary
            && next is AwaitingSummary),
{
}

/// Law: a delivery attempt arises exactly when one hit's enrichment
/// concludes: every `Send` comes out of processing the current hit's
/// page text or summary, and the machine then awaits that one
/// delivery — so no hit is notified twice, and states outside a
/// cycle never send.
pub proof fn lemma_send_concludes_one_hit(
    s: SchedulerState,
    e: Event,
    c: Config,
    next: SchedulerState,
    a: Action,
)
    requires
        transition(s, e, c, next, a),
        a is Send,
    ensures
        s is AwaitingText || s is AwaitingSummary,
        next is AwaitingDelivery,
{
}

/// Law: a source failure abandons the cycle quietly: no delivery
/// attempt is made, and the machine goes idle for one full interval,
/// so the next tick still fires on schedule.
pub proof fn lemma_source_failure_quiet(
    f: StageFailure,
    c: Config,
    next: SchedulerState,
    a: Action,
)
    requires
        transition(SchedulerState::AwaitingHits, Event::HitsFetched(Err(f)), c, next, a),
    ensures
        next == SchedulerState::Idle,
        a == (Action::Sleep { seconds: POLL_INTERVAL_SECS }),
        !(a is Send),
{
}

/// Law: every tick from idle starts a fresh cycle with a source query
/// whose window begins exactly one polling interval before the tick.
pub proof fn lemma_tick_starts_cycle(now: u64, c: Config, next: SchedulerState, a: Action)
    requires
        now >= POLL_INTERVAL_SECS,
        transition(SchedulerState::Idle, Event::Tick { now }, c, next, a),
    ensures
        next == SchedulerState::AwaitingHits,
        (a matches Action::FetchHits { url } && url@ == query_url_view(
            c.keyword@,
            now - POLL_INTERVAL_SECS,
        )),
{
}

} // verus!

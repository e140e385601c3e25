use hn_notify::scheduler::{
    build_config, resolve_recipient, step, Action, Config, Event, SchedulerState, StageFailure,
};
use hn_notify::story::{Hit, Search};

const FALLBACK_PREFIX: &str = "Bot found minimal info on webpage to warrant a summary, please see the text on the page the Bot grabbed below if there are any, or use the link above to see the news at its source:\n";

fn config(keyword: &str) -> Config {
    Config {
        telegram_token: "token".to_string(),
        placeholder: "Typing ...".to_string(),
        help_mesg: "help".to_string(),
        keyword: keyword.to_string(),
        chat_id: Some(99),
    }
}

fn hit(title: &str, url: Option<&str>, object_id: &str, author: &str) -> Hit {
    Hit {
        title: title.to_string(),
        url: url.map(|u| u.to_string()),
        object_id: object_id.to_string(),
        author: author.to_string(),
        created_at_i: 1_700_000_000,
    }
}

fn words(n: usize) -> String {
    (0..n).map(|i| format!("w{}", i)).collect::<Vec<_>>().join(" ")
}

#[test]
fn config_defaults_and_missing_token() {
    let r = build_config(None, None, None, None, None);
    assert!(matches!(r, Err(StageFailure::ConfigMissing)));

    let c = build_config(Some("tok".to_string()), None, None, None, Some(7)).unwrap();
    assert_eq!(c.telegram_token, "tok");
    assert_eq!(c.placeholder, "Typing ...");
    assert_eq!(c.keyword, "ChatGPT");
    assert_eq!(c.chat_id, Some(7));
    assert!(c.help_mesg.starts_with("You can enter text or upload an image"));

    let c2 = build_config(
        Some("tok".to_string()),
        Some("...".to_string()),
        Some("h".to_string()),
        Some("Rust".to_string()),
        None,
    )
    .unwrap();
    assert_eq!(c2.keyword, "Rust");
    assert_eq!(c2.chat_id, None);
}

#[test]
fn recipient_resolution() {
    assert_eq!(resolve_recipient(Some(42)), Ok(42));
    assert_eq!(resolve_recipient(None), Err(StageFailure::RecipientResolutionFailed));
}

#[test]
fn tick_queries_the_window_before_now() {
    let c = config("Rust");
    let now = 1_700_003_600u64;
    let (s, a) = step(SchedulerState::Idle, &c, Event::Tick { now });
    assert!(matches!(s, SchedulerState::AwaitingHits));
    match a {
        Action::FetchHits { url } => assert_eq!(
            url,
            "https://hn.algolia.com/api/v1/search_by_date?tags=story&query=Rust&numericFilters=created_at_i>1700000000"
        ),
        other => panic!("expected FetchHits, got {:?}", action_name(&other)),
    }
}

#[test]
fn source_failure_sleeps_and_sends_nothing() {
    let c = config("Rust");
    let (s, a) = step(
        SchedulerState::AwaitingHits,
        &c,
        Event::HitsFetched(Err(StageFailure::SourceUnavailable)),
    );
    assert!(matches!(s, SchedulerState::Idle));
    assert!(matches!(a, Action::Sleep { seconds: 3600 }));
    // The next tick still drives a fresh cycle.
    let (s2, a2) = step(s, &c, Event::Tick { now: 1_700_007_200 });
    assert!(matches!(s2, SchedulerState::AwaitingHits));
    assert!(matches!(a2, Action::FetchHits { .. }));
}

#[test]
fn empty_search_result_ends_the_cycle() {
    let c = config("Rust");
    let (s, a) = step(
        SchedulerState::AwaitingHits,
        &c,
        Event::HitsFetched(Ok(Search { hits: vec![] })),
    );
    assert!(matches!(s, SchedulerState::Idle));
    assert!(matches!(a, Action::Sleep { seconds: 3600 }));
}

#[test]
fn short_text_without_url_gets_fallback_message() {
    // Keyword "Rust", one hit with no article URL; extraction from the
    // discussion page yields 40 words, below the threshold.
    let c = config("Rust");
    let h = hit("Rust 2.0", None, "123", "alice");
    let (s, a) = step(
        SchedulerState::AwaitingHits,
        &c,
        Event::HitsFetched(Ok(Search { hits: vec![h] })),
    );
    match &a {
        Action::FetchPage { url } => {
            assert_eq!(url, "https://news.ycombinator.com/item?id=123")
        },
        other => panic!("expected FetchPage, got {:?}", action_name(other)),
    }
    let text = words(40);
    let (s2, a2) = step(s, &c, Event::PageFetched(Ok(text.clone())));
    assert!(matches!(s2, SchedulerState::AwaitingDelivery { .. }));
    match a2 {
        Action::Send { message } => assert_eq!(
            message,
            format!(
                "- <https://news.ycombinator.com/item?id=123|*Rust 2.0*>\n by alice\n{}{}",
                FALLBACK_PREFIX, text
            )
        ),
        other => panic!("expected Send, got {:?}", action_name(&other)),
    }
    let (s3, a3) = step(s2, &c, Event::DeliveryFinished(Ok(())));
    assert!(matches!(s3, SchedulerState::Idle));
    assert!(matches!(a3, Action::Sleep { seconds: 3600 }));
}

#[test]
fn substantial_text_with_url_is_summarized() {
    // Same hit but with an article URL and 500 words of page text: the
    // summarizer is asked once with three attempts, and its answer
    // becomes the summary field next to a source annotation.
    let c = config("Rust");
    let h = hit("Rust 2.0", Some("https://example.com/a"), "123", "alice");
    let (s, a) = step(
        SchedulerState::AwaitingHits,
        &c,
        Event::HitsFetched(Ok(Search { hits: vec![h] })),
    );
    match &a {
        Action::FetchPage { url } => assert_eq!(url, "https://example.com/a"),
        other => panic!("expected FetchPage, got {:?}", action_name(other)),
    }
    let text = words(500);
    let (s2, a2) = step(s, &c, Event::PageFetched(Ok(text.clone())));
    assert!(matches!(s2, SchedulerState::AwaitingSummary { .. }));
    match a2 {
        Action::RequestSummary { prompt, max_attempts } => {
            assert_eq!(max_attempts, 3);
            assert_eq!(prompt, format!("summarize this within 100 words: {}", text));
        },
        other => panic!("expected RequestSummary, got {:?}", action_name(&other)),
    }
    let (s3, a3) = step(s2, &c, Event::SummaryReady(Ok("a tidy summary".to_string())));
    assert!(matches!(s3, SchedulerState::AwaitingDelivery { .. }));
    match a3 {
        Action::Send { message } => assert_eq!(
            message,
            "- <https://news.ycombinator.com/item?id=123|*Rust 2.0*>\n<https://example.com/a|source> by alice\na tidy summary"
        ),
        other => panic!("expected Send, got {:?}", action_name(&other)),
    }
}

#[test]
fn threshold_boundary_still_uses_fallback() {
    // Exactly 100 words do not exceed the threshold.
    let c = config("Rust");
    let h = hit("T", None, "5", "carol");
    let state = SchedulerState::AwaitingText { hits: vec![h], idx: 0 };
    let text = words(100);
    let (_, a) = step(state, &c, Event::PageFetched(Ok(text.clone())));
    match a {
        Action::Send { message } => assert!(message.contains(FALLBACK_PREFIX)),
        other => panic!("expected Send, got {:?}", action_name(&other)),
    }
    // One word more crosses it.
    let h2 = hit("T", None, "5", "carol");
    let state2 = SchedulerState::AwaitingText { hits: vec![h2], idx: 0 };
    let (_, a2) = step(state2, &c, Event::PageFetched(Ok(words(101))));
    assert!(matches!(a2, Action::RequestSummary { .. }));
}

#[test]
fn extraction_failure_degrades_to_sentinel_fallback() {
    let c = config("Rust");
    let h = hit("T", Some("https://example.com/a"), "5", "carol");
    let state = SchedulerState::AwaitingText { hits: vec![h], idx: 0 };
    let (_, a) = step(state, &c, Event::PageFetched(Err(StageFailure::ExtractionFailed)));
    match a {
        Action::Send { message } => assert_eq!(
            message,
            format!(
                "- <https://news.ycombinator.com/item?id=5|*T*>\n<https://example.com/a|source> by carol\n{}failed to scrape text with hit url",
                FALLBACK_PREFIX
            )
        ),
        other => panic!("expected Send, got {:?}", action_name(&other)),
    }
}

#[test]
fn summarizer_failure_still_delivers_fallback() {
    let c = config("Rust");
    let h = hit("T", None, "5", "carol");
    let text = words(150);
    let state = SchedulerState::AwaitingSummary { hits: vec![h], idx: 0, text: text.clone() };
    let (s, a) = step(state, &c, Event::SummaryReady(Err(StageFailure::SummarizerUnavailable)));
    assert!(matches!(s, SchedulerState::AwaitingDelivery { .. }));
    match a {
        Action::Send { message } => assert!(message.ends_with(&format!("{}{}", FALLBACK_PREFIX, text))),
        other => panic!("expected Send, got {:?}", action_name(&other)),
    }
}

#[test]
fn delivery_failure_does_not_stop_the_cycle() {
    let c = config("Rust");
    let h0 = hit("A", None, "1", "a");
    let h1 = hit("B", Some("https://example.com/b"), "2", "b");
    let state = SchedulerState::AwaitingDelivery { hits: vec![h0, h1], idx: 0 };
    let (s, a) = step(state, &c, Event::DeliveryFinished(Err(StageFailure::DeliveryFailed)));
    assert!(matches!(s, SchedulerState::AwaitingText { .. }));
    match a {
        Action::FetchPage { url } => assert_eq!(url, "https://example.com/b"),
        other => panic!("expected FetchPage, got {:?}", action_name(&other)),
    }
}

#[test]
fn mismatched_event_is_ignored() {
    let c = config("Rust");
    let (s, a) = step(SchedulerState::Idle, &c, Event::SummaryReady(Ok("x".to_string())));
    assert!(matches!(s, SchedulerState::Idle));
    assert!(matches!(a, Action::Ignore));
}

fn action_name(a: &Action) -> &'static str {
    match a {
        Action::Sleep { .. } => "Sleep",
        Action::FetchHits { .. } => "FetchHits",
        Action::FetchPage { .. } => "FetchPage",
        Action::RequestSummary { .. } => "RequestSummary",
        Action::Send { .. } => "Send",
        Action::Ignore => "Ignore",
    }
}

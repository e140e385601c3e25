//! Verified core of a story-notification pipeline.
//!
//! The library discovers recent discussion-site stories for a keyword,
//! enriches each with scraped page text, summarizes substantial text,
//! formats one chat message per story, and schedules delivery.  All
//! decision logic is verified; network transport, scraping, the
//! summarization model and message delivery are driven by a host
//! program through the [`scheduler`] state machine's actions.

pub mod compose;
pub mod numerals;
pub mod scheduler;
pub mod story;
pub mod words;

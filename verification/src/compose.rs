//! Pure text composition: the URLs the pipeline visits, the fallback
//! summary, the summarizer request, and the final chat message.

use vstd::prelude::*;
use vstd::string::StringExecFns;
use crate::story::Hit;
use crate::numerals::{dec_rep, u64_to_decimal};

verus! {

/// The discussion-page URL derived from a story identifier.
pub open spec fn discussion_url_view(object_id: Seq<char>) -> Seq<char> {
    "https://news.ycombinator.com/item?id="@ + object_id
}

/// The search-by-date query URL for `keyword`, restricted to stories
/// created strictly after `since` (epoch seconds).
pub open spec fn query_url_view(keyword: Seq<char>, since: int) -> Seq<char> {
    "https://hn.algolia.com/api/v1/search_by_date?tags=story&query="@ + keyword
        + "&numericFilters=created_at_i>"@ + dec_rep(since)
}

/// The URL whose page text is extracted for `h`: the article URL when
/// present, the discussion page otherwise.
pub open spec fn target_view(h: Hit) -> Seq<char> {
    match h.url {
        Some(u) => u@,
        None => discussion_url_view(h.object_id@),
    }
}

/// The sentinel text standing in for page text when extraction fails.
pub open spec fn sentinel_view(h: Hit) -> Seq<char> {
    match h.url {
        Some(_) => "failed to scrape text with hit url"@,
        None => "failed to scrape text with post url"@,
    }
}

/// The fallback summary: the raw extracted text behind an explanatory
/// note, used when the text is too short to warrant a model call.
pub open spec fn fallback_view(text: Seq<char>) -> Seq<char> {
    "Bot found minimal info on webpage to warrant a summary, please see the text on the page the Bot grabbed below if there are any, or use the link above to see the news at its source:\n"@
        + text
}

/// The question posed to the summarizer for (already truncated) text.
pub open spec fn prompt_view(text: Seq<char>) -> Seq<char> {
    "summarize this within 100 words: "@ + text
}

/// The linked headline of the message for `h`.
pub open spec fn headline_view(h: Hit) -> Seq<char> {
    "- <"@ + discussion_url_view(h.object_id@) + "|*"@ + h.title@ + "*>"@
}

/// The "source" annotation of the message for `h`: a link to the
/// article URL when one exists, nothing otherwise.
pub open spec fn source_note_view(h: Hit) -> Seq<char> {
    match h.url {
        Some(u) => "<"@ + u@ + "|source>"@,
        None => Seq::empty(),
    }
}

/// The whole chat message for `h` carrying `summary`: headline line,
/// then the optional source annotation with the author attribution,
/// then the summary.
pub open spec fn message_view(h: Hit, summary: Seq<char>) -> Seq<char> {
    headline_view(h) + "\n"@ + source_note_view(h) + " by "@ + h.author@ + "\n"@ + summary
}

/// The JSON body of a chat lookup by handle, `{"chat_id":"@<name>"}`.
pub open spec fn chat_lookup_body_view(username: Seq<char>) -> Seq<char> {
    "{\"chat_id\":\"@"@ + username + "\"}"@
}

/// Builds the discussion-page URL for a story identifier.
pub fn discussion_url(object_id: &str) -> (r: String)
    ensures
        r@ == discussion_url_view(object_id@),
{
    let mut s = String::from_str("https://news.ycombinator.com/item?id=");
    s.append(object_id);
    s
}

/// Builds the search query URL for `keyword` and the window start
/// `since` (epoch seconds).
pub fn query_url(keyword: &str, since: u64) -> (r: String)
    ensures
        r@ == query_url_view(keyword@, since as int),
{
    let mut s = String::from_str(
        "https://hn.algolia.com/api/v1/search_by_date?tags=story&query=",
    );
    s.append(keyword);
    s.append("&numericFilters=created_at_i>");
    let num = u64_to_decimal(since);
    s.append(num.as_str());
    proof {
        assert(s@ =~= query_url_view(keyword@, since as int));
    }
    s
}

/// Picks the URL to extract page text from for `h`.
pub fn extraction_target(h: &Hit) -> (r: String)
    ensures
        r@ == target_view(*h),
{
    match &h.url {
        Some(u) => u.clone(),
        None => discussion_url(h.object_id.as_str()),
    }
}

/// The sentinel failure text substituted when extraction from `h`'s
/// chosen URL fails.
pub fn extraction_sentinel(h: &Hit) -> (r: String)
    ensures
        r@ == sentinel_view(*h),
{
    match &h.url {
        Some(_) => String::from_str("failed to scrape text with hit url"),
        None => String::from_str("failed to scrape text with post url"),
    }
}

/// Prefixes raw extracted text with the explanatory fallback note.
pub fn fallback_summary(text: &str) -> (r: String)
    ensures
        r@ == fallback_view(text@),
{
    let mut s = String::from_str(
        "Bot found minimal info on webpage to warrant a summary, please see the text on the page the Bot grabbed below if there are any, or use the link above to see the news at its source:\n",
    );
    s.append(text);
    s
}

/// Builds the summarizer question around (already truncated) text.
pub fn summary_prompt(text: &str) -> (r: String)
    ensures
        r@ == prompt_view(text@),
{
    let mut s = String::from_str("summarize this within 100 words: ");
    s.append(text);
    s
}

/// Composes the chat message for `h` carrying `summary`.
pub fn compose_message(h: &Hit, summary: &str) -> (r: String)
    ensures
        r@ == message_view(*h, summary@),
{
    let mut s = String::from_str("- <");
    let post = discussion_url(h.object_id.as_str());
    s.append(post.as_str());
    s.append("|*");
    s.append(h.title.as_str());
    s.append("*>");
    s.append("\n");
    match &h.url {
        Some(u) => {
            s.append("<");
            s.append(u.as_str());
            s.append("|source>");
        },
        None => {},
    }
    s.append(" by ");
    s.append(h.author.as_str());
    s.append("\n");
    s.append(summary);
    proof {
        assert(s@ =~= message_view(*h, summary@));
    }
    s
}

/// `needle` occurs in `hay` as a contiguous run.
pub open spec fn contains_seq(hay: Seq<char>, needle: Seq<char>) -> bool {
    exists|i: int|
        0 <= i && i + needle.len() <= hay.len() && #[trigger] hay.subrange(i, i + needle.len())
            == needle
}

/// Law: formatting is deterministic.  Two hits whose fields read the
/// same, with the same summary text, format to byte-identical
/// messages; in particular, formatting the same hit twice yields the
/// same message both times.
pub proof fn lemma_format_deterministic(h1: Hit, h2: Hit, s1: Seq<char>, s2: Seq<char>)
    requires
        h1.title@ == h2.title@,
        h1.object_id@ == h2.object_id@,
        h1.author@ == h2.author@,
        match (h1.url, h2.url) {
            (Some(u1), Some(u2)) => u1@ == u2@,
            (None, None) => true,
            _ => false,
        },
        s1 == s2,
    ensures
        message_view(h1, s1) == message_view(h2, s2),
{
    assert(message_view(h1, s1) =~= message_view(h2, s2));
}

/// Law: the message for a hit with an article URL contains the linked
/// "source" annotation; the message for a hit without one inserts no
/// annotation — its headline is followed directly by the author
/// attribution.
pub proof fn lemma_source_annotation(h: Hit, s: Seq<char>)
    ensures
        h.url matches Some(u) ==> contains_seq(message_view(h, s), "<"@ + u@ + "|source>"@),
        h.url is None ==> message_view(h, s) == headline_view(h) + "\n"@ + " by "@ + h.author@
            + "\n"@ + s,
{
    match h.url {
        Some(u) => {
            let note = "<"@ + u@ + "|source>"@;
            let msg = message_view(h, s);
            let i = headline_view(h).len() + "\n"@.len();
            assert(msg.subrange(i as int, i as int + note.len() as int) =~= note);
        },
        None => {
            assert(message_view(h, s) =~= headline_view(h) + "\n"@ + " by "@ + h.author@ + "\n"@
                + s);
        },
    }
}

/// Builds the JSON body of a chat lookup by handle.  The handle must
/// need no JSON string escaping (no quote, backslash or control
/// character), which the caller checks.
pub fn chat_lookup_body(username: &str) -> (r: String)
    requires
        forall|i: int|
            0 <= i < username@.len() ==> username@[i] != '"' && username@[i] != '\\' && (
            username@[i] as u32) >= 0x20,
    ensures
        r@ == chat_lookup_body_view(username@),
{
    let mut s = String::from_str("{\"chat_id\":\"@");
    s.append(username);
    s.append("\"}");
    proof {
        assert(s@ =~= chat_lookup_body_view(username@));
    }
    s
}

} // verus!

//! Whitespace-delimited word counting and word-bounded truncation.
//!
//! The pipeline decides whether a scraped page is substantial enough to
//! summarize by counting whitespace-delimited words, and it bounds the
//! summarizer's input by keeping only a prefix of the words, rejoined
//! with single spaces.

use vstd::prelude::*;
use vstd::string::StrSliceExecFns;

verus! {

/// A character with the Unicode `White_Space` property: the separators
/// recognized when splitting text into words.
pub open spec fn is_space_char(c: char) -> bool {
    let u = c as u32;
    u == 0x09 || u == 0x0A || u == 0x0B || u == 0x0C || u == 0x0D || u == 0x20 || u == 0x85
        || u == 0xA0 || u == 0x1680 || (0x2000 <= u && u <= 0x200A) || u == 0x2028 || u == 0x2029
        || u == 0x202F || u == 0x205F || u == 0x3000
}

/// Runtime check matching [`is_space_char`].
pub fn is_space(c: char) -> (r: bool)
    ensures
        r == is_space_char(c),
{
    let u = c as u32;
    u == 0x09 || u == 0x0A || u == 0x0B || u == 0x0C || u == 0x0D || u == 0x20 || u == 0x85
        || u == 0xA0 || u == 0x1680 || (0x2000 <= u && u <= 0x200A) || u == 0x2028 || u == 0x2029
        || u == 0x202F || u == 0x205F || u == 0x3000
}

/// Number of words in `s` from position `i` on, given whether position
/// `i` is reached while inside a word.
pub open spec fn count_words_from(s: Seq<char>, i: int, in_word: bool) -> nat
    decreases s.len() - i when 0 <= i <= s.len()
{
    if i >= s.len() {
        0
    } else if is_space_char(s[i]) {
        count_words_from(s, i + 1, false)
    } else if in_word {
        count_words_from(s, i + 1, true)
    } else {
        1 + count_words_from(s, i + 1, true)
    }
}

/// Number of maximal runs of non-whitespace characters in `s`.
pub open spec fn count_words(s: Seq<char>) -> nat {
    count_words_from(s, 0, false)
}

/// Relies on `String::push`: appends the given character to the end of
/// the string, as std documents.  vstd specifies `String` appends only
/// for `&str` arguments, not single characters.
#[verifier::external_body]
fn push_char(s: &mut String, c: char)
    ensures
        final(s)@ == old(s)@.push(c),
{
    s.push(c)
}

/// Counts the whitespace-delimited words of `s`.
pub fn word_count(s: &str) -> (r: usize)
    ensures
        r == count_words(s@),
{
    let n = s.unicode_len();
    let mut i: usize = 0;
    let mut in_word = false;
    let mut count: usize = 0;
    while i < n
        invariant
            n == s@.len(),
            0 <= i <= n,
            count <= i,
            count + count_words_from(s@, i as int, in_word) == count_words(s@),
        decreases n - i,
    {
        let c = s.get_char(i);
        if is_space(c) {
            in_word = false;
        } else {
            if !in_word {
                count = count + 1;
            }
            in_word = true;
        }
        i = i + 1;
    }
    count
}

/// The text that word-bounded truncation still produces from position
/// `i` on.  `in_word` says whether position `i` continues a word that
/// was already kept, and `started` how many words have been kept so
/// far; a word begun while `started < limit` is kept whole, each kept
/// word after the first preceded by a single space.
pub open spec fn truncate_from(s: Seq<char>, i: int, in_word: bool, started: nat, limit: nat) -> Seq<
    char,
>
    decreases s.len() - i when 0 <= i <= s.len()
{
    if i >= s.len() {
        Seq::empty()
    } else if is_space_char(s[i]) {
        truncate_from(s, i + 1, false, started, limit)
    } else if in_word {
        seq![s[i]] + truncate_from(s, i + 1, true, started, limit)
    } else if started >= limit {
        Seq::empty()
    } else if started == 0 {
        seq![s[i]] + truncate_from(s, i + 1, true, 1, limit)
    } else {
        seq![' ', s[i]] + truncate_from(s, i + 1, true, started + 1, limit)
    }
}

/// The first `limit` whitespace-delimited words of `s`, rejoined with
/// single spaces.
pub open spec fn truncate_view(s: Seq<char>, limit: nat) -> Seq<char> {
    truncate_from(s, 0, false, 0, limit)
}

proof fn lemma_truncate_saturated(s: Seq<char>, i: int, started: nat, limit: nat)
    requires
        0 <= i <= s.len(),
        started >= limit,
    ensures
        truncate_from(s, i, false, started, limit) == Seq::<char>::empty(),
    decreases s.len() - i,
{
    if i < s.len() && is_space_char(s[i]) {
        lemma_truncate_saturated(s, i + 1, started, limit);
    }
}

/// Keeps the first `limit` whitespace-delimited words of `s`, joined
/// with single spaces.
pub fn truncate_words(s: &str, limit: usize) -> (r: String)
    ensures
        r@ == truncate_view(s@, limit as nat),
{
    let n = s.unicode_len();
    let mut out = String::new();
    let mut i: usize = 0;
    let mut in_word = false;
    let mut started: usize = 0;
    while i < n
        invariant
            n == s@.len(),
            0 <= i <= n,
            started <= limit,
            in_word ==> started >= 1,
            out@ + truncate_from(s@, i as int, in_word, started as nat, limit as nat)
                == truncate_view(s@, limit as nat),
        decreases n - i,
    {
        let c = s.get_char(i);
        if is_space(c) {
            in_word = false;
        } else if in_word {
            push_char(&mut out, c);
            proof {
                assert(out@ + truncate_from(s@, i + 1 as int, true, started as nat, limit as nat)
                    =~= truncate_view(s@, limit as nat));
            }
        } else if started >= limit {
            proof {
                lemma_truncate_saturated(s@, i + 1, started as nat, limit as nat);
            }
        } else if started == 0 {
            push_char(&mut out, c);
            started = 1;
            in_word = true;
            proof {
                assert(out@ + truncate_from(s@, i + 1 as int, true, 1nat, limit as nat)
                    =~= truncate_view(s@, limit as nat));
            }
        } else {
            push_char(&mut out, ' ');
            push_char(&mut out, c);
            started = started + 1;
            in_word = true;
            proof {
                assert(out@ + truncate_from(s@, i + 1 as int, true, started as nat, limit as nat)
                    =~= truncate_view(s@, limit as nat));
            }
        }
        i = i + 1;
    }
    out
}

} // verus!

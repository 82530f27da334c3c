//! Validation of command-line parameter values for the web-search client:
//! the query term's length limits, the result-filter list, and the freshness
//! window.

use vstd::prelude::*;
use vstd::string::StrSliceExecFns;
use vstd::string::StringExecFns;
use vstd::string::StringSliceAdditionalSpecFns;

use crate::json::str_eq;
use crate::text::find_char;
use crate::text::first_index_of;
use crate::text::lemma_first_index_bounds;

verus! {

/// The characters the query splitter treats as whitespace.
pub open spec fn is_space_char(c: char) -> bool {
    c == ' ' || c == '\t' || c == '\n' || c == '\r' || c == '\u{b}' || c == '\u{c}' || c
        == '\u{85}' || c == '\u{a0}' || c == '\u{1680}' || (0x2000 <= (c as u32) && (c as u32)
        <= 0x200a) || c == '\u{2028}' || c == '\u{2029}' || c == '\u{202f}' || c == '\u{205f}' || c
        == '\u{3000}'
}

fn is_space(c: char) -> (r: bool)
    ensures
        r == is_space_char(c),
{
    c == ' ' || c == '\t' || c == '\n' || c == '\r' || c == '\u{b}' || c == '\u{c}' || c
        == '\u{85}' || c == '\u{a0}' || c == '\u{1680}' || (0x2000 <= (c as u32) && (c as u32)
        <= 0x200a) || c == '\u{2028}' || c == '\u{2029}' || c == '\u{202f}' || c == '\u{205f}' || c
        == '\u{3000}'
}

/// How many words begin among the first `n` characters: a word begins at a
/// non-space character that starts the text or follows a space.
pub open spec fn word_starts(s: Seq<char>, n: int) -> int
    decreases n,
{
    if n <= 0 || n > s.len() {
        0
    } else {
        word_starts(s, n - 1) + if !is_space_char(s[n - 1]) && (n == 1 || is_space_char(
            s[n - 2],
        )) {
            1int
        } else {
            0int
        }
    }
}

/// The number of whitespace-separated words of a text.
pub open spec fn word_count(s: Seq<char>) -> int {
    word_starts(s, s.len() as int)
}

fn count_words(q: &str) -> (n: u64)
    ensures
        n as int == word_count(q@),
{
    let len = q.unicode_len();
    let mut count: u64 = 0;
    let mut prev_space = true;
    let mut i: usize = 0;
    while i < len
        invariant
            len == q@.len(),
            i <= len,
            count as int == word_starts(q@, i as int),
            count <= i,
            prev_space == (i == 0 || is_space_char(q@[i as int - 1])),
        decreases len - i,
    {
        let c = q.get_char(i);
        let sp = is_space(c);
        if !sp && prev_space {
            count = count + 1;
        }
        prev_space = sp;
        i = i + 1;
    }
    count
}

/// The byte length of a text, as the in-memory length measures it.
pub open spec fn byte_len(s: &str) -> int {
    s.spec_bytes().len() as usize as int
}

/// Accept a query term of at most 400 bytes and at most 50 words; refuse
/// anything longer, naming which limit was crossed.
pub fn q_value_parser(q: &str) -> (r: Result<String, String>)
    ensures
        r matches Ok(s) ==> s@ == q@ && byte_len(q) <= 400 && word_count(q@) <= 50,
        r matches Err(e) ==> (byte_len(q) > 400 && e@
            == "Query term is too long. Maximum 400 characters allowed"@) || (byte_len(q) <= 400
            && word_count(q@) > 50 && e@ == "Query term is too long. Maximum 50 words allowed"@),
{
    if q.len() > 400 {
        return Err(String::from_str("Query term is too long. Maximum 400 characters allowed"));
    }
    let words = count_words(q);
    if words > 50 {
        return Err(String::from_str("Query term is too long. Maximum 50 words allowed"));
    }
    Ok(q.to_owned())
}

/// The values the result filter accepts.
pub open spec fn allowed_filter(s: Seq<char>) -> bool {
    s == "discussions"@ || s == "faq"@ || s == "infobox"@ || s == "news"@ || s == "query"@ || s
        == "summarizer"@ || s == "videos"@ || s == "web"@
}

fn allowed_filter_value(s: &str) -> (r: bool)
    ensures
        r == allowed_filter(s@),
{
    str_eq(s, "discussions") || str_eq(s, "faq") || str_eq(s, "infobox") || str_eq(s, "news")
        || str_eq(s, "query") || str_eq(s, "summarizer") || str_eq(s, "videos") || str_eq(s, "web")
}

/// A comma-separated list each of whose parts is an allowed filter value.
pub open spec fn filter_list_ok(s: Seq<char>) -> bool
    decreases s.len(),
{
    let p = first_index_of(s, ',');
    if !(0 <= p < s.len()) {
        allowed_filter(s)
    } else {
        allowed_filter(s.take(p)) && filter_list_ok(s.skip(p + 1))
    }
}

fn check_filter_list(s: &str) -> (ok: bool)
    ensures
        ok == filter_list_ok(s@),
    decreases s@.len(),
{
    let len = s.unicode_len();
    let p = find_char(s, ',');
    proof {
        lemma_first_index_bounds(s@, ',');
    }
    if p >= len {
        allowed_filter_value(s)
    } else {
        let head = s.substring_char(0, p);
        proof {
            assert(head@ =~= s@.take(p as int));
        }
        if !allowed_filter_value(head) {
            false
        } else {
            let tail = s.substring_char(p + 1, len);
            proof {
                assert(tail@ =~= s@.skip(p as int + 1));
            }
            check_filter_list(tail)
        }
    }
}

/// Accept a comma-separated list of known result-filter values; refuse
/// anything else.
pub fn result_filter_value_parser(result_filter: &str) -> (r: Result<String, String>)
    ensures
        r matches Ok(s) ==> s@ == result_filter@ && filter_list_ok(result_filter@),
        r matches Err(e) ==> !filter_list_ok(result_filter@) && e@
            == "Invalid result filter value. It should be a comma-separated list of these values: discussions, faq, infobox, news, query, summarizer, videos, web"@,
{
    if check_filter_list(result_filter) {
        Ok(result_filter.to_owned())
    } else {
        Err(
            String::from_str(
                "Invalid result filter value. It should be a comma-separated list of these values: discussions, faq, infobox, news, query, summarizer, videos, web",
            ),
        )
    }
}

/// A decimal digit.
pub open spec fn is_digit_char(c: char) -> bool {
    0x30 <= (c as u32) && (c as u32) <= 0x39
}

fn is_digit(c: char) -> (r: bool)
    ensures
        r == is_digit_char(c),
{
    0x30 <= (c as u32) && (c as u32) <= 0x39
}

/// A `YYYY-MM-DDtoYYYY-MM-DD` date window.
pub open spec fn date_range_ok(s: Seq<char>) -> bool {
    s.len() == 22 && is_digit_char(s[0]) && is_digit_char(s[1]) && is_digit_char(s[2])
        && is_digit_char(s[3]) && s[4] == '-' && is_digit_char(s[5]) && is_digit_char(s[6]) && s[7]
        == '-' && is_digit_char(s[8]) && is_digit_char(s[9]) && s[10] == 't' && s[11] == 'o'
        && is_digit_char(s[12]) && is_digit_char(s[13]) && is_digit_char(s[14]) && is_digit_char(
        s[15],
    ) && s[16] == '-' && is_digit_char(s[17]) && is_digit_char(s[18]) && s[19] == '-'
        && is_digit_char(s[20]) && is_digit_char(s[21])
}

fn check_date_range(s: &str) -> (ok: bool)
    ensures
        ok == date_range_ok(s@),
{
    let len = s.unicode_len();
    if len != 22 {
        return false;
    }
    is_digit(s.get_char(0)) && is_digit(s.get_char(1)) && is_digit(s.get_char(2)) && is_digit(
        s.get_char(3),
    ) && s.get_char(4) == '-' && is_digit(s.get_char(5)) && is_digit(s.get_char(6)) && s.get_char(7)
        == '-' && is_digit(s.get_char(8)) && is_digit(s.get_char(9)) && s.get_char(10) == 't'
        && s.get_char(11) == 'o' && is_digit(s.get_char(12)) && is_digit(s.get_char(13))
        && is_digit(s.get_char(14)) && is_digit(s.get_char(15)) && s.get_char(16) == '-'
        && is_digit(s.get_char(17)) && is_digit(s.get_char(18)) && s.get_char(19) == '-'
        && is_digit(s.get_char(20)) && is_digit(s.get_char(21))
}

/// A freshness value: one of the fixed windows or an explicit date range.
pub open spec fn freshness_ok(s: Seq<char>) -> bool {
    s == "pd"@ || s == "pw"@ || s == "pm"@ || date_range_ok(s)
}

/// Accept a known freshness window or a `YYYY-MM-DDtoYYYY-MM-DD` range;
/// refuse anything else.
pub fn freshness_value_parser(freshness: &str) -> (r: Result<String, String>)
    ensures
        r matches Ok(s) ==> s@ == freshness@ && freshness_ok(freshness@),
        r matches Err(e) ==> !freshness_ok(freshness@) && e@
            == "Invalid freshness value. Must be 'pd', 'pw', 'pm' or 'YYYY-MM-DDtoYYYY-MM-DD'"@,
{
    if str_eq(freshness, "pd") || str_eq(freshness, "pw") || str_eq(freshness, "pm")
        || check_date_range(freshness) {
        Ok(freshness.to_owned())
    } else {
        Err(
            String::from_str(
                "Invalid freshness value. Must be 'pd', 'pw', 'pm' or 'YYYY-MM-DDtoYYYY-MM-DD'",
            ),
        )
    }
}

} // verus!

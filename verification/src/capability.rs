//! The remaining capability replies: webpage text, time of day, and the
//! no-op for unrecognized tool names.
//!
//! The page fetch itself is asynchronous I/O performed by the unverified
//! shell; this module turns its outcome into the exact reply string.

use vstd::prelude::*;

verus! {

/// The exact fallback reply when the page fetch failed.
pub open spec fn spec_scrape_fallback() -> Seq<char> {
    "failed to get webpage"@
}

/// The scraper tool's reply for one fetch outcome: the extracted page text
/// verbatim, or the fixed fallback on any failure.
pub open spec fn spec_scrape_reply(fetched: Option<Seq<char>>) -> Seq<char> {
    match fetched {
        Some(text) => text,
        None => spec_scrape_fallback(),
    }
}

/// Render the scraper tool's reply from the fetch outcome, `None` standing
/// for a transport failure.
pub fn scrape_reply(fetched: Option<String>) -> (r: String)
    ensures
        r@ == spec_scrape_reply(
            match fetched {
                Some(t) => Some(t@),
                None => None,
            },
        ),
{
    match fetched {
        Some(text) => text,
        None => String::from_str("failed to get webpage"),
    }
}

/// The local timestamp now, in RFC 3339 form.
///
/// Relies on chrono: `Local::now` reads the clock and `DateTime::to_rfc3339`
/// renders it with its offset. The result depends on the clock and the
/// machine's time zone, so nothing is stated of it.
#[verifier::external_body]
pub fn get_time_of_day() -> String {
    chrono::Local::now().to_rfc3339()
}

/// The reply for a tool call whose name is not in the dispatch table: the
/// no-op yields empty content.
pub fn unknown_tool_reply() -> (r: String)
    ensures
        r@ == Seq::<char>::empty(),
{
    String::new()
}

} // verus!

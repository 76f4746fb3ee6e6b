//! Core of an embedded-browser host: an authoritative store of each rendering
//! surface's navigation state, the title-channel protocol that keeps that
//! store synchronized with the page, the adaptive polling loop's decision
//! logic, and a cancellable, progress-throttled download engine with history.

pub mod bounds;
pub mod cef;
pub mod clock;
pub mod downloads;
pub mod filename;
pub mod ipc;
pub mod lifecycle;
pub mod oauth;
pub mod poll;
pub mod storage;
pub mod strutil;
pub mod surface;
pub mod table;
pub mod transfer;
pub mod urls;

use vstd::prelude::*;

verus! {

/// A URL value that means "no committed navigation yet": the empty string or
/// `about:blank`. Consumers must never treat such a value as a real page.
pub open spec fn spec_is_sentinel_url(url: Seq<char>) -> bool {
    url.len() == 0 || url == "about:blank"@
}

/// Decides whether a URL string is the "no committed navigation yet" sentinel.
pub fn is_sentinel_url(url: &str) -> (r: bool)
    ensures
        r == spec_is_sentinel_url(url@),
{
    if url.unicode_len() == 0 {
        true
    } else {
        strutil::str_eq(url, "about:blank")
    }
}

} // verus!

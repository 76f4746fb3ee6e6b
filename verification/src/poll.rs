//! The reconciliation loop's decision logic. One adaptively-scheduled task
//! per surface re-injects the observer script every tick, forces a state push
//! through the title channel every third tick, and publishes a change
//! notification when the stored URL moved past the loop's cursor. The loop
//! itself — script injection, sleeping, and the existence check that ends the
//! task — is I/O and lives with the host; every decision it takes is here.

use vstd::prelude::*;
use vstd::string::*;
use crate::spec_is_sentinel_url;
use crate::surface::{PageView, UpdateEventView, WebViewInfo, WebViewUpdateEvent};
use crate::urls;

verus! {

/// The adaptive polling interval: responsiveness is front-loaded for the
/// common immediate post-creation navigation, then backed off to bound the
/// cost of long-lived idle surfaces.
pub fn poll_interval_ms(iteration: u32) -> (r: u64)
    ensures
        iteration < 10 ==> r == 150,
        10 <= iteration < 30 ==> r == 300,
        iteration >= 30 ==> r == 500,
{
    if iteration < 10 {
        150
    } else if iteration < 30 {
        300
    } else {
        500
    }
}

/// Every third tick the loop forces a synchronous state push through the
/// title channel, compensating for pages whose transitions the observer's
/// own detection misses.
pub fn should_force_push(iteration: u32) -> (r: bool)
    ensures
        r == (iteration % 3 == 0),
{
    iteration % 3 == 0
}

/// The URL, title and favicon the loop reads from a store snapshot: empty
/// fields when the surface is not (or no longer) registered.
pub open spec fn spec_snapshot_url(stored: Option<PageView>) -> Seq<char> {
    match stored {
        Some(p) => p.url,
        None => Seq::<char>::empty(),
    }
}

/// The loop's per-tick decision: when the stored URL is real and differs from
/// the cursor (the last URL this loop observed), the cursor advances to it
/// and a notification is published carrying the stored fields, with the title
/// derived from the URL when the page reported none, the favicon only when
/// one is known, and loading reported over.
pub open spec fn spec_poll_decision(stored: Option<PageView>, last: Seq<char>, id: Seq<char>)
    -> Option<(Seq<char>, UpdateEventView)> {
    let u = spec_snapshot_url(stored);
    if !spec_is_sentinel_url(u) && u != last {
        let t = match stored {
            Some(p) => p.title,
            None => Seq::<char>::empty(),
        };
        let f = match stored {
            Some(p) => p.favicon,
            None => Seq::<char>::empty(),
        };
        Some(
            (
                u,
                UpdateEventView {
                    id: id,
                    url: Some(u),
                    title: Some(
                        if t.len() == 0 {
                            urls::spec_title_from_url(u)
                        } else {
                            t
                        },
                    ),
                    favicon: if f.len() == 0 {
                        None
                    } else {
                        Some(f)
                    },
                    is_loading: Some(false),
                    can_go_back: None,
                    can_go_forward: None,
                },
            ),
        )
    } else {
        None
    }
}

/// One reconciliation tick's read of the store: returns the advanced cursor
/// and the notification to publish, or nothing when the stored URL is a
/// sentinel or unchanged since the last tick.
pub fn poll_tick(stored: Option<&WebViewInfo>, last_seen: &String, id: &str) -> (r: Option<
    (String, WebViewUpdateEvent),
>)
    ensures
        match r {
            Some(p) => spec_poll_decision(
                match stored {
                    Some(i) => Some(i@),
                    None => None,
                },
                last_seen@,
                id@,
            ) == Some((p.0@, p.1@)),
            None => spec_poll_decision(
                match stored {
                    Some(i) => Some(i@),
                    None => None,
                },
                last_seen@,
                id@,
            ) is None,
        },
{
    let (url, title, favicon): (String, String, String) = match stored {
        Some(i) => (i.url.clone(), i.title.clone(), i.favicon.clone()),
        None => (String::new(), String::new(), String::new()),
    };
    if crate::is_sentinel_url(url.as_str()) {
        return None;
    }
    if crate::strutil::str_eq(url.as_str(), last_seen.as_str()) {
        return None;
    }
    let title_out = if title.unicode_len() == 0 {
        urls::extract_title_from_url(url.as_str())
    } else {
        title
    };
    let favicon_out = if favicon.unicode_len() == 0 {
        None
    } else {
        Some(favicon)
    };
    let event = WebViewUpdateEvent {
        id: id.to_owned(),
        url: Some(url.clone()),
        title: Some(title_out),
        favicon: favicon_out,
        is_loading: Some(false),
        can_go_back: None,
        can_go_forward: None,
    };
    Some((url, event))
}

} // verus!

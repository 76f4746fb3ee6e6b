//! The title-channel protocol: script inside a rendering surface reports its
//! real URL, title and favicon by writing a JSON payload behind a fixed
//! sentinel prefix into the document title. The host inspects every title
//! update: a sentinel-tagged payload is applied to the store as an atomic
//! triple update; a plain title is merged into the title field only, and only
//! when the store already holds a real (non-sentinel) URL for the surface.

use vstd::prelude::*;
use vstd::string::*;
use crate::strutil;
use crate::spec_is_sentinel_url;
use crate::surface::{PageView, UpdateEventView, WebViewManager, WebViewUpdateEvent,
    view_of_opt_string};

verus! {

/// The sentinel prefix that marks a title update as a protocol payload.
pub open spec fn spec_ipc_prefix() -> Seq<char> {
    "__AXION_IPC__:"@
}

/// What the JSON parser recovers from a payload text: the `url`, `title` and
/// `favicon` string fields of the object, if the text parses at all. This is
/// a function of the text alone.
pub uninterp spec fn spec_ipc_fields(s: Seq<char>) -> Option<
    (Option<Seq<char>>, Option<Seq<char>>, Option<Seq<char>>),
>;

/// Relies on `serde_json::from_str::<Value>`, `Value::get` and
/// `Value::as_str` to read the three string fields of the payload object;
/// the result depends on the payload text alone.
#[verifier::external_body]
fn parse_payload_json(s: &str) -> (r: Option<(Option<String>, Option<String>, Option<String>)>)
    ensures
        match r {
            Some(t) => spec_ipc_fields(s@) == Some(
                (view_of_opt_string(t.0), view_of_opt_string(t.1), view_of_opt_string(t.2)),
            ),
            None => spec_ipc_fields(s@) is None,
        },
{
    match serde_json::from_str::<serde_json::Value>(s) {
        Ok(v) => {
            let url = v.get("url").and_then(|x| x.as_str()).map(|x| x.to_string());
            let title = v.get("title").and_then(|x| x.as_str()).map(|x| x.to_string());
            let favicon = v.get("favicon").and_then(|x| x.as_str()).map(|x| x.to_string());
            Some((url, title, favicon))
        },
        Err(_) => None,
    }
}

/// A missing payload field reads as the empty string.
pub open spec fn or_empty(o: Option<Seq<char>>) -> Seq<char> {
    match o {
        Some(s) => s,
        None => Seq::<char>::empty(),
    }
}

/// The store after an atomic triple update from a sentinel payload: nothing
/// changes for a sentinel URL or an unregistered id; otherwise URL and title
/// are replaced and the favicon is replaced only by a non-empty one.
pub open spec fn spec_apply_triple(
    m: Map<Seq<char>, PageView>,
    id: Seq<char>,
    url: Seq<char>,
    title: Seq<char>,
    favicon: Option<Seq<char>>,
) -> Map<Seq<char>, PageView> {
    if spec_is_sentinel_url(url) || !m.contains_key(id) {
        m
    } else {
        m.insert(
            id,
            (PageView {
                url: url,
                title: title,
                favicon: match favicon {
                    Some(f) => if f.len() > 0 {
                        f
                    } else {
                        m[id].favicon
                    },
                    None => m[id].favicon,
                },
                ..m[id]
            }),
        )
    }
}

/// The change notification published for a sentinel payload: none for a
/// sentinel URL, otherwise the payload's values with loading reported over.
pub open spec fn spec_triple_event(
    id: Seq<char>,
    url: Seq<char>,
    title: Seq<char>,
    favicon: Option<Seq<char>>,
) -> Option<UpdateEventView> {
    if spec_is_sentinel_url(url) {
        None
    } else {
        Some(
            UpdateEventView {
                id: id,
                url: Some(url),
                title: Some(title),
                favicon: favicon,
                is_loading: Some(false),
                can_go_back: None,
                can_go_forward: None,
            },
        )
    }
}

pub open spec fn opt_event_view(r: Option<WebViewUpdateEvent>) -> Option<UpdateEventView> {
    match r {
        Some(e) => Some(e@),
        None => None,
    }
}

/// The full effect of one title update on the store, and the notification it
/// publishes: a sentinel-tagged payload goes through the triple update; a
/// plain, non-empty title is merged into the title field only when the store
/// already holds a real URL for the surface, and is ignored otherwise.
pub open spec fn spec_title_transition(
    m: Map<Seq<char>, PageView>,
    id: Seq<char>,
    title: Seq<char>,
) -> (Map<Seq<char>, PageView>, Option<UpdateEventView>) {
    if strutil::spec_starts_with(title, spec_ipc_prefix()) {
        match spec_ipc_fields(title.subrange(spec_ipc_prefix().len() as int, title.len() as int)) {
            Some(f) => (
                spec_apply_triple(m, id, or_empty(f.0), or_empty(f.1), f.2),
                spec_triple_event(id, or_empty(f.0), or_empty(f.1), f.2),
            ),
            None => (m, None),
        }
    } else if title.len() == 0 {
        (m, None)
    } else if m.contains_key(id) && !spec_is_sentinel_url(m[id].url) {
        (
            m.insert(id, (PageView { title: title, ..m[id] })),
            Some(
                UpdateEventView {
                    id: id,
                    url: Some(m[id].url),
                    title: Some(title),
                    favicon: None,
                    is_loading: Some(false),
                    can_go_back: None,
                    can_go_forward: None,
                },
            ),
        )
    } else {
        (m, None)
    }
}

/// Applies a decoded payload triple to the store and builds the notification.
/// This is the atomic triple update of the protocol: it changes nothing for a
/// sentinel URL or an unregistered id, and it never creates an entry.
pub fn apply_ipc_payload(
    mgr: &mut WebViewManager,
    id: &str,
    url: String,
    title: String,
    favicon: Option<String>,
) -> (r: Option<WebViewUpdateEvent>)
    requires
        old(mgr).wf(),
    ensures
        final(mgr).wf(),
        final(mgr)@ =~= spec_apply_triple(old(mgr)@, id@, url@, title@, view_of_opt_string(favicon)),
        opt_event_view(r) == spec_triple_event(id@, url@, title@, view_of_opt_string(favicon)),
{
    if crate::is_sentinel_url(url.as_str()) {
        return None;
    }
    mgr.update_url(id, url.clone());
    mgr.update_title(id, title.clone());
    let favicon_out = match favicon {
        Some(f) => {
            if f.unicode_len() > 0 {
                mgr.update_favicon(id, f.clone());
            }
            Some(f)
        },
        None => None,
    };
    Some(
        WebViewUpdateEvent {
            id: id.to_owned(),
            url: Some(url),
            title: Some(title),
            favicon: favicon_out,
            is_loading: Some(false),
            can_go_back: None,
            can_go_forward: None,
        },
    )
}

/// Routes one observed title update: decodes and applies a sentinel-tagged
/// payload, or merges a plain title under the real-URL gate.
pub fn handle_title_changed(mgr: &mut WebViewManager, id: &str, title: &str) -> (r: Option<
    WebViewUpdateEvent,
>)
    requires
        old(mgr).wf(),
    ensures
        final(mgr).wf(),
        final(mgr)@ =~= spec_title_transition(old(mgr)@, id@, title@).0,
        opt_event_view(r) == spec_title_transition(old(mgr)@, id@, title@).1,
{
    let prefix = "__AXION_IPC__:";
    if strutil::str_starts_with(title, prefix) {
        let rest = title.substring_char(prefix.unicode_len(), title.unicode_len());
        match parse_payload_json(rest) {
            Some((u, t, f)) => {
                let url = match u {
                    Some(x) => x,
                    None => String::new(),
                };
                let ttl = match t {
                    Some(x) => x,
                    None => String::new(),
                };
                apply_ipc_payload(mgr, id, url, ttl, f)
            },
            None => None,
        }
    } else {
        if title.unicode_len() == 0 {
            return None;
        }
        let stored_url = match mgr.get(id) {
            Some(info) => Some(info.url.clone()),
            None => None,
        };
        match stored_url {
            Some(u) => {
                if crate::is_sentinel_url(u.as_str()) {
                    return None;
                }
                mgr.update_title(id, title.to_owned());
                Some(
                    WebViewUpdateEvent {
                        id: id.to_owned(),
                        url: Some(u),
                        title: Some(title.to_owned()),
                        favicon: None,
                        is_loading: Some(false),
                        can_go_back: None,
                        can_go_forward: None,
                    },
                )
            },
            None => None,
        }
    }
}

} // verus!

//! The surface lifecycle controller's decision logic: registration, target
//! resolution, the navigation and page-load callback updates (which defer to
//! the title-channel protocol), and snapshot resolution for readers.

use vstd::prelude::*;
use vstd::string::*;
use crate::spec_is_sentinel_url;
use crate::bounds::{BoundsStore, WebViewBounds};
use crate::ipc::{spec_apply_triple, opt_event_view};
use crate::surface::{PageView, UpdateEventView, WebViewInfo, WebViewManager, WebViewUpdateEvent,
    fresh_page, view_of_opt_string};
use crate::urls;

verus! {

/// Where a creation or navigation request should take the surface.
pub enum NavTarget {
    /// The blank internal page, for a sentinel URL.
    Blank,
    /// The given absolute URL.
    Remote(String),
}

/// Resolves the navigation target of a request: a sentinel URL maps to the
/// blank internal page; anything else must parse as an absolute URL, or the
/// request is rejected.
pub fn resolve_target(url: &str) -> (r: Result<NavTarget, String>)
    ensures
        match r {
            Ok(NavTarget::Blank) => spec_is_sentinel_url(url@),
            Ok(NavTarget::Remote(u)) => !spec_is_sentinel_url(url@) && urls::spec_url_parts(url@)
                is Some && u@ == url@,
            Err(e) => !spec_is_sentinel_url(url@) && urls::spec_url_parts(url@) is None && e@
                == "Invalid URL"@,
        },
{
    if crate::is_sentinel_url(url) {
        Ok(NavTarget::Blank)
    } else if urls::url_parses(url) {
        Ok(NavTarget::Remote(url.to_owned()))
    } else {
        Err(String::from_str("Invalid URL"))
    }
}

/// Creates the host-side state of a new surface: registers a fresh entry in
/// the state store and records the requested rectangle, then resolves the
/// navigation target. Registration happens even when the URL is rejected, as
/// the stores track the surface, not the page.
pub fn create_webview(
    mgr: &mut WebViewManager,
    bounds: &mut BoundsStore,
    id: String,
    url: String,
    b: WebViewBounds,
) -> (r: Result<NavTarget, String>)
    requires
        old(mgr).wf(),
        old(bounds).wf(),
    ensures
        final(mgr).wf(),
        final(bounds).wf(),
        final(mgr)@ =~= old(mgr)@.insert(id@, fresh_page(id@, url@)),
        final(bounds)@ =~= old(bounds)@.insert(id@, b),
        match r {
            Ok(NavTarget::Blank) => spec_is_sentinel_url(url@),
            Ok(NavTarget::Remote(u)) => !spec_is_sentinel_url(url@) && urls::spec_url_parts(url@)
                is Some && u@ == url@,
            Err(e) => !spec_is_sentinel_url(url@) && urls::spec_url_parts(url@) is None && e@
                == "Invalid URL"@,
        },
{
    mgr.add(id.clone(), url.clone());
    bounds.set(id, b);
    resolve_target(url.as_str())
}

/// Removes the host-side state of a surface; idempotent.
pub fn close_webview(mgr: &mut WebViewManager, id: &str)
    requires
        old(mgr).wf(),
    ensures
        final(mgr).wf(),
        final(mgr)@ =~= old(mgr)@.remove(id@),
{
    mgr.remove(id);
}

/// The store after a navigation-start callback: the reported URL and derived
/// title are taken only when the store still holds a sentinel URL for the
/// surface — data already pushed through the title channel carries the real
/// post-redirect URL and must not be overwritten.
pub open spec fn spec_nav_update(
    m: Map<Seq<char>, PageView>,
    id: Seq<char>,
    url: Seq<char>,
    title: Seq<char>,
) -> Map<Seq<char>, PageView> {
    if m.contains_key(id) && spec_is_sentinel_url(m[id].url) {
        m.insert(id, (PageView { url: url, title: title, ..m[id] }))
    } else {
        m
    }
}

/// Applies a navigation-start callback and builds the notification, which is
/// published whether or not the store changed.
pub fn navigation_update(mgr: &mut WebViewManager, id: &str, url: String) -> (r:
    WebViewUpdateEvent)
    requires
        old(mgr).wf(),
    ensures
        final(mgr).wf(),
        final(mgr)@ =~= spec_nav_update(old(mgr)@, id@, url@, urls::spec_title_from_url(url@)),
        r@ == (UpdateEventView {
            id: id@,
            url: Some(url@),
            title: Some(urls::spec_title_from_url(url@)),
            favicon: None,
            is_loading: Some(true),
            can_go_back: None,
            can_go_forward: None,
        }),
{
    let title = urls::extract_title_from_url(url.as_str());
    let should = match mgr.get(id) {
        Some(info) => crate::is_sentinel_url(info.url.as_str()),
        None => true,
    };
    if should {
        mgr.update_url(id, url.clone());
        mgr.update_title(id, title.clone());
    }
    WebViewUpdateEvent {
        id: id.to_owned(),
        url: Some(url),
        title: Some(title),
        favicon: None,
        is_loading: Some(true),
        can_go_back: None,
        can_go_forward: None,
    }
}

/// The store after a page-load callback: nothing for the blank page; under
/// the same sentinel gate as navigation, the URL is taken, and the derived
/// title only once loading has finished.
pub open spec fn spec_page_load_update(
    m: Map<Seq<char>, PageView>,
    id: Seq<char>,
    url: Seq<char>,
    title: Seq<char>,
    finished: bool,
) -> Map<Seq<char>, PageView> {
    if url == "about:blank"@ {
        m
    } else if m.contains_key(id) && spec_is_sentinel_url(m[id].url) {
        if finished {
            m.insert(id, (PageView { url: url, title: title, ..m[id] }))
        } else {
            m.insert(id, (PageView { url: url, ..m[id] }))
        }
    } else {
        m
    }
}

/// Applies a page-load callback (`finished` is false at load start and true
/// at load end) and builds the notification, if any.
pub fn page_load_update(mgr: &mut WebViewManager, id: &str, url: String, finished: bool) -> (r:
    Option<WebViewUpdateEvent>)
    requires
        old(mgr).wf(),
    ensures
        final(mgr).wf(),
        final(mgr)@ =~= spec_page_load_update(
            old(mgr)@,
            id@,
            url@,
            urls::spec_title_from_url(url@),
            finished,
        ),
        opt_event_view(r) == if url@ == "about:blank"@ {
            None::<UpdateEventView>
        } else {
            Some(
                UpdateEventView {
                    id: id@,
                    url: Some(url@),
                    title: Some(urls::spec_title_from_url(url@)),
                    favicon: None,
                    is_loading: Some(!finished),
                    can_go_back: None,
                    can_go_forward: None,
                },
            )
        },
{
    if crate::strutil::str_eq(url.as_str(), "about:blank") {
        return None;
    }
    let title = urls::extract_title_from_url(url.as_str());
    let should = match mgr.get(id) {
        Some(info) => crate::is_sentinel_url(info.url.as_str()),
        None => true,
    };
    if should {
        mgr.update_url(id, url.clone());
        if finished {
            mgr.update_title(id, title.clone());
        }
    }
    Some(
        WebViewUpdateEvent {
            id: id.to_owned(),
            url: Some(url),
            title: Some(title),
            favicon: None,
            is_loading: Some(!finished),
            can_go_back: None,
            can_go_forward: None,
        },
    )
}

/// The store after an explicit page-info report: URL and title are replaced
/// for an existing entry, the favicon only when one is reported.
pub open spec fn spec_page_info_update(
    m: Map<Seq<char>, PageView>,
    id: Seq<char>,
    url: Seq<char>,
    title: Seq<char>,
    favicon: Option<Seq<char>>,
) -> Map<Seq<char>, PageView> {
    if m.contains_key(id) {
        m.insert(
            id,
            (PageView {
                url: url,
                title: title,
                favicon: match favicon {
                    Some(f) => f,
                    None => m[id].favicon,
                },
                ..m[id]
            }),
        )
    } else {
        m
    }
}

/// Applies a page-info report from script running in the surface and builds
/// the notification, which is always published.
pub fn update_page_info(
    mgr: &mut WebViewManager,
    id: &str,
    url: String,
    title: String,
    favicon: Option<String>,
) -> (r: WebViewUpdateEvent)
    requires
        old(mgr).wf(),
    ensures
        final(mgr).wf(),
        final(mgr)@ =~= spec_page_info_update(
            old(mgr)@,
            id@,
            url@,
            title@,
            view_of_opt_string(favicon),
        ),
        r@ == (UpdateEventView {
            id: id@,
            url: Some(url@),
            title: Some(title@),
            favicon: view_of_opt_string(favicon),
            is_loading: Some(false),
            can_go_back: None,
            can_go_forward: None,
        }),
{
    mgr.update_url(id, url.clone());
    mgr.update_title(id, title.clone());
    let favicon_out = match favicon {
        Some(f) => {
            mgr.update_favicon(id, f.clone());
            Some(f)
        },
        None => None,
    };
    WebViewUpdateEvent {
        id: id.to_owned(),
        url: Some(url),
        title: Some(title),
        favicon: favicon_out,
        is_loading: Some(false),
        can_go_back: None,
        can_go_forward: None,
    }
}

/// The URL a reader should be shown: the stored URL when it is real, else the
/// surface's native URL when that is real, else whatever the store holds,
/// else the native URL.
pub open spec fn spec_choose_url(stored: Option<PageView>, native: Seq<char>) -> Seq<char> {
    match stored {
        Some(p) => if !spec_is_sentinel_url(p.url) {
            p.url
        } else if !spec_is_sentinel_url(native) {
            native
        } else {
            p.url
        },
        None => native,
    }
}

/// Resolves the full page information shown to a reader from the store
/// snapshot and the surface's native URL: stored fields win when they carry
/// data; the title falls back to one derived from the chosen URL.
pub fn resolve_page_info(stored: Option<&WebViewInfo>, native_url: &str, id: &str) -> (r:
    WebViewInfo)
    ensures
        r@.id == id@,
        r@.url == spec_choose_url(
            match stored {
                Some(p) => Some(p@),
                None => None,
            },
            native_url@,
        ),
        r@.title == (match stored {
            Some(p) => if p@.title.len() > 0 {
                p@.title
            } else {
                urls::spec_title_from_url(r@.url)
            },
            None => urls::spec_title_from_url(r@.url),
        }),
        r@.favicon == (match stored {
            Some(p) => if p@.favicon.len() > 0 {
                p@.favicon
            } else {
                Seq::<char>::empty()
            },
            None => Seq::<char>::empty(),
        }),
        r@.is_loading == (match stored {
            Some(p) => p@.is_loading,
            None => false,
        }),
        r@.can_go_back == (match stored {
            Some(p) => p@.can_go_back,
            None => true,
        }),
        r@.can_go_forward == (match stored {
            Some(p) => p@.can_go_forward,
            None => false,
        }),
{
    let url: String = match stored {
        Some(p) => {
            if !crate::is_sentinel_url(p.url.as_str()) {
                p.url.clone()
            } else if !crate::is_sentinel_url(native_url) {
                native_url.to_owned()
            } else {
                p.url.clone()
            }
        },
        None => native_url.to_owned(),
    };
    let title: String = match stored {
        Some(p) => {
            if p.title.unicode_len() > 0 {
                p.title.clone()
            } else {
                urls::extract_title_from_url(url.as_str())
            }
        },
        None => urls::extract_title_from_url(url.as_str()),
    };
    let favicon: String = match stored {
        Some(p) => {
            if p.favicon.unicode_len() > 0 {
                p.favicon.clone()
            } else {
                String::new()
            }
        },
        None => String::new(),
    };
    let (is_loading, can_go_back, can_go_forward): (bool, bool, bool) = match stored {
        Some(p) => (p.is_loading, p.can_go_back, p.can_go_forward),
        None => (false, true, false),
    };
    WebViewInfo {
        id: id.to_owned(),
        url: url,
        title: title,
        favicon: favicon,
        is_loading: is_loading,
        can_go_back: can_go_back,
        can_go_forward: can_go_forward,
    }
}

/// The URL reported to a caller asking where a surface is: the surface's own
/// URL when it is real — it is always current after a navigation — else the
/// stored URL when one is known, else nothing.
pub open spec fn spec_current_url(native: Option<Seq<char>>, stored: Option<PageView>) -> Option<
    Seq<char>,
> {
    match native {
        Some(n) => if !spec_is_sentinel_url(n) {
            Some(n)
        } else {
            spec_stored_url(stored)
        },
        None => spec_stored_url(stored),
    }
}

pub open spec fn spec_stored_url(stored: Option<PageView>) -> Option<Seq<char>> {
    match stored {
        Some(p) => if p.url.len() > 0 {
            Some(p.url)
        } else {
            None
        },
        None => None,
    }
}

/// Resolves the URL shown for a surface from its native URL (absent when the
/// surface is gone) and the store snapshot; an unknown surface is an error.
pub fn get_webview_url(native: Option<&String>, stored: Option<&WebViewInfo>) -> (r: Result<
    String,
    String,
>)
    ensures
        match r {
            Ok(u) => spec_current_url(
                match native {
                    Some(n) => Some(n@),
                    None => None,
                },
                match stored {
                    Some(p) => Some(p@),
                    None => None,
                },
            ) == Some(u@),
            Err(e) => spec_current_url(
                match native {
                    Some(n) => Some(n@),
                    None => None,
                },
                match stored {
                    Some(p) => Some(p@),
                    None => None,
                },
            ) is None && e@ == "WebView not found"@,
        },
{
    match native {
        Some(n) => {
            if !crate::is_sentinel_url(n.as_str()) {
                return Ok(n.clone());
            }
        },
        None => {},
    }
    match stored {
        Some(p) => {
            if p.url.as_str().unicode_len() > 0 {
                Ok(p.url.clone())
            } else {
                Err(String::from_str("WebView not found"))
            }
        },
        None => Err(String::from_str("WebView not found")),
    }
}

/// Sentinel-tagged payloads take precedence over plain navigation-callback
/// updates: for a registered surface and a payload carrying a real URL, the
/// two updates commute, and the surface's stored URL and title afterwards are
/// the payload's, in whichever order the two arrived; a reported non-empty
/// payload favicon is kept as well.
pub proof fn law_sentinel_precedence(
    m: Map<Seq<char>, PageView>,
    id: Seq<char>,
    nav_url: Seq<char>,
    nav_title: Seq<char>,
    p_url: Seq<char>,
    p_title: Seq<char>,
    p_fav: Option<Seq<char>>,
)
    requires
        m.contains_key(id),
        !spec_is_sentinel_url(p_url),
    ensures
        spec_apply_triple(spec_nav_update(m, id, nav_url, nav_title), id, p_url, p_title, p_fav)
            =~= spec_nav_update(
            spec_apply_triple(m, id, p_url, p_title, p_fav),
            id,
            nav_url,
            nav_title,
        ),
        spec_apply_triple(spec_nav_update(m, id, nav_url, nav_title), id, p_url, p_title, p_fav)[id].url
            == p_url,
        spec_apply_triple(spec_nav_update(m, id, nav_url, nav_title), id, p_url, p_title, p_fav)[id].title
            == p_title,
        (match p_fav {
            Some(f) => f.len() > 0 ==> spec_apply_triple(
                spec_nav_update(m, id, nav_url, nav_title),
                id,
                p_url,
                p_title,
                p_fav,
            )[id].favicon == f,
            None => true,
        }),
{
    let m_nav = spec_nav_update(m, id, nav_url, nav_title);
    let m_both = spec_apply_triple(m_nav, id, p_url, p_title, p_fav);
    let m_ipc = spec_apply_triple(m, id, p_url, p_title, p_fav);
    assert(!spec_is_sentinel_url(m_ipc[id].url));
    assert(spec_nav_update(m_ipc, id, nav_url, nav_title) == m_ipc);
    assert(m_nav[id].favicon == m[id].favicon);
    assert(m_both =~= m_ipc);
}

} // verus!

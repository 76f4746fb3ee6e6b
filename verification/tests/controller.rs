//! Surface creation and teardown, and the registries kept beside the state
//! store.

use axion_browser::bounds::{BoundsStore, WebViewBounds};
use axion_browser::cef::CefManager;
use axion_browser::lifecycle::{NavTarget, close_webview, create_webview, navigation_update};
use axion_browser::oauth::OAuthStorage;
use axion_browser::surface::WebViewManager;

#[test]
fn creation_registers_state_and_bounds() {
    let mut m = WebViewManager::new();
    let mut b = BoundsStore::new();
    let r = create_webview(
        &mut m,
        &mut b,
        "tab".to_string(),
        "https://site.example".to_string(),
        WebViewBounds { x: 0, y: 40, width: 1280, height: 680 },
    );
    assert!(matches!(r, Ok(NavTarget::Remote(_))));
    assert_eq!(m.get("tab").unwrap().url, "https://site.example");
    assert!(m.get("tab").unwrap().is_loading);
    assert_eq!(b.get("tab").unwrap().height, 680);
}

#[test]
fn creation_with_bad_url_registers_but_reports_the_error() {
    let mut m = WebViewManager::new();
    let mut b = BoundsStore::new();
    let r = create_webview(
        &mut m,
        &mut b,
        "tab".to_string(),
        "no such scheme".to_string(),
        WebViewBounds { x: 0, y: 0, width: 100, height: 100 },
    );
    assert_eq!(r.err().as_deref(), Some("Invalid URL"));
    assert!(m.get("tab").is_some());
}

#[test]
fn closing_forgets_the_surface_and_is_idempotent() {
    let mut m = WebViewManager::new();
    m.add("tab".to_string(), "".to_string());
    close_webview(&mut m, "tab");
    assert!(m.get("tab").is_none());
    close_webview(&mut m, "tab");
    assert!(m.get("tab").is_none());
}

#[test]
fn navigation_callback_fills_only_fresh_entries() {
    let mut m = WebViewManager::new();
    m.add("tab".to_string(), "".to_string());
    let ev = navigation_update(&mut m, "tab", "https://www.github.com/p".to_string());
    assert_eq!(m.get("tab").unwrap().url, "https://www.github.com/p");
    assert_eq!(m.get("tab").unwrap().title, "GitHub");
    assert_eq!(ev.is_loading, Some(true));

    // The store now holds a real URL: a later callback must not clobber it.
    let _ = navigation_update(&mut m, "tab", "https://elsewhere.example".to_string());
    assert_eq!(m.get("tab").unwrap().url, "https://www.github.com/p");
}

#[test]
fn browser_registry_round_trip() {
    let mut c = CefManager::new();
    assert!(c.create_browser("b1".to_string(), "https://one.example".to_string()).is_ok());
    assert!(c.create_browser("b2".to_string(), "https://two.example".to_string()).is_ok());
    let got = c.get_browser("b1").unwrap().unwrap();
    assert_eq!(got.url, "https://one.example");
    assert!(got.is_loading);
    assert!(c.get_browser("b3").unwrap().is_none());

    let all = c.get_all_browsers().unwrap();
    assert_eq!(all.len(), 2);

    c.remove_browser("b1").unwrap();
    assert!(c.get_browser("b1").unwrap().is_none());
    assert_eq!(c.get_all_browsers().unwrap().len(), 1);
    c.remove_browser("b1").unwrap();
}

#[test]
fn fresh_session_store_is_empty() {
    let s = OAuthStorage::new();
    assert!(s.tokens.is_none());
    assert!(s.user_info.is_none());
}

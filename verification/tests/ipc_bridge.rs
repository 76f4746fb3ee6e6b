//! The title-channel protocol: sentinel payloads are decoded and applied as
//! atomic triple updates, plain titles are merged only under the real-URL
//! gate, and sentinel data wins over callback data in either arrival order.

use axion_browser::ipc::handle_title_changed;
use axion_browser::lifecycle::navigation_update;
use axion_browser::surface::WebViewManager;

fn payload(url: &str, title: &str, favicon: &str) -> String {
    let mut s = String::from("__AXION_IPC__:{\"url\":\"");
    s.push_str(url);
    s.push_str("\",\"title\":\"");
    s.push_str(title);
    s.push_str("\",\"favicon\":\"");
    s.push_str(favicon);
    s.push_str("\"}");
    s
}

#[test]
fn sentinel_payload_applies_triple_update() {
    let mut m = WebViewManager::new();
    m.add("t".to_string(), "".to_string());
    let msg = payload("https://real.example/page", "Real Title", "https://real.example/f.ico");
    let ev = handle_title_changed(&mut m, "t", &msg).expect("payload must publish");
    let info = m.get("t").unwrap();
    assert_eq!(info.url, "https://real.example/page");
    assert_eq!(info.title, "Real Title");
    assert_eq!(info.favicon, "https://real.example/f.ico");
    assert_eq!(ev.url.as_deref(), Some("https://real.example/page"));
    assert_eq!(ev.title.as_deref(), Some("Real Title"));
    assert_eq!(ev.is_loading, Some(false));
}

#[test]
fn plain_event_then_sentinel_ends_on_payload_values() {
    let mut m = WebViewManager::new();
    m.add("t".to_string(), "".to_string());
    // The plain callback lands first: it may fill the sentinel-URL entry.
    let _ = navigation_update(&mut m, "t", "https://callback.example/start".to_string());
    // The sentinel payload lands second and overwrites everything.
    let msg = payload("https://real.example/after", "Real", "https://real.example/i.png");
    let _ = handle_title_changed(&mut m, "t", &msg);
    let info = m.get("t").unwrap();
    assert_eq!(info.url, "https://real.example/after");
    assert_eq!(info.title, "Real");
    assert_eq!(info.favicon, "https://real.example/i.png");
}

#[test]
fn sentinel_then_plain_event_still_ends_on_payload_values() {
    let mut m = WebViewManager::new();
    m.add("t".to_string(), "".to_string());
    // The sentinel payload lands first.
    let msg = payload("https://real.example/after", "Real", "https://real.example/i.png");
    let _ = handle_title_changed(&mut m, "t", &msg);
    // The plain callback lands second: the store already holds a real URL,
    // so the callback must not overwrite it.
    let _ = navigation_update(&mut m, "t", "https://callback.example/start".to_string());
    let info = m.get("t").unwrap();
    assert_eq!(info.url, "https://real.example/after");
    assert_eq!(info.title, "Real");
    assert_eq!(info.favicon, "https://real.example/i.png");
}

#[test]
fn sentinel_payload_with_blank_url_is_discarded() {
    let mut m = WebViewManager::new();
    m.add("t".to_string(), "https://kept.example".to_string());
    let msg = payload("about:blank", "Nothing", "");
    let ev = handle_title_changed(&mut m, "t", &msg);
    assert!(ev.is_none());
    assert_eq!(m.get("t").unwrap().url, "https://kept.example");
}

#[test]
fn malformed_payload_is_discarded_not_treated_as_title() {
    let mut m = WebViewManager::new();
    m.add("t".to_string(), "https://kept.example".to_string());
    m.update_title("t", "Kept".to_string());
    let ev = handle_title_changed(&mut m, "t", "__AXION_IPC__:{not json at all");
    assert!(ev.is_none());
    let info = m.get("t").unwrap();
    assert_eq!(info.title, "Kept");
    assert_eq!(info.url, "https://kept.example");
}

#[test]
fn plain_title_with_real_url_merges_title_only() {
    let mut m = WebViewManager::new();
    m.add("t".to_string(), "https://page.example".to_string());
    m.update_favicon("t", "https://page.example/f.ico".to_string());
    let ev = handle_title_changed(&mut m, "t", "New Page Title").expect("must publish");
    let info = m.get("t").unwrap();
    assert_eq!(info.title, "New Page Title");
    assert_eq!(info.url, "https://page.example");
    assert_eq!(info.favicon, "https://page.example/f.ico");
    assert_eq!(ev.url.as_deref(), Some("https://page.example"));
}

#[test]
fn plain_title_without_real_url_is_ignored() {
    let mut m = WebViewManager::new();
    m.add("t".to_string(), "".to_string());
    let ev = handle_title_changed(&mut m, "t", "Cannot Be Attributed");
    assert!(ev.is_none());
    assert_eq!(m.get("t").unwrap().title, "");

    m.update_url("t", "about:blank".to_string());
    let ev2 = handle_title_changed(&mut m, "t", "Still Not Attributable");
    assert!(ev2.is_none());
    assert_eq!(m.get("t").unwrap().title, "");
}

#[test]
fn empty_plain_title_is_ignored() {
    let mut m = WebViewManager::new();
    m.add("t".to_string(), "https://page.example".to_string());
    m.update_title("t", "Kept".to_string());
    let ev = handle_title_changed(&mut m, "t", "");
    assert!(ev.is_none());
    assert_eq!(m.get("t").unwrap().title, "Kept");
}

#[test]
fn payload_favicon_empty_keeps_stored_favicon() {
    let mut m = WebViewManager::new();
    m.add("t".to_string(), "https://a.example".to_string());
    m.update_favicon("t", "https://a.example/old.ico".to_string());
    let msg = payload("https://a.example/next", "N", "");
    let _ = handle_title_changed(&mut m, "t", &msg);
    let info = m.get("t").unwrap();
    assert_eq!(info.url, "https://a.example/next");
    assert_eq!(info.favicon, "https://a.example/old.ico");
}

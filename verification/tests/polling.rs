//! The reconciliation loop's decisions: adaptive intervals, the forced-push
//! cadence, the change-detection cursor, and page-info resolution, plus the
//! timestamp conversions used by browser imports.

use axion_browser::lifecycle::{get_webview_url, page_load_update, resolve_page_info, update_page_info};
use axion_browser::poll::{poll_interval_ms, poll_tick, should_force_push};
use axion_browser::storage::{chrome_time_to_timestamp, firefox_time_to_timestamp};
use axion_browser::surface::WebViewManager;

#[test]
fn intervals_front_load_responsiveness() {
    assert_eq!(poll_interval_ms(0), 150);
    assert_eq!(poll_interval_ms(9), 150);
    assert_eq!(poll_interval_ms(10), 300);
    assert_eq!(poll_interval_ms(29), 300);
    assert_eq!(poll_interval_ms(30), 500);
    assert_eq!(poll_interval_ms(100000), 500);
}

#[test]
fn every_third_tick_forces_a_push() {
    assert!(should_force_push(0));
    assert!(!should_force_push(1));
    assert!(!should_force_push(2));
    assert!(should_force_push(3));
    assert!(should_force_push(999999999 / 3 * 3));
}

#[test]
fn tick_emits_when_the_stored_url_moves() {
    let mut m = WebViewManager::new();
    m.add("t".to_string(), "https://one.example".to_string());
    m.update_title("t", "One".to_string());
    let last = String::new();
    let (cursor, ev) = poll_tick(m.get("t"), &last, "t").expect("a real URL must publish");
    assert_eq!(cursor, "https://one.example");
    assert_eq!(ev.url.as_deref(), Some("https://one.example"));
    assert_eq!(ev.title.as_deref(), Some("One"));
    assert_eq!(ev.favicon, None);
    assert_eq!(ev.is_loading, Some(false));

    // The cursor has caught up: the next tick is silent.
    assert!(poll_tick(m.get("t"), &cursor, "t").is_none());
}

#[test]
fn tick_is_silent_for_sentinel_urls_and_missing_surfaces() {
    let mut m = WebViewManager::new();
    m.add("t".to_string(), "about:blank".to_string());
    let last = String::new();
    assert!(poll_tick(m.get("t"), &last, "t").is_none());
    assert!(poll_tick(m.get("missing"), &last, "missing").is_none());
}

#[test]
fn tick_derives_a_title_when_the_page_reported_none() {
    let mut m = WebViewManager::new();
    m.add("t".to_string(), "https://www.github.com/a".to_string());
    let last = String::new();
    let (_, ev) = poll_tick(m.get("t"), &last, "t").unwrap();
    assert_eq!(ev.title.as_deref(), Some("GitHub"));
}

#[test]
fn page_load_skips_the_blank_page() {
    let mut m = WebViewManager::new();
    m.add("t".to_string(), "".to_string());
    assert!(page_load_update(&mut m, "t", "about:blank".to_string(), true).is_none());
    let ev = page_load_update(&mut m, "t", "https://site.example".to_string(), false).unwrap();
    assert_eq!(ev.is_loading, Some(true));
    assert_eq!(m.get("t").unwrap().url, "https://site.example");
}

#[test]
fn explicit_page_info_report_updates_and_publishes() {
    let mut m = WebViewManager::new();
    m.add("t".to_string(), "https://old.example".to_string());
    let ev = update_page_info(
        &mut m,
        "t",
        "https://new.example".to_string(),
        "New".to_string(),
        Some("https://new.example/f.ico".to_string()),
    );
    let info = m.get("t").unwrap();
    assert_eq!(info.url, "https://new.example");
    assert_eq!(info.title, "New");
    assert_eq!(info.favicon, "https://new.example/f.ico");
    assert_eq!(ev.is_loading, Some(false));
}

#[test]
fn page_info_resolution_prefers_stored_real_data() {
    let mut m = WebViewManager::new();
    m.add("t".to_string(), "https://stored.example".to_string());
    m.update_title("t", "Stored".to_string());
    let info = resolve_page_info(m.get("t"), "https://native.example", "t");
    assert_eq!(info.url, "https://stored.example");
    assert_eq!(info.title, "Stored");

    // A sentinel stored URL falls back to the native one.
    let mut m2 = WebViewManager::new();
    m2.add("t".to_string(), "".to_string());
    let info2 = resolve_page_info(m2.get("t"), "https://native.example", "t");
    assert_eq!(info2.url, "https://native.example");
    assert_eq!(info2.title, "Native");

    // No snapshot at all: the native URL and its derived title.
    let info3 = resolve_page_info(None, "https://www.github.com/z", "t");
    assert_eq!(info3.url, "https://www.github.com/z");
    assert_eq!(info3.title, "GitHub");
    assert!(info3.can_go_back);
    assert!(!info3.can_go_forward);
}

#[test]
fn current_url_prefers_real_native_state() {
    let mut m = WebViewManager::new();
    m.add("t".to_string(), "https://stored.example".to_string());
    let native = "https://native.example".to_string();
    assert_eq!(
        get_webview_url(Some(&native), m.get("t")),
        Ok("https://native.example".to_string())
    );
    // A blank native URL falls back to the store.
    let blank = "about:blank".to_string();
    assert_eq!(get_webview_url(Some(&blank), m.get("t")), Ok("https://stored.example".to_string()));
    // Neither side knows anything: the surface is unknown.
    let mut m2 = WebViewManager::new();
    m2.add("t".to_string(), "".to_string());
    assert_eq!(get_webview_url(None, m2.get("t")), Err("WebView not found".to_string()));
    assert_eq!(get_webview_url(None, None), Err("WebView not found".to_string()));
}

#[test]
fn chrome_times_convert_to_unix_seconds() {
    let epoch_in_chrome_time: i64 = 11644473600000000;
    assert_eq!(chrome_time_to_timestamp(epoch_in_chrome_time), 0);
    assert_eq!(chrome_time_to_timestamp(epoch_in_chrome_time + 5_000_000), 5);
    assert_eq!(chrome_time_to_timestamp(epoch_in_chrome_time + 1_999_999), 1);
}

#[test]
fn firefox_times_convert_to_unix_seconds() {
    assert_eq!(firefox_time_to_timestamp(0), 0);
    assert_eq!(firefox_time_to_timestamp(3_500_000), 3);
    assert_eq!(firefox_time_to_timestamp(1_700_000_000_123_456), 1_700_000_000);
}

//! The state store: registration, field updates, removal, and the guarantee
//! that an unregistered id is never resurrected by an update.

use axion_browser::surface::WebViewManager;

#[test]
fn register_then_get() {
    let mut m = WebViewManager::new();
    m.add("tab1".to_string(), "https://example.com".to_string());
    let info = m.get("tab1").expect("registered surface must be found");
    assert_eq!(info.id, "tab1");
    assert_eq!(info.url, "https://example.com");
    assert_eq!(info.title, "");
    assert_eq!(info.favicon, "");
    assert!(info.is_loading);
    assert!(!info.can_go_back);
    assert!(!info.can_go_forward);
}

#[test]
fn register_overwrites_prior_entry() {
    let mut m = WebViewManager::new();
    m.add("tab1".to_string(), "https://a.example".to_string());
    m.update_title("tab1", "Old".to_string());
    m.add("tab1".to_string(), "https://b.example".to_string());
    let info = m.get("tab1").unwrap();
    assert_eq!(info.url, "https://b.example");
    assert_eq!(info.title, "");
}

#[test]
fn updates_mutate_named_field_only() {
    let mut m = WebViewManager::new();
    m.add("t".to_string(), "https://x.example".to_string());
    m.update_title("t", "Title".to_string());
    m.update_favicon("t", "https://x.example/f.ico".to_string());
    m.update_url("t", "https://y.example".to_string());
    let info = m.get("t").unwrap();
    assert_eq!(info.url, "https://y.example");
    assert_eq!(info.title, "Title");
    assert_eq!(info.favicon, "https://x.example/f.ico");
}

#[test]
fn get_after_unregister_returns_none() {
    let mut m = WebViewManager::new();
    m.add("t".to_string(), "https://x.example".to_string());
    m.update_url("t", "https://y.example".to_string());
    m.update_title("t", "T".to_string());
    m.update_favicon("t", "f".to_string());
    m.remove("t");
    assert!(m.get("t").is_none());
}

#[test]
fn operations_on_unregistered_id_are_noops() {
    let mut m = WebViewManager::new();
    m.update_url("ghost1", "https://x.example".to_string());
    m.update_title("ghost1", "T".to_string());
    m.update_favicon("ghost1", "f".to_string());
    m.remove("ghost1");
    assert!(m.get("ghost1").is_none());
    m.add("other".to_string(), "https://o.example".to_string());
    m.update_url("ghost1", "https://x.example".to_string());
    assert!(m.get("ghost1").is_none());
    assert_eq!(m.get("other").unwrap().url, "https://o.example");
}

#[test]
fn list_names_every_live_surface() {
    let mut m = WebViewManager::new();
    m.add("a".to_string(), "u1".to_string());
    m.add("b".to_string(), "u2".to_string());
    m.add("c".to_string(), "u3".to_string());
    m.remove("b");
    let mut ids = m.list();
    ids.sort();
    assert_eq!(ids, vec!["a".to_string(), "c".to_string()]);
}

//! The bounds store and the validity gate on restoring geometry when a
//! hidden surface is shown again.

use axion_browser::bounds::{BoundsStore, WebViewBounds, is_valid_bounds};

#[test]
fn stored_bounds_come_back() {
    let mut b = BoundsStore::new();
    b.set("t".to_string(), WebViewBounds { x: 10, y: 20, width: 800, height: 600 });
    let got = b.get("t").unwrap();
    assert_eq!(got, WebViewBounds { x: 10, y: 20, width: 800, height: 600 });
    assert!(b.get("other").is_none());
}

#[test]
fn negative_position_is_never_applied_on_show() {
    let mut b = BoundsStore::new();
    b.set("t".to_string(), WebViewBounds { x: -1, y: 0, width: 500, height: 500 });
    assert!(b.bounds_to_restore("t").is_none());
}

#[test]
fn tiny_size_is_a_hidden_sentinel_not_geometry() {
    let mut b = BoundsStore::new();
    b.set("t".to_string(), WebViewBounds { x: 0, y: 0, width: 10, height: 500 });
    assert!(b.bounds_to_restore("t").is_none());
    b.set("t".to_string(), WebViewBounds { x: 0, y: 0, width: 500, height: 10 });
    assert!(b.bounds_to_restore("t").is_none());
}

#[test]
fn valid_bounds_are_restored() {
    let mut b = BoundsStore::new();
    b.set("t".to_string(), WebViewBounds { x: 0, y: 0, width: 11, height: 11 });
    assert_eq!(
        b.bounds_to_restore("t"),
        Some(WebViewBounds { x: 0, y: 0, width: 11, height: 11 })
    );
}

#[test]
fn nothing_restored_for_unknown_surface() {
    let b = BoundsStore::new();
    assert!(b.bounds_to_restore("nobody").is_none());
}

#[test]
fn validity_check_boundaries() {
    assert!(is_valid_bounds(&WebViewBounds { x: 0, y: 0, width: 11, height: 11 }));
    assert!(!is_valid_bounds(&WebViewBounds { x: 0, y: 0, width: 10, height: 11 }));
    assert!(!is_valid_bounds(&WebViewBounds { x: 0, y: -5, width: 100, height: 100 }));
}

#[test]
fn latest_update_wins() {
    let mut b = BoundsStore::new();
    b.set("t".to_string(), WebViewBounds { x: 1, y: 1, width: 100, height: 100 });
    b.set("t".to_string(), WebViewBounds { x: 2, y: 2, width: 200, height: 200 });
    assert_eq!(b.get("t").unwrap().x, 2);
    b.remove("t");
    assert!(b.get("t").is_none());
    b.remove("t");
}

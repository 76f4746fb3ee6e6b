//! Filename resolution: content-disposition parsing, URL-derived names,
//! collision suffixes, fresh ids, and the readable titles derived from URLs.

use axion_browser::downloads::make_download_id;
use axion_browser::filename::{extract_filename, get_unique_filename};
use axion_browser::lifecycle::{NavTarget, resolve_target};
use axion_browser::urls::{extract_filename_from_url, extract_title_from_url, url_parses};

#[test]
fn collision_gets_numbered_suffixes() {
    let existing = vec!["report.pdf".to_string()];
    assert_eq!(get_unique_filename(&existing, "report.pdf"), "report (1).pdf");
    let existing2 = vec!["report.pdf".to_string(), "report (1).pdf".to_string()];
    assert_eq!(get_unique_filename(&existing2, "report.pdf"), "report (2).pdf");
}

#[test]
fn free_name_is_kept_as_is() {
    let existing = vec!["other.pdf".to_string()];
    assert_eq!(get_unique_filename(&existing, "report.pdf"), "report.pdf");
}

#[test]
fn collision_without_extension() {
    let existing = vec!["notes".to_string()];
    assert_eq!(get_unique_filename(&existing, "notes"), "notes (1)");
}

#[test]
fn exhausted_suffixes_fall_back_to_timestamp() {
    let mut existing = vec!["a.txt".to_string()];
    for i in 1..1000 {
        existing.push(format!("a ({}).txt", i));
    }
    let picked = get_unique_filename(&existing, "a.txt");
    assert!(picked.starts_with("a_"), "got {}", picked);
    assert!(picked.ends_with(".txt"), "got {}", picked);
}

#[test]
fn content_disposition_quoted_filename_wins() {
    let name = extract_filename(
        "https://host.example/path/else.bin",
        Some("attachment; filename=\"data file.bin\""),
    );
    assert_eq!(name, "data file.bin");
}

#[test]
fn content_disposition_unquoted_filename_is_cut_and_trimmed() {
    let name = extract_filename(
        "https://host.example/path/else.bin",
        Some("attachment; filename= stuff.zip ; size=3"),
    );
    assert_eq!(name, "stuff.zip");
}

#[test]
fn empty_content_disposition_filename_falls_back_to_url() {
    let name = extract_filename("https://host.example/files/doc.pdf", Some("filename=\"\""));
    assert_eq!(name, "doc.pdf");
}

#[test]
fn url_segment_is_percent_decoded() {
    let name = extract_filename("https://host.example/files/report%20final.pdf", None);
    assert_eq!(name, "report final.pdf");
}

#[test]
fn unusable_url_falls_back_to_timestamp_name() {
    let name = extract_filename("not a url at all", None);
    assert!(name.starts_with("download_"), "got {}", name);
    let digits = &name["download_".len()..];
    assert!(!digits.is_empty());
    assert!(digits.chars().all(|c| c.is_ascii_digit()));
}

#[test]
fn filename_from_url_wants_an_extension_dot() {
    assert_eq!(
        extract_filename_from_url("https://host.example/files/video.mp4"),
        "video.mp4"
    );
    let no_ext = extract_filename_from_url("https://host.example/files/segment");
    assert!(no_ext.starts_with("download_"), "got {}", no_ext);
}

#[test]
fn fresh_ids_carry_the_tag_and_differ() {
    let a = make_download_id();
    let b = make_download_id();
    assert_eq!(a.len(), 15);
    assert!(a.starts_with("dl_"));
    assert_ne!(a, b);
}

#[test]
fn titles_for_known_hosts() {
    assert_eq!(extract_title_from_url("https://www.github.com/someone"), "GitHub");
    assert_eq!(extract_title_from_url("https://youtube.com/watch"), "YouTube");
    assert_eq!(extract_title_from_url("https://google.com/search?q=x"), "Google");
}

#[test]
fn unknown_host_is_capitalized_up_to_the_dot() {
    assert_eq!(extract_title_from_url("https://www.example.com/a/b"), "Example");
    assert_eq!(extract_title_from_url("https://rust-lang.org"), "Rust-lang");
}

#[test]
fn unparseable_url_titles_as_itself() {
    assert_eq!(extract_title_from_url("no scheme here"), "no scheme here");
}

#[test]
fn target_resolution() {
    assert!(matches!(resolve_target(""), Ok(NavTarget::Blank)));
    assert!(matches!(resolve_target("about:blank"), Ok(NavTarget::Blank)));
    match resolve_target("https://site.example/page") {
        Ok(NavTarget::Remote(u)) => assert_eq!(u, "https://site.example/page"),
        other => panic!("expected a remote target, got {:?}", other.is_ok()),
    }
    assert!(resolve_target("definitely not a url").is_err());
    assert!(url_parses("https://site.example"));
    assert!(!url_parses("::::"));
}

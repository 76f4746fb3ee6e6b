//! URL inspection: validity, host extraction and the readable fallback title
//! derived from a host, plus the filename taken from a URL's last path
//! segment. The parsing itself is done by the `url` and `urlencoding` crates
//! behind trusted wrappers; everything around them is verified.

use vstd::prelude::*;
use vstd::string::*;
use crate::strutil;
use crate::surface::view_of_opt_string;

verus! {

/// What the URL parser recovers from a text: nothing when the text is not an
/// absolute URL; otherwise the host (absent for URLs without one) and the
/// last path segment (absent for cannot-be-a-base URLs). A function of the
/// text alone.
pub uninterp spec fn spec_url_parts(s: Seq<char>) -> Option<
    (Option<Seq<char>>, Option<Seq<char>>),
>;

/// Relies on `url::Url::parse`; on success `Url::host_str` gives the host and
/// the last element of `Url::path_segments` the final path segment.
#[verifier::external_body]
pub(crate) fn url_parts(s: &str) -> (r: Option<(Option<String>, Option<String>)>)
    ensures
        match r {
            Some(t) => spec_url_parts(s@) == Some(
                (view_of_opt_string(t.0), view_of_opt_string(t.1)),
            ),
            None => spec_url_parts(s@) is None,
        },
{
    match url::Url::parse(s) {
        Ok(u) => {
            let host = u.host_str().map(|h| h.to_string());
            let last = u.path_segments().and_then(|segs| segs.last()).map(|x| x.to_string());
            Some((host, last))
        },
        Err(_) => None,
    }
}

/// Whether the text parses as an absolute URL.
pub fn url_parses(s: &str) -> (r: bool)
    ensures
        r == (spec_url_parts(s@) is Some),
{
    match url_parts(s) {
        Some(_) => true,
        None => false,
    }
}

/// What percent-decoding gives for a text: a function of the text alone.
pub uninterp spec fn spec_percent_decoded(s: Seq<char>) -> Seq<char>;

/// Relies on `urlencoding::decode`; text whose decoding is not valid UTF-8 is
/// handed back unchanged, as the callers of the decoding do.
#[verifier::external_body]
pub(crate) fn percent_decode(s: &str) -> (r: String)
    ensures
        r@ == spec_percent_decoded(s@),
{
    match urlencoding::decode(s) {
        Ok(d) => d.into_owned(),
        Err(_) => s.to_string(),
    }
}

/// The uppercase mapping of one character: a function of the character alone.
pub uninterp spec fn spec_upper(c: char) -> Seq<char>;

/// Relies on `char::to_uppercase`: the Unicode uppercase mapping of `c`,
/// possibly several characters long.
#[verifier::external_body]
fn char_upper(c: char) -> (r: String)
    ensures
        r@ == spec_upper(c),
{
    c.to_uppercase().collect::<String>()
}

/// The host with a leading `www.` stripped.
pub open spec fn spec_clean_host(h: Seq<char>) -> Seq<char> {
    if strutil::spec_starts_with(h, "www."@) {
        h.subrange("www."@.len() as int, h.len() as int)
    } else {
        h
    }
}

/// The part of the host before its first dot.
pub open spec fn spec_domain_prefix(s: Seq<char>) -> Seq<char> {
    match s.index_of_first('.') {
        Some(i) => s.subrange(0, i),
        None => s,
    }
}

/// The readable title derived from a cleaned host: a fixed name for a few
/// well-known sites, otherwise the first domain label with its first
/// character uppercased.
pub open spec fn spec_title_for_clean_host(c: Seq<char>) -> Seq<char> {
    if c == "google.com"@ || c == "google.ru"@ {
        "Google"@
    } else if c == "youtube.com"@ {
        "YouTube"@
    } else if c == "github.com"@ {
        "GitHub"@
    } else if c == "spotify.com"@ || c == "open.spotify.com"@ {
        "Spotify"@
    } else if c == "twitter.com"@ || c == "x.com"@ {
        "X (Twitter)"@
    } else if c == "facebook.com"@ {
        "Facebook"@
    } else if c == "instagram.com"@ {
        "Instagram"@
    } else if c == "reddit.com"@ {
        "Reddit"@
    } else if c == "wikipedia.org"@ {
        "Wikipedia"@
    } else if c == "amazon.com"@ {
        "Amazon"@
    } else if c == "netflix.com"@ {
        "Netflix"@
    } else if c == "twitch.tv"@ {
        "Twitch"@
    } else if c == "discord.com"@ {
        "Discord"@
    } else if c == "telegram.org"@ || c == "web.telegram.org"@ {
        "Telegram"@
    } else if c == "vk.com"@ {
        "ВКонтакте"@
    } else if c == "yandex.ru"@ || c == "ya.ru"@ {
        "Яндекс"@
    } else if c == "mail.ru"@ {
        "Mail.ru"@
    } else {
        let d = spec_domain_prefix(c);
        if d.len() == 0 {
            c
        } else {
            spec_upper(d[0]) + d.subrange(1, d.len() as int)
        }
    }
}

/// The readable title derived from a URL: the URL text itself when it does
/// not parse, otherwise the title for its (possibly absent) host.
pub open spec fn spec_title_from_url(u: Seq<char>) -> Seq<char> {
    match spec_url_parts(u) {
        Some(p) => spec_title_for_clean_host(spec_clean_host(crate::ipc::or_empty(p.0))),
        None => u,
    }
}

fn title_for_clean_host(c: &str) -> (r: String)
    ensures
        r@ == spec_title_for_clean_host(c@),
{
    if strutil::str_eq(c, "google.com") || strutil::str_eq(c, "google.ru") {
        String::from_str("Google")
    } else if strutil::str_eq(c, "youtube.com") {
        String::from_str("YouTube")
    } else if strutil::str_eq(c, "github.com") {
        String::from_str("GitHub")
    } else if strutil::str_eq(c, "spotify.com") || strutil::str_eq(c, "open.spotify.com") {
        String::from_str("Spotify")
    } else if strutil::str_eq(c, "twitter.com") || strutil::str_eq(c, "x.com") {
        String::from_str("X (Twitter)")
    } else if strutil::str_eq(c, "facebook.com") {
        String::from_str("Facebook")
    } else if strutil::str_eq(c, "instagram.com") {
        String::from_str("Instagram")
    } else if strutil::str_eq(c, "reddit.com") {
        String::from_str("Reddit")
    } else if strutil::str_eq(c, "wikipedia.org") {
        String::from_str("Wikipedia")
    } else if strutil::str_eq(c, "amazon.com") {
        String::from_str("Amazon")
    } else if strutil::str_eq(c, "netflix.com") {
        String::from_str("Netflix")
    } else if strutil::str_eq(c, "twitch.tv") {
        String::from_str("Twitch")
    } else if strutil::str_eq(c, "discord.com") {
        String::from_str("Discord")
    } else if strutil::str_eq(c, "telegram.org") || strutil::str_eq(c, "web.telegram.org") {
        String::from_str("Telegram")
    } else if strutil::str_eq(c, "vk.com") {
        String::from_str("ВКонтакте")
    } else if strutil::str_eq(c, "yandex.ru") || strutil::str_eq(c, "ya.ru") {
        String::from_str("Яндекс")
    } else if strutil::str_eq(c, "mail.ru") {
        String::from_str("Mail.ru")
    } else {
        let dot = strutil::find_first_char(c, '.');
        let dlen: usize = match dot {
            Some(i) => i,
            None => c.unicode_len(),
        };
        proof {
            c@.index_of_first_ensures('.');
            match c@.index_of_first('.') {
                Some(i) => {
                    match dot {
                        Some(d) => {
                            if d < i {
                                assert(c@[d as int] == '.');
                            }
                            if i < d {
                                assert(c@[i] == '.');
                            }
                        },
                        None => {
                            assert(c@[i] == '.');
                        },
                    }
                },
                None => {
                    match dot {
                        Some(d) => {
                            assert(c@[d as int] == '.');
                        },
                        None => {},
                    }
                },
            }
            assert(spec_domain_prefix(c@) == c@.subrange(0, dlen as int));
        }
        if dlen == 0 {
            proof {
                assert(spec_domain_prefix(c@).len() == 0);
            }
            c.to_owned()
        } else {
            let first = c.get_char(0);
            let mut out = char_upper(first);
            let rest = c.substring_char(1, dlen);
            out.append(rest);
            proof {
                assert(spec_domain_prefix(c@)[0] == c@[0]);
                assert(c@.subrange(0, dlen as int).subrange(1, dlen as int) =~= c@.subrange(
                    1,
                    dlen as int,
                ));
            }
            out
        }
    }
}

/// The readable title for a URL, used when a page has reported no title of
/// its own: a fixed name for well-known hosts, otherwise the capitalized
/// first domain label, or the URL text itself when it does not parse.
pub fn extract_title_from_url(url: &str) -> (r: String)
    ensures
        r@ == spec_title_from_url(url@),
{
    match url_parts(url) {
        Some((host, _)) => {
            let h = match host {
                Some(x) => x,
                None => String::new(),
            };
            let hs = h.as_str();
            proof {
                reveal_strlit("www.");
            }
            let clean = if strutil::str_starts_with(hs, "www.") {
                hs.substring_char(4, hs.unicode_len())
            } else {
                hs
            };
            proof {
                assert(clean@ == spec_clean_host(h@));
            }
            title_for_clean_host(clean)
        },
        None => url.to_owned(),
    }
}

/// The filename that a URL's last path segment yields, if it yields one: the
/// percent-decoded segment, provided that is non-empty, not a bare slash,
/// and carries an extension dot.
pub open spec fn spec_filename_from_url(u: Seq<char>) -> Option<Seq<char>> {
    match spec_url_parts(u) {
        Some(p) => match p.1 {
            Some(seg) => {
                let d = spec_percent_decoded(seg);
                if d.len() > 0 && d != "/"@ && (exists|j: int| 0 <= j < d.len() && d[j] == '.') {
                    Some(d)
                } else {
                    None
                }
            },
            None => None,
        },
        None => None,
    }
}

/// The filename to save a URL under: its decoded last path segment when that
/// looks like a file name, and otherwise a fresh timestamp-based name.
pub fn extract_filename_from_url(url: &str) -> (r: String)
    ensures
        match spec_filename_from_url(url@) {
            Some(n) => r@ == n,
            None => exists|t: u64| r@ == "download_"@ + strutil::spec_dec(t as nat),
        },
{
    match url_parts(url) {
        Some((_, last)) => {
            match last {
                Some(seg) => {
                    let d = percent_decode(seg.as_str());
                    let ds = d.as_str();
                    if ds.unicode_len() > 0 && !strutil::str_eq(ds, "/") && strutil::contains_char(
                        ds,
                        '.',
                    ) {
                        d
                    } else {
                        timestamp_download_name()
                    }
                },
                None => timestamp_download_name(),
            }
        },
        None => timestamp_download_name(),
    }
}

/// A fallback download name derived from the current time.
pub(crate) fn timestamp_download_name() -> (r: String)
    ensures
        exists|t: u64| r@ == "download_"@ + strutil::spec_dec(t as nat),
{
    let ms = crate::clock::now_millis();
    let secs: u64 = if ms < 0 {
        0
    } else {
        (ms / 1000) as u64
    };
    let mut out = String::from_str("download_");
    let digits = strutil::u64_to_dec(secs);
    out.append(digits.as_str());
    proof {
        assert(out@ == "download_"@ + strutil::spec_dec(secs as nat));
    }
    out
}

} // verus!

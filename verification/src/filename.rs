//! Filename resolution for downloads. The resolution order is: explicit
//! caller-supplied name, then the content-disposition filename, then the
//! URL's percent-decoded last path segment, then a timestamp-based fallback.
//! A name colliding with an existing one gets a numbered suffix before its
//! extension, with a bounded search that can never stall.

use vstd::prelude::*;
use vstd::string::*;
use crate::strutil;
use crate::table::has_key;
use crate::urls;

verus! {

/// The filename carried by a content-disposition header, if a usable one is
/// there: the value after `filename=`, quote-delimited or cut at the next
/// parameter and trimmed; an empty value does not count.
pub open spec fn spec_cd_filename(cd: Seq<char>) -> Option<Seq<char>> {
    match strutil::spec_find_sub(cd, "filename="@) {
        Some(i) => {
            let rest = cd.skip(i + "filename="@.len() as int);
            if rest.len() > 0 && rest[0] == '"' {
                let f = strutil::spec_before_char(rest.skip(1), '"');
                if f.len() > 0 {
                    Some(f)
                } else {
                    None
                }
            } else {
                let f = strutil::spec_trim(strutil::spec_before_char(rest, ';'));
                if f.len() > 0 {
                    Some(f)
                } else {
                    None
                }
            }
        },
        None => None,
    }
}

fn cd_filename(cd: &str) -> (r: Option<String>)
    ensures
        match r {
            Some(f) => spec_cd_filename(cd@) == Some(f@),
            None => spec_cd_filename(cd@) is None,
        },
{
    let needle = "filename=";
    match strutil::find_sub_at(cd, needle) {
        Some(i) => {
            proof {
                strutil::lemma_find_sub_props(cd@, needle@);
            }
            let cdlen = cd.unicode_len();
            let plen = needle.unicode_len();
            let rest = cd.substring_char(i + plen, cdlen);
            proof {
                assert(rest@ =~= cd@.skip(i + needle@.len() as int));
            }
            let restlen = rest.unicode_len();
            if restlen > 0 && rest.get_char(0) == '"' {
                let inner = rest.substring_char(1, restlen);
                proof {
                    assert(inner@ =~= rest@.skip(1));
                }
                let f = strutil::before_char(inner, '"');
                if f.as_str().unicode_len() > 0 {
                    Some(f)
                } else {
                    None
                }
            } else {
                let cut = strutil::before_char(rest, ';');
                let f = strutil::trim(cut.as_str());
                if f.as_str().unicode_len() > 0 {
                    Some(f)
                } else {
                    None
                }
            }
        },
        None => None,
    }
}

/// The filename a URL's last path segment yields for a download: the
/// percent-decoded segment, if non-empty and not a bare slash.
pub open spec fn spec_url_filename(u: Seq<char>) -> Option<Seq<char>> {
    match urls::spec_url_parts(u) {
        Some(p) => match p.1 {
            Some(seg) => {
                let d = urls::spec_percent_decoded(seg);
                if d.len() > 0 && d != "/"@ {
                    Some(d)
                } else {
                    None
                }
            },
            None => None,
        },
        None => None,
    }
}

/// The filename resolved from the header and the URL, when either yields one:
/// the content-disposition name wins over the URL's path segment.
pub open spec fn spec_extracted_filename(u: Seq<char>, cd: Option<Seq<char>>) -> Option<
    Seq<char>,
> {
    match cd {
        Some(c) => match spec_cd_filename(c) {
            Some(f) => Some(f),
            None => spec_url_filename(u),
        },
        None => spec_url_filename(u),
    }
}

/// Resolves the filename for a download from the content-disposition header
/// and the URL, falling back to a fresh timestamp-based name.
pub fn extract_filename(url: &str, content_disposition: Option<&str>) -> (r: String)
    ensures
        match spec_extracted_filename(
            url@,
            match content_disposition {
                Some(c) => Some(c@),
                None => None,
            },
        ) {
            Some(n) => r@ == n,
            None => exists|t: u64| r@ == "download_"@ + strutil::spec_dec(t as nat),
        },
{
    match content_disposition {
        Some(c) => {
            match cd_filename(c) {
                Some(f) => f,
                None => extract_filename_from_url_loose(url),
            }
        },
        None => extract_filename_from_url_loose(url),
    }
}

fn extract_filename_from_url_loose(url: &str) -> (r: String)
    ensures
        match spec_url_filename(url@) {
            Some(n) => r@ == n,
            None => exists|t: u64| r@ == "download_"@ + strutil::spec_dec(t as nat),
        },
{
    match urls::url_parts(url) {
        Some((_, last)) => {
            match last {
                Some(seg) => {
                    let d = urls::percent_decode(seg.as_str());
                    if d.as_str().unicode_len() > 0 && !strutil::str_eq(d.as_str(), "/") {
                        d
                    } else {
                        urls::timestamp_download_name()
                    }
                },
                None => urls::timestamp_download_name(),
            }
        },
        None => urls::timestamp_download_name(),
    }
}

/// The position of the last occurrence of `c` in `s`, as a function.
pub open spec fn spec_rfind(s: Seq<char>, c: char) -> Option<int>
    decreases s.len(),
{
    if s.len() == 0 {
        None
    } else if s.last() == c {
        Some(s.len() - 1)
    } else {
        spec_rfind(s.drop_last(), c)
    }
}

proof fn lemma_rfind_props(s: Seq<char>, c: char)
    ensures
        match spec_rfind(s, c) {
            Some(i) => 0 <= i < s.len() && s[i] == c && forall|j: int| i < j < s.len() ==> s[j]
                != c,
            None => forall|j: int| 0 <= j < s.len() ==> s[j] != c,
        },
    decreases s.len(),
{
    if s.len() == 0 {
    } else if s.last() == c {
    } else {
        lemma_rfind_props(s.drop_last(), c);
        let d = s.drop_last();
        match spec_rfind(d, c) {
            Some(i) => {
                assert(s[i] == d[i]);
                assert forall|j: int| i < j < s.len() implies s[j] != c by {
                    if j < s.len() - 1 {
                        assert(d[j] != c);
                    }
                }
            },
            None => {
                assert forall|j: int| 0 <= j < s.len() implies s[j] != c by {
                    if j < s.len() - 1 {
                        assert(d[j] != c);
                    }
                }
            },
        }
    }
}

/// The stem and (dot-included) extension of a file name: split at the last
/// dot, except that a dot leading the whole name opens no extension.
pub open spec fn spec_split_name(name: Seq<char>) -> (Seq<char>, Seq<char>) {
    match spec_rfind(name, '.') {
        Some(i) => if i >= 1 {
            (name.subrange(0, i), name.subrange(i, name.len() as int))
        } else {
            (name, Seq::<char>::empty())
        },
        None => (name, Seq::<char>::empty()),
    }
}

/// The `i`-th numbered alternative tried for a colliding name.
pub open spec fn spec_candidate(name: Seq<char>, i: nat) -> Seq<char> {
    spec_split_name(name).0 + " ("@ + strutil::spec_dec(i) + ")"@ + spec_split_name(name).1
}

/// The timestamp-suffixed name used when all numbered alternatives collide.
pub open spec fn spec_stamped(name: Seq<char>, t: nat) -> Seq<char> {
    spec_split_name(name).0 + "_"@ + strutil::spec_dec(t) + spec_split_name(name).1
}

/// `out` is the collision-free name chosen for `base` against the given
/// existing names: `base` itself when free; else the first numbered
/// alternative that is free; else, when the first 999 all collide, a
/// timestamp-suffixed name.
pub open spec fn spec_unique_outcome(
    existing: Seq<String>,
    base: Seq<char>,
    out: Seq<char>,
) -> bool {
    &&& (!has_key(existing, base) ==> out == base)
    &&& (has_key(existing, base) ==> {
        ||| (exists|i: nat|
            1 <= i < 1000 && out == spec_candidate(base, i) && !has_key(
                existing,
                spec_candidate(base, i),
            ) && forall|j: nat| 1 <= j < i ==> has_key(existing, spec_candidate(base, j)))
        ||| ((forall|j: nat| 1 <= j < 1000 ==> has_key(existing, spec_candidate(base, j)))
            && exists|t: nat| out == spec_stamped(base, t))
    })
}

fn name_taken(existing: &Vec<String>, n: &str) -> (r: bool)
    ensures
        r == has_key(existing@, n@),
{
    let len = existing.len();
    let mut i: usize = 0;
    while i < len
        invariant
            len == existing@.len(),
            i <= len,
            forall|j: int| 0 <= j < i ==> (#[trigger] existing@[j])@ != n@,
        decreases len - i,
    {
        if strutil::str_eq(existing[i].as_str(), n) {
            proof {
                assert(has_key(existing@, n@));
            }
            return true;
        }
        i += 1;
    }
    false
}

fn build_candidate(stem: &str, ext: &str, i: u64) -> (r: String)
    requires
        i >= 1,
    ensures
        r@ == stem@ + " ("@ + strutil::spec_dec(i as nat) + ")"@ + ext@,
{
    let mut out = stem.to_owned();
    out.append(" (");
    let digits = strutil::u64_to_dec(i);
    out.append(digits.as_str());
    out.append(")");
    out.append(ext);
    proof {
        assert(out@ =~= stem@ + " ("@ + strutil::spec_dec(i as nat) + ")"@ + ext@);
    }
    out
}

/// Picks a name that does not collide with the existing ones: the resolved
/// name itself when free, else ` (1)`, ` (2)`, … before the extension, up to
/// 999 attempts, and then a timestamp suffix — the search never stalls.
pub fn get_unique_filename(existing: &Vec<String>, filename: &str) -> (r: String)
    ensures
        spec_unique_outcome(existing@, filename@, r@),
{
    if !name_taken(existing, filename) {
        return filename.to_owned();
    }
    proof {
        lemma_rfind_props(filename@, '.');
    }
    let flen = filename.unicode_len();
    let dot = strutil::find_last_char(filename, '.');
    let split_at: usize = match dot {
        Some(i) => {
            proof {
                match spec_rfind(filename@, '.') {
                    Some(si) => {
                        if si < i {
                            assert(filename@[i as int] == '.');
                            assert(false);
                        }
                        if (i as int) < si {
                            assert(filename@[si] == '.');
                            assert(false);
                        }
                    },
                    None => {
                        assert(filename@[i as int] == '.');
                        assert(false);
                    },
                }
            }
            if i >= 1 {
                i
            } else {
                flen
            }
        },
        None => {
            proof {
                match spec_rfind(filename@, '.') {
                    Some(si) => {
                        assert(filename@[si] == '.');
                        assert(false);
                    },
                    None => {},
                }
            }
            flen
        },
    };
    let stem = filename.substring_char(0, split_at);
    let ext = filename.substring_char(split_at, flen);
    proof {
        assert(stem@ == spec_split_name(filename@).0 && ext@ == spec_split_name(filename@).1) by {
            match spec_rfind(filename@, '.') {
                Some(si) => {
                    if si >= 1 {
                    } else {
                        assert(filename@.subrange(0, flen as int) =~= filename@);
                        assert(filename@.subrange(flen as int, flen as int) =~= Seq::<
                            char,
                        >::empty());
                    }
                },
                None => {
                    assert(filename@.subrange(0, flen as int) =~= filename@);
                    assert(filename@.subrange(flen as int, flen as int) =~= Seq::<char>::empty());
                },
            }
        }
    }
    let mut i: u64 = 1;
    while i < 1000
        invariant
            1 <= i <= 1000,
            has_key(existing@, filename@),
            stem@ == spec_split_name(filename@).0,
            ext@ == spec_split_name(filename@).1,
            forall|j: nat| 1 <= j < i ==> has_key(existing@, spec_candidate(filename@, j)),
        decreases 1000 - i,
    {
        let cand = build_candidate(stem, ext, i);
        proof {
            assert(cand@ == spec_candidate(filename@, i as nat));
        }
        if !name_taken(existing, cand.as_str()) {
            proof {
                let gi = i as nat;
                assert(1 <= gi < 1000);
                assert(cand@ == spec_candidate(filename@, gi));
                assert(!has_key(existing@, spec_candidate(filename@, gi)));
                assert(forall|j: nat|
                    1 <= j < gi ==> has_key(existing@, spec_candidate(filename@, j)));
            }
            return cand;
        }
        i += 1;
    }
    let ms = crate::clock::now_millis();
    let secs: u64 = if ms < 0 {
        0
    } else {
        (ms / 1000) as u64
    };
    let mut out = stem.to_owned();
    out.append("_");
    let digits = strutil::u64_to_dec(secs);
    out.append(digits.as_str());
    out.append(ext);
    proof {
        assert(out@ =~= spec_stamped(filename@, secs as nat));
    }
    out
}

} // verus!

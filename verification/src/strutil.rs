//! Character-level string helpers used by the store, the title-channel
//! protocol and the filename logic, with exact contracts over `Seq<char>`.

use vstd::prelude::*;
use vstd::string::*;

verus! {

/// True when `p` is a prefix of `s`.
pub open spec fn spec_starts_with(s: Seq<char>, p: Seq<char>) -> bool {
    p.len() <= s.len() && s.subrange(0, p.len() as int) == p
}

/// `p` occurs in `s` at position `i`.
pub open spec fn spec_match_at(s: Seq<char>, p: Seq<char>, i: int) -> bool {
    0 <= i && i + p.len() <= s.len() && s.subrange(i, i + p.len()) == p
}

/// Character-by-character equality of two string slices.
pub fn str_eq(a: &str, b: &str) -> (r: bool)
    ensures
        r == (a@ == b@),
{
    let alen = a.unicode_len();
    let blen = b.unicode_len();
    if alen != blen {
        return false;
    }
    let mut i: usize = 0;
    while i < alen
        invariant
            alen == a@.len(),
            blen == b@.len(),
            alen == blen,
            i <= alen,
            forall|j: int| 0 <= j < i ==> a@[j] == b@[j],
        decreases alen - i,
    {
        if a.get_char(i) != b.get_char(i) {
            return false;
        }
        i += 1;
    }
    proof {
        assert(a@ =~= b@);
    }
    true
}

/// Prefix test with an exact contract.
pub fn str_starts_with(s: &str, p: &str) -> (r: bool)
    ensures
        r == spec_starts_with(s@, p@),
{
    let slen = s.unicode_len();
    let plen = p.unicode_len();
    if plen > slen {
        return false;
    }
    let mut i: usize = 0;
    while i < plen
        invariant
            slen == s@.len(),
            plen == p@.len(),
            plen <= slen,
            i <= plen,
            forall|j: int| 0 <= j < i ==> s@[j] == p@[j],
        decreases plen - i,
    {
        if s.get_char(i) != p.get_char(i) {
            proof {
                assert(s@.subrange(0, p@.len() as int)[i as int] != p@[i as int]);
            }
            return false;
        }
        i += 1;
    }
    proof {
        assert(s@.subrange(0, p@.len() as int) =~= p@);
    }
    true
}

/// Position of the first occurrence of `p` in `s`, if any.
pub fn find_sub(s: &str, p: &str) -> (r: Option<usize>)
    ensures
        match r {
            Some(i) => spec_match_at(s@, p@, i as int) && forall|j: int|
                0 <= j < i ==> !spec_match_at(s@, p@, j),
            None => forall|j: int| !spec_match_at(s@, p@, j),
        },
{
    let slen = s.unicode_len();
    let plen = p.unicode_len();
    if plen > slen {
        return None;
    }
    if plen == 0 {
        proof {
            assert(s@.subrange(0, 0) =~= p@);
        }
        return Some(0);
    }
    let mut i: usize = 0;
    while i <= slen - plen
        invariant
            slen == s@.len(),
            plen == p@.len(),
            0 < plen <= slen,
            i <= slen - plen + 1,
            forall|j: int| 0 <= j < i ==> !spec_match_at(s@, p@, j),
        decreases slen - plen + 1 - i,
    {
        let mut k: usize = 0;
        let mut hit = true;
        while k < plen
            invariant
                slen == s@.len(),
                plen == p@.len(),
                plen <= slen,
                i + plen <= slen,
                k <= plen,
                hit ==> forall|j: int| 0 <= j < k ==> s@[i + j] == p@[j],
                !hit ==> !spec_match_at(s@, p@, i as int),
            decreases plen - k,
        {
            if s.get_char(i + k) != p.get_char(k) {
                proof {
                    if spec_match_at(s@, p@, i as int) {
                        assert(s@.subrange(i as int, i + p@.len())[k as int] == p@[k as int]);
                    }
                }
                hit = false;
                k = plen;
            } else {
                k += 1;
            }
        }
        if hit {
            proof {
                assert(s@.subrange(i as int, i + p@.len()) =~= p@);
            }
            return Some(i);
        }
        i += 1;
    }
    proof {
        assert forall|j: int| !spec_match_at(s@, p@, j) by {
            if 0 <= j && j + p@.len() <= s@.len() {
                assert(j < i);
            }
        }
    }
    None
}

/// Position of the last occurrence of the character `c` in `s`, if any.
pub fn find_last_char(s: &str, c: char) -> (r: Option<usize>)
    ensures
        match r {
            Some(i) => i < s@.len() && s@[i as int] == c && forall|j: int|
                i < j < s@.len() ==> s@[j] != c,
            None => forall|j: int| 0 <= j < s@.len() ==> s@[j] != c,
        },
{
    let slen = s.unicode_len();
    let mut i: usize = slen;
    while i > 0
        invariant
            slen == s@.len(),
            i <= slen,
            forall|j: int| i <= j < slen ==> s@[j] != c,
        decreases i,
    {
        i -= 1;
        if s.get_char(i) == c {
            return Some(i);
        }
    }
    None
}

/// Position of the first occurrence of the character `c` in `s`, if any.
pub fn find_first_char(s: &str, c: char) -> (r: Option<usize>)
    ensures
        match r {
            Some(i) => i < s@.len() && s@[i as int] == c && forall|j: int|
                0 <= j < i ==> s@[j] != c,
            None => forall|j: int| 0 <= j < s@.len() ==> s@[j] != c,
        },
{
    let slen = s.unicode_len();
    let mut i: usize = 0;
    while i < slen
        invariant
            slen == s@.len(),
            i <= slen,
            forall|j: int| 0 <= j < i ==> s@[j] != c,
        decreases slen - i,
    {
        if s.get_char(i) == c {
            return Some(i);
        }
        i += 1;
    }
    None
}

/// Whether `s` contains the character `c`.
pub fn contains_char(s: &str, c: char) -> (r: bool)
    ensures
        r == exists|j: int| 0 <= j < s@.len() && s@[j] == c,
{
    match find_last_char(s, c) {
        Some(_) => true,
        None => false,
    }
}

/// The position of the first occurrence of `p` in `s`, as a function.
pub open spec fn spec_find_sub(s: Seq<char>, p: Seq<char>) -> Option<int>
    decreases s.len(),
{
    if p.len() > s.len() {
        None
    } else if p.len() == 0 {
        Some(0)
    } else if s.subrange(0, p.len() as int) == p {
        Some(0)
    } else {
        match spec_find_sub(s.skip(1), p) {
            Some(i) => Some(i + 1),
            None => None,
        }
    }
}

/// `spec_find_sub` finds exactly the first match position.
pub proof fn lemma_find_sub_props(s: Seq<char>, p: Seq<char>)
    ensures
        match spec_find_sub(s, p) {
            Some(i) => spec_match_at(s, p, i) && forall|j: int| 0 <= j < i ==> !spec_match_at(
                s,
                p,
                j,
            ),
            None => forall|j: int| !spec_match_at(s, p, j),
        },
    decreases s.len(),
{
    if p.len() > s.len() {
        assert forall|j: int| !spec_match_at(s, p, j) by {}
    } else if p.len() == 0 {
        assert(s.subrange(0, 0) =~= p);
    } else if s.subrange(0, p.len() as int) == p {
    } else {
        lemma_find_sub_props(s.skip(1), p);
        match spec_find_sub(s.skip(1), p) {
            Some(i) => {
                assert(spec_match_at(s.skip(1), p, i));
                assert(s.subrange(i + 1, i + 1 + p.len() as int) =~= s.skip(1).subrange(
                    i,
                    i + p.len() as int,
                ));
                assert(spec_match_at(s, p, i + 1));
                assert forall|j: int| 0 <= j < i + 1 implies !spec_match_at(s, p, j) by {
                    if j == 0 {
                        assert(s.subrange(0, p.len() as int) != p);
                    } else {
                        assert(!spec_match_at(s.skip(1), p, j - 1));
                        if spec_match_at(s, p, j) {
                            assert(s.skip(1).subrange(j - 1, j - 1 + p.len() as int) =~= s.subrange(
                                j,
                                j + p.len() as int,
                            ));
                            assert(false);
                        }
                    }
                }
            },
            None => {
                assert forall|j: int| !spec_match_at(s, p, j) by {
                    if 1 <= j && j + p.len() <= s.len() {
                        assert(!spec_match_at(s.skip(1), p, j - 1));
                        if spec_match_at(s, p, j) {
                            assert(s.skip(1).subrange(j - 1, j - 1 + p.len() as int) =~= s.subrange(
                                j,
                                j + p.len() as int,
                            ));
                            assert(false);
                        }
                    }
                }
            },
        }
    }
}

/// First occurrence of `p` in `s`, tied to the spec-level definition.
pub fn find_sub_at(s: &str, p: &str) -> (r: Option<usize>)
    ensures
        match r {
            Some(i) => spec_find_sub(s@, p@) == Some(i as int),
            None => spec_find_sub(s@, p@) is None,
        },
{
    proof {
        lemma_find_sub_props(s@, p@);
    }
    match find_sub(s, p) {
        Some(i) => {
            proof {
                match spec_find_sub(s@, p@) {
                    Some(si) => {
                        if si < i {
                            assert(spec_match_at(s@, p@, si));
                            assert(false);
                        }
                        if i < si {
                            assert(spec_match_at(s@, p@, i as int));
                            assert(false);
                        }
                    },
                    None => {
                        assert(spec_match_at(s@, p@, i as int));
                        assert(false);
                    },
                }
            }
            Some(i)
        },
        None => {
            proof {
                match spec_find_sub(s@, p@) {
                    Some(si) => {
                        assert(spec_match_at(s@, p@, si));
                        assert(false);
                    },
                    None => {},
                }
            }
            None
        },
    }
}

/// The part of `s` before the first occurrence of `c`, or all of `s`.
pub open spec fn spec_before_char(s: Seq<char>, c: char) -> Seq<char> {
    match s.index_of_first(c) {
        Some(i) => s.subrange(0, i),
        None => s,
    }
}

/// Cuts `s` at the first occurrence of `c`.
pub fn before_char(s: &str, c: char) -> (r: String)
    ensures
        r@ == spec_before_char(s@, c),
{
    proof {
        s@.index_of_first_ensures(c);
    }
    let cut: usize = match find_first_char(s, c) {
        Some(i) => {
            proof {
                match s@.index_of_first(c) {
                    Some(si) => {
                        if si < i {
                            assert(s@[si] == c);
                            assert(false);
                        }
                        if (i as int) < si {
                            assert(s@[i as int] == c);
                            assert(false);
                        }
                    },
                    None => {
                        assert(s@[i as int] == c);
                        assert(false);
                    },
                }
            }
            i
        },
        None => {
            proof {
                match s@.index_of_first(c) {
                    Some(si) => {
                        assert(s@[si] == c);
                        assert(false);
                    },
                    None => {},
                }
                assert(spec_before_char(s@, c) =~= s@.subrange(0, s@.len() as int));
            }
            s.unicode_len()
        },
    };
    s.substring_char(0, cut).to_owned()
}

/// An ASCII whitespace character, as trimmed from header values.
pub open spec fn spec_is_space(c: char) -> bool {
    c == ' ' || c == '\t' || c == '\r' || c == '\n'
}

/// `s` without leading whitespace.
pub open spec fn spec_trim_start(s: Seq<char>) -> Seq<char>
    decreases s.len(),
{
    if s.len() > 0 && spec_is_space(s[0]) {
        spec_trim_start(s.skip(1))
    } else {
        s
    }
}

/// `s` without trailing whitespace.
pub open spec fn spec_trim_end(s: Seq<char>) -> Seq<char>
    decreases s.len(),
{
    if s.len() > 0 && spec_is_space(s.last()) {
        spec_trim_end(s.drop_last())
    } else {
        s
    }
}

/// `s` without leading or trailing whitespace.
pub open spec fn spec_trim(s: Seq<char>) -> Seq<char> {
    spec_trim_end(spec_trim_start(s))
}

proof fn lemma_trim_start_at(s: Seq<char>, i: int)
    requires
        0 <= i <= s.len(),
        forall|j: int| 0 <= j < i ==> spec_is_space(s[j]),
        i == s.len() || !spec_is_space(s[i]),
    ensures
        spec_trim_start(s) =~= s.subrange(i, s.len() as int),
    decreases i,
{
    if i == 0 {
        if s.len() > 0 && spec_is_space(s[0]) {
            assert(false);
        }
        assert(s =~= s.subrange(0, s.len() as int));
    } else {
        assert(spec_is_space(s[0]));
        lemma_trim_start_at(s.skip(1), i - 1);
        assert(s.skip(1).subrange(i - 1, s.len() - 1) =~= s.subrange(i, s.len() as int));
    }
}

proof fn lemma_trim_end_at(s: Seq<char>, i: int)
    requires
        0 <= i <= s.len(),
        forall|j: int| i <= j < s.len() ==> spec_is_space(s[j]),
        i == 0 || !spec_is_space(s[i - 1]),
    ensures
        spec_trim_end(s) =~= s.subrange(0, i),
    decreases s.len() - i,
{
    if i == s.len() {
        if s.len() > 0 && spec_is_space(s.last()) {
            assert(false);
        }
        assert(s =~= s.subrange(0, s.len() as int));
    } else {
        assert(spec_is_space(s.last()));
        lemma_trim_end_at(s.drop_last(), i);
        assert(s.drop_last().subrange(0, i) =~= s.subrange(0, i));
    }
}

fn is_space(c: char) -> (r: bool)
    ensures
        r == spec_is_space(c),
{
    c == ' ' || c == '\t' || c == '\r' || c == '\n'
}

/// Strips leading and trailing whitespace.
pub fn trim(s: &str) -> (r: String)
    ensures
        r@ == spec_trim(s@),
{
    let slen = s.unicode_len();
    let mut a: usize = 0;
    while a < slen && is_space(s.get_char(a))
        invariant
            slen == s@.len(),
            a <= slen,
            forall|j: int| 0 <= j < a ==> spec_is_space(s@[j]),
        decreases slen - a,
    {
        a += 1;
    }
    let mut b: usize = slen;
    while b > a && is_space(s.get_char(b - 1))
        invariant
            slen == s@.len(),
            a <= b <= slen,
            forall|j: int| 0 <= j < a ==> spec_is_space(s@[j]),
            forall|j: int| b <= j < slen ==> spec_is_space(s@[j]),
        decreases b,
    {
        b -= 1;
    }
    proof {
        lemma_trim_start_at(s@, a as int);
        let t = s@.subrange(a as int, slen as int);
        if b == a {
            lemma_trim_end_at(t, 0);
        } else {
            lemma_trim_end_at(t, b - a);
        }
        assert(t.subrange(0, b - a) =~= s@.subrange(a as int, b as int));
    }
    s.substring_char(a, b).to_owned()
}

/// The character standing for a single decimal digit.
pub open spec fn spec_digit_char(d: nat) -> char {
    if d == 0 {
        '0'
    } else if d == 1 {
        '1'
    } else if d == 2 {
        '2'
    } else if d == 3 {
        '3'
    } else if d == 4 {
        '4'
    } else if d == 5 {
        '5'
    } else if d == 6 {
        '6'
    } else if d == 7 {
        '7'
    } else if d == 8 {
        '8'
    } else {
        '9'
    }
}

/// Decimal representation of a natural number, most significant digit first.
pub open spec fn spec_dec(n: nat) -> Seq<char>
    decreases n,
{
    if n < 10 {
        seq![spec_digit_char(n)]
    } else {
        spec_dec(n / 10) + seq![spec_digit_char(n % 10)]
    }
}

fn digit_str(d: u64) -> (r: &'static str)
    requires
        d < 10,
    ensures
        r@ =~= seq![spec_digit_char(d as nat)],
{
    proof {
        reveal_strlit("0");
        reveal_strlit("1");
        reveal_strlit("2");
        reveal_strlit("3");
        reveal_strlit("4");
        reveal_strlit("5");
        reveal_strlit("6");
        reveal_strlit("7");
        reveal_strlit("8");
        reveal_strlit("9");
    }
    match d {
        0 => "0",
        1 => "1",
        2 => "2",
        3 => "3",
        4 => "4",
        5 => "5",
        6 => "6",
        7 => "7",
        8 => "8",
        _ => "9",
    }
}

/// Renders a number in decimal.
pub fn u64_to_dec(n: u64) -> (r: String)
    ensures
        r@ == spec_dec(n as nat),
    decreases n,
{
    if n < 10 {
        String::from_str(digit_str(n))
    } else {
        let mut s = u64_to_dec(n / 10);
        s.append(digit_str(n % 10));
        s
    }
}

} // verus!

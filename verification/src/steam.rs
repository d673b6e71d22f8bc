//! Extraction of a `steam://connect` link from free-form server connect info.
//!
//! Accepted shapes include `connect 1.1.1.1:27015`, `1.1.1.1:27015`,
//! `connect 1.1.1.1:27015; password 1234` and `1.1.1.1:27015; password mypass`.

use vstd::prelude::*;
use vstd::string::*;
use crate::text::{is_digit, is_ws};

verus! {

/// First index at or after `i` that does not hold a digit.
pub open spec fn skip_digits(c: Seq<char>, i: int) -> int
    decreases c.len() - i,
{
    if 0 <= i < c.len() && is_digit(c[i]) {
        skip_digits(c, i + 1)
    } else {
        i
    }
}

/// Scans an `a.b.c.d:port` candidate that starts at `i`, having seen `dots`
/// dots so far. Gives the index where the scan stopped, the number of dots
/// seen, and whether a port separator was consumed.
pub open spec fn scan_ip(c: Seq<char>, i: int, dots: int) -> (int, int, bool)
    decreases c.len() - i,
{
    if !(0 <= i < c.len()) {
        (i, dots, false)
    } else if is_digit(c[i]) {
        scan_ip(c, i + 1, dots)
    } else if c[i] == '.' {
        scan_ip(c, i + 1, dots + 1)
    } else if c[i] == ':' && dots == 3 {
        (skip_digits(c, i + 1), dots, true)
    } else {
        (i, dots, false)
    }
}

pub proof fn lemma_skip_digits_ge(c: Seq<char>, i: int)
    ensures
        skip_digits(c, i) >= i,
        0 <= i <= c.len() ==> skip_digits(c, i) <= c.len(),
    decreases c.len() - i,
{
    if 0 <= i < c.len() && is_digit(c[i]) {
        lemma_skip_digits_ge(c, i + 1);
    }
}

pub proof fn lemma_scan_ip_ge(c: Seq<char>, i: int, dots: int)
    ensures
        scan_ip(c, i, dots).0 >= i,
        0 <= i <= c.len() ==> scan_ip(c, i, dots).0 <= c.len(),
    decreases c.len() - i,
{
    if !(0 <= i < c.len()) {
    } else if is_digit(c[i]) {
        lemma_scan_ip_ge(c, i + 1, dots);
    } else if c[i] == '.' {
        lemma_scan_ip_ge(c, i + 1, dots + 1);
    } else if c[i] == ':' && dots == 3 {
        lemma_skip_digits_ge(c, i + 1);
    }
}

/// The first `a.b.c.d:port` span (start, end) found scanning from `i`,
/// where a failed candidate resumes one past the character that stopped it.
pub open spec fn find_ip(c: Seq<char>, i: int) -> Option<(int, int)>
    decreases c.len() + 1 - i,
    via find_ip_decreases
{
    if !(0 <= i < c.len()) {
        None
    } else if is_digit(c[i]) {
        let r = scan_ip(c, i, 0);
        if r.1 == 3 && r.2 {
            Some((i, r.0))
        } else {
            find_ip(c, r.0 + 1)
        }
    } else {
        find_ip(c, i + 1)
    }
}

#[via_fn]
proof fn find_ip_decreases(c: Seq<char>, i: int) {
    lemma_scan_ip_ge(c, i, 0);
}

/// ASCII lower-casing of one character.
pub open spec fn to_lower(x: char) -> char {
    if 'A' <= x && x <= 'Z' {
        ((x as int) + 32) as char
    } else {
        x
    }
}

/// The keyword that introduces a password.
pub open spec fn password_word() -> Seq<char> {
    seq!['p', 'a', 's', 's', 'w', 'o', 'r', 'd']
}

/// Whether `password_word()` occurs, case-insensitively, at index `k`.
pub open spec fn password_at(c: Seq<char>, k: int) -> bool {
    0 <= k && k + 8 <= c.len() && forall|j: int| 0 <= j < 8 ==> #[trigger] to_lower(c[k + j]) == password_word()[j]
}

/// The first index at or after `k` where the password keyword occurs.
pub open spec fn find_password(c: Seq<char>, k: int) -> Option<int>
    decreases c.len() - k,
{
    if k < 0 || k + 8 > c.len() {
        None
    } else if password_at(c, k) {
        Some(k)
    } else {
        find_password(c, k + 1)
    }
}

/// First index at or after `i` that is not (Unicode) whitespace.
pub open spec fn skip_ws(c: Seq<char>, i: int) -> int
    decreases c.len() - i,
{
    if 0 <= i < c.len() && is_ws(c[i]) {
        skip_ws(c, i + 1)
    } else {
        i
    }
}

/// Whether `x` ends the password value.
pub open spec fn is_pw_sep(x: char) -> bool {
    x == ';' || x == '\n' || x == '\r'
}

/// First index at or after `i` holding a password separator, or the length.
pub open spec fn find_sep(c: Seq<char>, i: int) -> int
    decreases c.len() - i,
{
    if 0 <= i < c.len() && !is_pw_sep(c[i]) {
        find_sep(c, i + 1)
    } else {
        i
    }
}

/// End of `c[lo..hi]` once trailing whitespace is trimmed.
pub open spec fn trim_back(c: Seq<char>, lo: int, hi: int) -> int
    decreases hi - lo,
{
    if lo < hi && is_ws(c[hi - 1]) {
        trim_back(c, lo, hi - 1)
    } else {
        hi
    }
}

/// The password given in connect info: the text after the first
/// case-insensitive `password`, trimmed, up to the first `;`, line feed or
/// carriage return, if that text is not empty.
pub open spec fn spec_password(c: Seq<char>) -> Option<Seq<char>> {
    match find_password(c, 0) {
        None => None,
        Some(k) => {
            let a = skip_ws(c, k + 8);
            let b = find_sep(c, a);
            let e = trim_back(c, a, b);
            if a < e {
                Some(c.subrange(a, e))
            } else {
                None
            }
        },
    }
}

/// The link prefix.
pub open spec fn steam_prefix() -> Seq<char> {
    seq!['s', 't', 'e', 'a', 'm', ':', '/', '/', 'c', 'o', 'n', 'n', 'e', 'c', 't', '/']
}

/// The steam link for the connect info `c`, if it holds an `a.b.c.d:port`.
pub open spec fn spec_steam_link(c: Seq<char>) -> Option<Seq<char>> {
    match find_ip(c, 0) {
        None => None,
        Some((s, e)) => {
            let base = steam_prefix() + c.subrange(s, e);
            match spec_password(c) {
                Some(p) => Some(base + seq!['/'] + p),
                None => Some(base),
            }
        },
    }
}

fn chars_of(s: &str) -> (v: Vec<char>)
    ensures
        v@ == s@,
{
    let n = s.unicode_len();
    let mut v: Vec<char> = Vec::new();
    let mut i: usize = 0;
    while i < n
        invariant
            n == s@.len(),
            i <= n,
            v@ == s@.subrange(0, i as int),
        decreases n - i,
    {
        v.push(s.get_char(i));
        i = i + 1;
        assert(v@ =~= s@.subrange(0, i as int));
    }
    assert(v@ =~= s@);
    v
}

fn char_is_digit(x: char) -> (r: bool)
    ensures
        r == is_digit(x),
{
    '0' <= x && x <= '9'
}

fn char_is_ws(x: char) -> (r: bool)
    ensures
        r == is_ws(x),
{
    ('\t' <= x && x <= '\r') || x == ' ' || x == '\u{85}' || x == '\u{A0}' || x == '\u{1680}'
        || ('\u{2000}' <= x && x <= '\u{200A}') || x == '\u{2028}' || x == '\u{2029}'
        || x == '\u{202F}' || x == '\u{205F}' || x == '\u{3000}'
}

/// Whether `x` lower-cases to the `j`-th letter of the password keyword.
fn matches_pw_char(x: char, j: usize) -> (r: bool)
    requires
        j < 8,
    ensures
        r == (to_lower(x) == password_word()[j as int]),
{
    let (lo, up) = if j == 0 {
        ('p', 'P')
    } else if j == 1 {
        ('a', 'A')
    } else if j == 2 || j == 3 {
        ('s', 'S')
    } else if j == 4 {
        ('w', 'W')
    } else if j == 5 {
        ('o', 'O')
    } else if j == 6 {
        ('r', 'R')
    } else {
        ('d', 'D')
    };
    x == lo || x == up
}

fn scan_ip_exec(c: &Vec<char>, start: usize) -> (r: (usize, usize, bool))
    requires
        start <= c@.len(),
    ensures
        r.0 as int == scan_ip(c@, start as int, 0).0,
        r.1 as int == scan_ip(c@, start as int, 0).1,
        r.2 == scan_ip(c@, start as int, 0).2,
        start <= r.0 <= c@.len(),
{
    let n = c.len();
    let mut i = start;
    let mut dots: usize = 0;
    while i < n
        invariant
            n == c@.len(),
            start <= i <= n,
            dots <= i - start,
            scan_ip(c@, start as int, 0) == scan_ip(c@, i as int, dots as int),
        decreases n - i,
    {
        let x = c[i];
        if char_is_digit(x) {
            i = i + 1;
        } else if x == '.' {
            dots = dots + 1;
            i = i + 1;
        } else if x == ':' && dots == 3 {
            let mut j = i + 1;
            while j < n && char_is_digit(c[j])
                invariant
                    n == c@.len(),
                    i < j <= n,
                    skip_digits(c@, i + 1) == skip_digits(c@, j as int),
                decreases n - j,
            {
                j = j + 1;
            }
            return (j, dots, true);
        } else {
            return (i, dots, false);
        }
    }
    (i, dots, false)
}

fn find_ip_exec(c: &Vec<char>) -> (r: Option<(usize, usize)>)
    ensures
        match find_ip(c@, 0) {
            None => r.is_none(),
            Some((s, e)) => r == Some((s as usize, e as usize)) && 0 <= s <= e <= c@.len(),
        },
{
    let n = c.len();
    let mut i: usize = 0;
    while i < n
        invariant
            n == c@.len(),
            i <= n + 1,
            find_ip(c@, 0) == find_ip(c@, i as int),
        decreases n + 1 - i,
    {
        if char_is_digit(c[i]) {
            let (e, dots, port) = scan_ip_exec(c, i);
            if dots == 3 && port {
                return Some((i, e));
            }
            if e >= n {
                assert(find_ip(c@, e as int + 1) is None);
                return None;
            }
            i = e + 1;
        } else {
            i = i + 1;
        }
    }
    None
}

fn find_password_exec(c: &Vec<char>) -> (r: Option<usize>)
    ensures
        match find_password(c@, 0) {
            None => r.is_none(),
            Some(k) => r == Some(k as usize) && 0 <= k && k + 8 <= c@.len(),
        },
{
    let n = c.len();
    if n < 8 {
        return None;
    }
    let mut k: usize = 0;
    while k <= n - 8
        invariant
            n == c@.len(),
            8 <= n,
            k + 8 <= n + 1,
            find_password(c@, 0) == find_password(c@, k as int),
        decreases n + 1 - k,
    {
        let mut j: usize = 0;
        let mut ok = true;
        while j < 8
            invariant
                n == c@.len(),
                k + 8 <= n,
                j <= 8,
                ok == (forall|t: int| 0 <= t < j ==> #[trigger] to_lower(c@[k + t]) == password_word()[t]),
            decreases 8 - j,
        {
            if !matches_pw_char(c[k + j], j) {
                ok = false;
            }
            j = j + 1;
        }
        if ok {
            return Some(k);
        }
        k = k + 1;
    }
    None
}

/// Builds a `steam://connect/IP:PORT[/PASSWORD]` link from connect info.
///
/// The first `a.b.c.d:port` run found is the address (three dots, then a
/// colon, then the port digits). The password is the text after the first
/// case-insensitive `password`, trimmed, up to the first `;`, line feed or
/// carriage return; it is left out when empty. Gives `None` when no address
/// is found. The text is read character by character, whatever characters
/// it holds; whitespace is Unicode whitespace, as `str::trim` has it, and
/// only ASCII letters lower-case to the letters of `password`.
pub fn extract_steam_link(connect_info: &str) -> (r: Option<String>)
    ensures
        match spec_steam_link(connect_info@) {
            None => r.is_none(),
            Some(l) => r.is_some() && r.unwrap()@ == l,
        },
{
    let c = chars_of(connect_info);
    let n = c.len();
    let ip = find_ip_exec(&c);
    let (s, e) = match ip {
        None => {
            return None;
        },
        Some(p) => p,
    };
    let mut link = String::from_str("steam://connect/");
    proof {
        reveal_strlit("steam://connect/");
        assert("steam://connect/"@ =~= steam_prefix());
    }
    link.append(connect_info.substring_char(s, e));
    let ghost base = link@;
    assert(base =~= steam_prefix() + c@.subrange(s as int, e as int));
    match find_password_exec(&c) {
        None => {
            return Some(link);
        },
        Some(k) => {
            let mut a = k + 8;
            while a < n && char_is_ws(c[a])
                invariant
                    n == c@.len(),
                    k + 8 <= a <= n,
                    skip_ws(c@, k + 8) == skip_ws(c@, a as int),
                decreases n - a,
            {
                a = a + 1;
            }
            let mut b = a;
            while b < n && !(c[b] == ';' || c[b] == '\n' || c[b] == '\r')
                invariant
                    n == c@.len(),
                    a <= b <= n,
                    find_sep(c@, a as int) == find_sep(c@, b as int),
                decreases n - b,
            {
                b = b + 1;
            }
            let mut t = b;
            while a < t && char_is_ws(c[t - 1])
                invariant
                    n == c@.len(),
                    a <= t <= b <= n,
                    trim_back(c@, a as int, b as int) == trim_back(c@, a as int, t as int),
                decreases t - a,
            {
                t = t - 1;
            }
            if a < t {
                proof {
                    reveal_strlit("/");
                }
                link.append("/");
                link.append(connect_info.substring_char(a, t));
                assert(link@ =~= base + seq!['/'] + c@.subrange(a as int, t as int));
            }
            Some(link)
        },
    }
}

} // verus!

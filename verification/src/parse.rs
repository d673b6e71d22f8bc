//! Parsing of custom ids: splitting on a separator and reading small
//! unsigned numbers as `str::parse` does.

use vstd::prelude::*;
use vstd::string::*;
use crate::text::is_digit;

verus! {

/// Value of the decimal digit `c`.
pub open spec fn digit_val(c: char) -> nat {
    ((c as int) - ('0' as int)) as nat
}

/// Whether every character of `s` is a decimal digit.
pub open spec fn all_digits(s: Seq<char>) -> bool {
    forall|i: int| 0 <= i < s.len() ==> is_digit(#[trigger] s[i])
}

/// Value of a run of decimal digits.
pub open spec fn digits_value(s: Seq<char>) -> nat
    decreases s.len(),
{
    if s.len() == 0 {
        0
    } else {
        digits_value(s.drop_last()) * 10 + digit_val(s.last())
    }
}

/// The unsigned number `str::parse` reads from `s`: an optional `+`, then
/// at least one decimal digit.
pub open spec fn parse_unsigned(s: Seq<char>) -> Option<nat> {
    let d = if s.len() > 0 && s[0] == '+' { s.drop_first() } else { s };
    if d.len() > 0 && all_digits(d) {
        Some(digits_value(d))
    } else {
        None
    }
}

/// What `s.parse::<u8>()` gives, as an option.
pub open spec fn parse_u8_spec(s: Seq<char>) -> Option<u8> {
    match parse_unsigned(s) {
        Some(v) => if v <= 255 { Some(v as u8) } else { None },
        None => None,
    }
}

/// What `u64::from_str_radix(s, 16)` gives, as an option: an optional `+`,
/// then at least one hexadecimal digit, the value fitting in 64 bits.
pub open spec fn parse_hex_spec(s: Seq<char>) -> Option<u64> {
    let d = if s.len() > 0 && s[0] == '+' { s.drop_first() } else { s };
    if d.len() > 0 && all_hex(d) && hex_value(d) <= u64::MAX {
        Some(hex_value(d) as u64)
    } else {
        None
    }
}

/// Whether `c` is a hexadecimal digit (either case).
pub open spec fn is_hex(c: char) -> bool {
    is_digit(c) || ('a' <= c && c <= 'f') || ('A' <= c && c <= 'F')
}

/// Value of the hexadecimal digit `c`.
pub open spec fn hex_val(c: char) -> nat {
    if is_digit(c) {
        digit_val(c)
    } else if 'a' <= c && c <= 'f' {
        ((c as int) - ('a' as int) + 10) as nat
    } else {
        ((c as int) - ('A' as int) + 10) as nat
    }
}

/// Whether every character of `s` is a hexadecimal digit.
pub open spec fn all_hex(s: Seq<char>) -> bool {
    forall|i: int| 0 <= i < s.len() ==> is_hex(#[trigger] s[i])
}

/// Value of a run of hexadecimal digits.
pub open spec fn hex_value(s: Seq<char>) -> nat
    decreases s.len(),
{
    if s.len() == 0 {
        0
    } else {
        hex_value(s.drop_last()) * 16 + hex_val(s.last())
    }
}

/// Index of the first `sep` at or after `i`, or the length.
pub open spec fn next_sep(s: Seq<char>, sep: char, i: int) -> int
    decreases s.len() - i,
{
    if 0 <= i < s.len() && s[i] != sep {
        next_sep(s, sep, i + 1)
    } else {
        i
    }
}

/// The fields of `s[i..]` separated by `sep`, as `str::split` gives them.
pub open spec fn split_from(s: Seq<char>, sep: char, i: int) -> Seq<Seq<char>>
    decreases s.len() - i,
{
    let e = next_sep(s, sep, i);
    if 0 <= i && e < s.len() && i <= e {
        seq![s.subrange(i, e)] + split_from(s, sep, e + 1)
    } else {
        seq![s.subrange(i, s.len() as int)]
    }
}

/// The fields of `s` separated by `sep`, as `str::split` gives them.
pub open spec fn split_spec(s: Seq<char>, sep: char) -> Seq<Seq<char>> {
    split_from(s, sep, 0)
}

proof fn lemma_next_sep(s: Seq<char>, sep: char, i: int)
    requires
        0 <= i <= s.len(),
    ensures
        i <= next_sep(s, sep, i) <= s.len(),
        next_sep(s, sep, i) < s.len() ==> s[next_sep(s, sep, i)] == sep,
    decreases s.len() - i,
{
    if i < s.len() && s[i] != sep {
        lemma_next_sep(s, sep, i + 1);
    }
}

/// Splits `s` on `sep` into its fields, as `str::split` does.
pub fn split_on(s: &str, sep: char) -> (r: Vec<String>)
    ensures
        r@.map_values(|x: String| x@) == split_spec(s@, sep),
{
    let n = s.unicode_len();
    let mut out: Vec<String> = Vec::new();
    let mut start: usize = 0;
    let mut i: usize = 0;
    while i < n
        invariant
            n == s@.len(),
            start <= i <= n,
            next_sep(s@, sep, start as int) == next_sep(s@, sep, i as int),
            split_spec(s@, sep) == out@.map_values(|x: String| x@) + split_from(s@, sep, start as int),
        decreases n - i,
    {
        if s.get_char(i) == sep {
            proof {
                lemma_next_sep(s@, sep, start as int);
            }
            let piece = String::from_str(s.substring_char(start, i));
            let ghost before = out@.map_values(|x: String| x@);
            out.push(piece);
            proof {
                assert(out@.map_values(|x: String| x@) =~= before.push(s@.subrange(start as int, i as int)));
                assert(split_from(s@, sep, start as int) == seq![s@.subrange(start as int, i as int)] + split_from(s@, sep, i + 1));
                assert(before + split_from(s@, sep, start as int) =~= before.push(s@.subrange(start as int, i as int)) + split_from(s@, sep, i + 1));
            }
            start = i + 1;
        }
        i = i + 1;
    }
    proof {
        lemma_next_sep(s@, sep, start as int);
        assert(split_from(s@, sep, start as int) == seq![s@.subrange(start as int, n as int)]);
    }
    let ghost before = out@.map_values(|x: String| x@);
    out.push(String::from_str(s.substring_char(start, n)));
    assert(out@.map_values(|x: String| x@) =~= before.push(s@.subrange(start as int, n as int)));
    out
}

proof fn lemma_digits_value_push(s: Seq<char>, c: char)
    ensures
        digits_value(s.push(c)) == digits_value(s) * 10 + digit_val(c),
{
    assert(s.push(c).drop_last() =~= s);
}

/// Reads an unsigned number of at most `max` from `s` as `str::parse` does.
fn parse_bounded(s: &str, max: u64) -> (r: Option<u64>)
    requires
        max < 0x1_0000_0000,
    ensures
        match parse_unsigned(s@) {
            Some(v) => if v <= max { r == Some(v as u64) } else { r is None },
            None => r is None,
        },
{
    let n = s.unicode_len();
    let mut i: usize = 0;
    if n > 0 && s.get_char(0) == '+' {
        i = 1;
    }
    let ghost d = if s@.len() > 0 && s@[0] == '+' { s@.drop_first() } else { s@ };
    assert(d =~= s@.subrange(i as int, n as int));
    if i >= n {
        return None;
    }
    let start = i;
    let mut v: u64 = 0;
    let mut over = false;
    while i < n
        invariant
            n == s@.len(),
            start < n,
            max < 0x1_0000_0000,
            d == (if s@.len() > 0 && s@[0] == '+' { s@.drop_first() } else { s@ }),
            d == s@.subrange(start as int, n as int),
            start <= i <= n,
            all_digits(s@.subrange(start as int, i as int)),
            !over ==> v as nat == digits_value(s@.subrange(start as int, i as int)),
            over ==> digits_value(s@.subrange(start as int, i as int)) > max,
            v <= max,
        decreases n - i,
    {
        let c = s.get_char(i);
        if !('0' <= c && c <= '9') {
            assert(!is_digit(d[i - start]));
            assert(!all_digits(d));
            return None;
        }
        let ghost prev = s@.subrange(start as int, i as int);
        assert(s@.subrange(start as int, i as int + 1) =~= prev.push(c));
        proof {
            lemma_digits_value_push(prev, c);
        }
        let dv: u64 = (c as u32 - '0' as u32) as u64;
        assert(dv == digit_val(c));
        assert(v * 10 <= 0x1_0000_0000 * 10) by (nonlinear_arith)
            requires v <= max, max < 0x1_0000_0000;
        if over {
            assert(digits_value(prev) * 10 + digit_val(c) > max) by (nonlinear_arith)
                requires digits_value(prev) > max;
        } else if v * 10 + dv > max {
            over = true;
        } else {
            v = v * 10 + dv;
        }
        i = i + 1;
    }
    if over {
        None
    } else {
        Some(v)
    }
}

/// What `s.parse::<u8>()` gives, as an option.
pub fn parse_u8(s: &str) -> (r: Option<u8>)
    ensures
        r == parse_u8_spec(s@),
{
    match parse_bounded(s, 255) {
        Some(v) => Some(v as u8),
        None => None,
    }
}

/// What `s.parse::<u16>()` gives, as an option.
pub open spec fn parse_u16_spec(s: Seq<char>) -> Option<u16> {
    match parse_unsigned(s) {
        Some(v) => if v <= 65535 { Some(v as u16) } else { None },
        None => None,
    }
}

/// What `s.parse::<u16>()` gives, as an option.
pub fn parse_u16(s: &str) -> (r: Option<u16>)
    ensures
        r == parse_u16_spec(s@),
{
    match parse_bounded(s, 65535) {
        Some(v) => Some(v as u16),
        None => None,
    }
}

/// What `s.parse::<u64>()` gives, as an option.
pub open spec fn parse_u64_spec(s: Seq<char>) -> Option<u64> {
    match parse_unsigned(s) {
        Some(v) => if v <= u64::MAX { Some(v as u64) } else { None },
        None => None,
    }
}

/// What `s.parse::<u64>()` gives, as an option.
pub fn parse_u64(s: &str) -> (r: Option<u64>)
    ensures
        r == parse_u64_spec(s@),
{
    let n = s.unicode_len();
    let mut i: usize = 0;
    if n > 0 && s.get_char(0) == '+' {
        i = 1;
    }
    let ghost d = if s@.len() > 0 && s@[0] == '+' { s@.drop_first() } else { s@ };
    assert(d =~= s@.subrange(i as int, n as int));
    if i >= n {
        return None;
    }
    let start = i;
    let mut v: u64 = 0;
    let mut over = false;
    while i < n
        invariant
            n == s@.len(),
            start < n,
            d == (if s@.len() > 0 && s@[0] == '+' { s@.drop_first() } else { s@ }),
            d == s@.subrange(start as int, n as int),
            start <= i <= n,
            all_digits(s@.subrange(start as int, i as int)),
            !over ==> v as nat == digits_value(s@.subrange(start as int, i as int)),
            over ==> digits_value(s@.subrange(start as int, i as int)) > u64::MAX,
        decreases n - i,
    {
        let c = s.get_char(i);
        if !('0' <= c && c <= '9') {
            assert(!is_digit(d[i - start]));
            assert(!all_digits(d));
            return None;
        }
        let ghost prev = s@.subrange(start as int, i as int);
        assert(s@.subrange(start as int, i as int + 1) =~= prev.push(c));
        proof {
            lemma_digits_value_push(prev, c);
        }
        let dv: u64 = (c as u32 - '0' as u32) as u64;
        assert(dv == digit_val(c));
        if over {
            assert(digits_value(prev) * 10 + digit_val(c) > u64::MAX) by (nonlinear_arith)
                requires digits_value(prev) > u64::MAX;
        } else {
            let next: u128 = (v as u128) * 10 + (dv as u128);
            if next > 0xffff_ffff_ffff_ffffu128 {
                over = true;
            } else {
                v = next as u64;
            }
        }
        i = i + 1;
    }
    if over {
        None
    } else {
        Some(v)
    }
}

/// Whether `p` holds no `sep`.
pub open spec fn no_sep(p: Seq<char>, sep: char) -> bool {
    forall|k: int| 0 <= k < p.len() ==> #[trigger] p[k] != sep
}

/// The fields `ps` joined by `sep`.
pub open spec fn join_spec(ps: Seq<Seq<char>>, sep: char) -> Seq<char>
    decreases ps.len(),
{
    if ps.len() == 0 {
        Seq::empty()
    } else if ps.len() == 1 {
        ps[0]
    } else {
        ps[0] + seq![sep] + join_spec(ps.drop_first(), sep)
    }
}

proof fn lemma_next_sep_at(s: Seq<char>, sep: char, i: int, e: int)
    requires
        0 <= i <= e <= s.len(),
        forall|k: int| i <= k < e ==> #[trigger] s[k] != sep,
        e < s.len() ==> s[e] == sep,
    ensures
        next_sep(s, sep, i) == e,
    decreases e - i,
{
    if i < e {
        lemma_next_sep_at(s, sep, i + 1, e);
    }
}

proof fn lemma_next_sep_shift(pre: Seq<char>, t: Seq<char>, sep: char, j: int)
    requires
        0 <= j <= t.len(),
    ensures
        next_sep(pre + t, sep, pre.len() + j) == pre.len() + next_sep(t, sep, j),
    decreases t.len() - j,
{
    let s = pre + t;
    if j < t.len() {
        assert(s[pre.len() + j] == t[j]);
        if t[j] != sep {
            lemma_next_sep_shift(pre, t, sep, j + 1);
        }
    }
}

proof fn lemma_split_shift(pre: Seq<char>, t: Seq<char>, sep: char, j: int)
    requires
        0 <= j <= t.len(),
    ensures
        split_from(pre + t, sep, pre.len() + j) == split_from(t, sep, j),
    decreases t.len() - j,
{
    let s = pre + t;
    let n = pre.len() as int;
    lemma_next_sep_shift(pre, t, sep, j);
    lemma_next_sep(t, sep, j);
    let e = next_sep(t, sep, j);
    if e < t.len() {
        assert(s.subrange(n + j, n + e) =~= t.subrange(j, e));
        lemma_split_shift(pre, t, sep, e + 1);
    } else {
        assert(s.subrange(n + j, s.len() as int) =~= t.subrange(j, t.len() as int));
    }
}

/// Splitting fields joined by `sep` gives the fields back, when none holds
/// `sep`.
pub proof fn lemma_split_join(ps: Seq<Seq<char>>, sep: char)
    requires
        ps.len() >= 1,
        forall|k: int| 0 <= k < ps.len() ==> no_sep(#[trigger] ps[k], sep),
    ensures
        split_spec(join_spec(ps, sep), sep) == ps,
    decreases ps.len(),
{
    let p0 = ps[0];
    assert(no_sep(p0, sep));
    if ps.len() == 1 {
        lemma_next_sep_at(p0, sep, 0, p0.len() as int);
        assert(p0.subrange(0, p0.len() as int) =~= p0);
        assert(split_spec(p0, sep) =~= seq![p0]);
    } else {
        let rest = ps.drop_first();
        assert forall|k: int| 0 <= k < rest.len() implies no_sep(#[trigger] rest[k], sep) by {
            assert(rest[k] == ps[k + 1]);
        }
        lemma_split_join(rest, sep);
        let pre = p0 + seq![sep];
        let j = join_spec(rest, sep);
        let s = join_spec(ps, sep);
        assert(s == pre + j);
        assert forall|k: int| 0 <= k < p0.len() implies #[trigger] s[k] != sep by {
            assert(s[k] == p0[k]);
        }
        assert(s[p0.len() as int] == sep);
        lemma_next_sep_at(s, sep, 0, p0.len() as int);
        assert(s.subrange(0, p0.len() as int) =~= p0);
        lemma_split_shift(pre, j, sep, 0);
        assert(split_from(s, sep, 0) == seq![p0] + split_from(s, sep, p0.len() as int + 1));
        assert(seq![p0] + rest =~= ps);
    }
}

/// `str::split` always gives at least one field.
pub proof fn lemma_split_nonempty(s: Seq<char>, sep: char, i: int)
    ensures
        split_from(s, sep, i).len() >= 1,
    decreases s.len() - i,
{
    let e = next_sep(s, sep, i);
    if 0 <= i && e < s.len() && i <= e {
        if 0 <= i <= s.len() {
            lemma_next_sep(s, sep, i);
        }
        lemma_split_nonempty(s, sep, e + 1);
    }
}

} // verus!

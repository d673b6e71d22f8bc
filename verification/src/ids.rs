//! Discord ids written in hexadecimal inside custom ids: rendering with
//! `{:x}` and reading back as `u64::from_str_radix(.., 16)` does.

use vstd::prelude::*;
use vstd::string::*;
use crate::parse::{is_hex, hex_val, all_hex, hex_value};
use crate::text::is_digit;

verus! {

/// Why a number could not be read (the kinds of `std::num::IntErrorKind`
/// that reading an unsigned number can give).
#[derive(Debug, Clone, Copy, PartialEq, Eq, Structural)]
pub enum IntErrorKind {
    /// The text is empty
    Empty,
    /// A character is not a digit of the radix
    InvalidDigit,
    /// The value does not fit in 64 bits
    PosOverflow,
    /// The value is zero where an id, which is never zero, is wanted
    Zero,
}

/// Reading `s[i..]` as hexadecimal digits, left to right, onto `acc`; the
/// first bad digit or the first overflow decides the error.
pub open spec fn hex_scan(s: Seq<char>, i: int, acc: nat) -> Result<nat, IntErrorKind>
    decreases s.len() - i,
{
    if i < 0 || i >= s.len() {
        Ok(acc)
    } else if !is_hex(s[i]) {
        Err(IntErrorKind::InvalidDigit)
    } else if acc * 16 + hex_val(s[i]) > u64::MAX {
        Err(IntErrorKind::PosOverflow)
    } else {
        hex_scan(s, i + 1, acc * 16 + hex_val(s[i]))
    }
}

/// What `u64::from_str_radix(s, 16)` gives: an optional leading `+`, then
/// hexadecimal digits of either case.
pub open spec fn from_hex_spec(s: Seq<char>) -> Result<u64, IntErrorKind> {
    if s.len() == 0 {
        Err(IntErrorKind::Empty)
    } else if s[0] == '+' && s.len() == 1 {
        Err(IntErrorKind::InvalidDigit)
    } else {
        let start: int = if s[0] == '+' { 1 } else { 0 };
        match hex_scan(s, start, 0) {
            Ok(v) => Ok(v as u64),
            Err(e) => Err(e),
        }
    }
}

/// The lower-case hexadecimal digit of `d` (0 to 15).
pub open spec fn hex_char(d: nat) -> char {
    if d < 10 {
        ((d + ('0' as nat)) as u32) as char
    } else {
        ((d - 10 + ('a' as nat)) as u32) as char
    }
}

/// `{:x}` of `n`: lower-case hexadecimal without leading zeros.
pub open spec fn hex(n: nat) -> Seq<char>
    decreases n,
{
    if n < 16 {
        seq![hex_char(n)]
    } else {
        hex(n / 16).push(hex_char(n % 16))
    }
}

proof fn lemma_hex_char(d: nat)
    requires
        d < 16,
    ensures
        is_hex(hex_char(d)),
        hex_val(hex_char(d)) == d,
{
}

/// Every character of `{:x}` is a hexadecimal digit that reads back to its
/// value.
pub proof fn lemma_hex_value(n: nat)
    ensures
        all_hex(hex(n)),
        hex_value(hex(n)) == n,
        hex(n).len() >= 1,
    decreases n,
{
    lemma_hex_char(n % 16);
    if n < 16 {
        assert(hex(n).drop_last() =~= Seq::<char>::empty());
        assert(hex_value(hex(n)) == hex_value(Seq::<char>::empty()) * 16 + hex_val(hex_char(n)));
    } else {
        lemma_hex_value(n / 16);
        let p = hex(n / 16);
        assert(hex(n).drop_last() =~= p);
        assert(hex(n).last() == hex_char(n % 16));
        assert(hex_value(hex(n)) == hex_value(p) * 16 + hex_val(hex_char(n % 16)));
        assert forall|i: int| 0 <= i < hex(n).len() implies is_hex(#[trigger] hex(n)[i]) by {
            if i < p.len() {
                assert(hex(n)[i] == p[i]);
            }
        }
    }
}

proof fn lemma_hex_value_prefix(s: Seq<char>, i: int)
    requires
        0 <= i <= s.len(),
        all_hex(s),
    ensures
        hex_value(s.take(i)) <= hex_value(s),
    decreases s.len() - i,
{
    if i < s.len() {
        lemma_hex_value_prefix(s, i + 1);
        assert(s.take(i + 1).drop_last() =~= s.take(i));
        assert(hex_value(s.take(i + 1)) == hex_value(s.take(i)) * 16 + hex_val(s[i]));
    } else {
        assert(s.take(i) =~= s);
    }
}

proof fn lemma_hex_scan_all(s: Seq<char>, i: int)
    requires
        0 <= i <= s.len(),
        all_hex(s),
        hex_value(s) <= u64::MAX,
    ensures
        hex_scan(s, i, hex_value(s.take(i))) == Ok::<nat, IntErrorKind>(hex_value(s)),
    decreases s.len() - i,
{
    if i < s.len() {
        assert(s.take(i + 1).drop_last() =~= s.take(i));
        assert(hex_value(s.take(i + 1)) == hex_value(s.take(i)) * 16 + hex_val(s[i]));
        lemma_hex_value_prefix(s, i + 1);
        lemma_hex_scan_all(s, i + 1);
    } else {
        assert(s.take(i) =~= s);
    }
}

/// Reading back `{:x}` of a 64-bit value gives the value.
pub proof fn lemma_hex_round_trip(n: u64)
    ensures
        from_hex_spec(hex(n as nat)) == Ok::<u64, IntErrorKind>(n),
{
    lemma_hex_value(n as nat);
    let s = hex(n as nat);
    assert(s[0] != '+') by {
        assert(is_hex(s[0]));
    }
    assert(s.take(0) =~= Seq::<char>::empty());
    lemma_hex_scan_all(s, 0);
}

/// Reads `s` as `u64::from_str_radix(s, 16)` does.
pub fn from_hex(s: &str) -> (r: Result<u64, IntErrorKind>)
    ensures
        r == from_hex_spec(s@),
{
    let n = s.unicode_len();
    if n == 0 {
        return Err(IntErrorKind::Empty);
    }
    let first = s.get_char(0);
    if first == '+' && n == 1 {
        return Err(IntErrorKind::InvalidDigit);
    }
    let mut i: usize = if first == '+' { 1 } else { 0 };
    let ghost start: int = i as int;
    assert(from_hex_spec(s@) == (match hex_scan(s@, start, 0) {
        Ok(v) => Ok::<u64, IntErrorKind>(v as u64),
        Err(e) => Err(e),
    }));
    let mut acc: u64 = 0;
    while i < n
        invariant
            n == s@.len(),
            start <= i <= n,
            from_hex_spec(s@) == (match hex_scan(s@, start, 0) {
                Ok(v) => Ok::<u64, IntErrorKind>(v as u64),
                Err(e) => Err(e),
            }),
            hex_scan(s@, start, 0) == hex_scan(s@, i as int, acc as nat),
        decreases n - i,
    {
        let c = s.get_char(i);
        let d: u64 = if '0' <= c && c <= '9' {
            (c as u32 - '0' as u32) as u64
        } else if 'a' <= c && c <= 'f' {
            (c as u32 - 'a' as u32 + 10) as u64
        } else if 'A' <= c && c <= 'F' {
            (c as u32 - 'A' as u32 + 10) as u64
        } else {
            return Err(IntErrorKind::InvalidDigit);
        };
        assert(is_hex(c) && d == hex_val(c));
        let next: u128 = (acc as u128) * 16 + (d as u128);
        if next > 0xffff_ffff_ffff_ffffu128 {
            return Err(IntErrorKind::PosOverflow);
        }
        acc = next as u64;
        i = i + 1;
    }
    Ok(acc)
}

/// Appends `{:x}` of `n` to `out`.
pub fn push_hex(out: &mut String, n: u64)
    ensures
        final(out)@ == old(out)@ + hex(n as nat),
    decreases n,
{
    if n >= 16 {
        push_hex(out, n / 16);
    }
    let d = n % 16;
    let digits = "0123456789abcdef";
    proof {
        reveal_strlit("0123456789abcdef");
    }
    let c = digits.substring_char(d as usize, d as usize + 1);
    proof {
        let ch = hex_char(d as nat);
        assert(c@ =~= seq![ch]) by {
            assert(c@[0] == digits@[d as int]);
        }
    }
    out.append(c);
    proof {
        if n >= 16 {
            assert(hex(n as nat) == hex((n / 16) as nat).push(hex_char((n % 16) as nat)));
        }
    }
}

/// `{:x}` of `n`.
pub fn to_hex(n: u64) -> (s: String)
    ensures
        s@ == hex(n as nat),
{
    let mut s = String::new();
    push_hex(&mut s, n);
    assert(s@ =~= hex(n as nat));
    s
}

/// Reads a message id written in hexadecimal.
pub fn parse_mid(hex_str: &str) -> (r: Result<u64, IntErrorKind>)
    ensures
        r == from_hex_spec(hex_str@),
{
    from_hex(hex_str)
}

/// A channel id read from hexadecimal: channel ids are never zero, so a
/// text that reads as zero is refused.
pub open spec fn cid_spec(s: Seq<char>) -> Result<u64, IntErrorKind> {
    match from_hex_spec(s) {
        Ok(v) => if v == 0 { Err(IntErrorKind::Zero) } else { Ok(v) },
        Err(e) => Err(e),
    }
}

/// Reads a channel id written in hexadecimal; zero is refused.
pub fn parse_cid(hex_str: &str) -> (r: Result<u64, IntErrorKind>)
    ensures
        r == cid_spec(hex_str@),
{
    match from_hex(hex_str) {
        Ok(v) => if v == 0 { Err(IntErrorKind::Zero) } else { Ok(v) },
        Err(e) => Err(e),
    }
}

/// Reads an optional channel id written in hexadecimal, where exactly `0`
/// stands for none.
pub open spec fn opt_cid_spec(s: Seq<char>) -> Result<Option<u64>, IntErrorKind> {
    if s == seq!['0'] {
        Ok(None)
    } else {
        match cid_spec(s) {
            Ok(v) => Ok(Some(v)),
            Err(e) => Err(e),
        }
    }
}

/// Reads an optional channel id written in hexadecimal (`0` is none; any
/// other text that reads as zero is refused).
pub fn parse_opt_cid(hex_str: &str) -> (r: Result<Option<u64>, IntErrorKind>)
    ensures
        r == opt_cid_spec(hex_str@),
{
    let n = hex_str.unicode_len();
    if n == 1 && hex_str.get_char(0) == '0' {
        assert(hex_str@ =~= seq!['0']);
        Ok(None)
    } else {
        assert(hex_str@ != seq!['0']) by {
            if hex_str@ == seq!['0'] {
                assert(hex_str@[0] == '0');
            }
        }
        match parse_cid(hex_str) {
            Ok(v) => Ok(Some(v)),
            Err(e) => Err(e),
        }
    }
}

} // verus!

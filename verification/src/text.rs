//! Character-level text utilities: conversion between `str`/`String` and
//! `Vec<char>`, decimal and hexadecimal numerals, and the SRT-to-WebVTT
//! subtitle conversion.  All contracts speak about `Seq<char>` views.

use vstd::prelude::*;
use vstd::string::*;
use vstd::utf8::*;

verus! {

/// True of the ten ASCII digit characters.
pub open spec fn is_digit(c: char) -> bool {
    48 <= c as u32 <= 57
}

/// Numeric value of an ASCII digit character.
pub open spec fn digit_val(c: char) -> nat
    recommends
        is_digit(c),
{
    (c as u32 - 48) as nat
}

pub open spec fn all_digits(s: Seq<char>) -> bool {
    forall|i: int| 0 <= i < s.len() ==> is_digit(#[trigger] s[i])
}

/// Value of a digit string, most significant digit first.
pub open spec fn dec_val(s: Seq<char>) -> nat
    decreases s.len(),
{
    if s.len() == 0 {
        0
    } else {
        dec_val(s.drop_last()) * 10 + digit_val(s.last())
    }
}

/// The digit character for a value below ten.
pub open spec fn digit_char(d: nat) -> char
    recommends
        d < 10,
{
    ((48 + d) as u8) as char
}

/// Decimal numeral of `n`, without leading zeros (`0` itself is "0").
pub open spec fn dec_repr(n: nat) -> Seq<char>
    decreases n,
{
    if n < 10 {
        seq![digit_char(n)]
    } else {
        dec_repr(n / 10).push(digit_char(n % 10))
    }
}

/// The hexadecimal digit character for a value below sixteen (upper case).
pub open spec fn hex_digit_char(d: nat) -> char
    recommends
        d < 16,
{
    if d < 10 {
        ((48 + d) as u8) as char
    } else {
        ((55 + d) as u8) as char
    }
}

/// Upper-case hexadecimal numeral of `n`, without leading zeros.
pub open spec fn hex_repr(n: nat) -> Seq<char>
    decreases n,
{
    if n < 16 {
        seq![hex_digit_char(n)]
    } else {
        hex_repr(n / 16).push(hex_digit_char(n % 16))
    }
}

/// The characters of a string slice.
pub fn chars_of(s: &str) -> (r: Vec<char>)
    ensures
        r@ == s@,
{
    let n = s.unicode_len();
    let mut r: Vec<char> = Vec::new();
    let mut i: usize = 0;
    while i < n
        invariant
            n == s@.len(),
            i <= n,
            r@ == s@.subrange(0, i as int),
        decreases n - i,
    {
        r.push(s.get_char(i));
        i = i + 1;
        proof {
            assert(r@ =~= s@.subrange(0, i as int));
        }
    }
    proof {
        assert(r@ =~= s@);
    }
    r
}

/// Builds the string holding exactly the given characters.
///
/// Relies on `String`'s `FromIterator` impl (via `Iterator::collect`),
/// which collects the characters in order.
#[verifier::external_body]
pub fn string_of(v: &Vec<char>) -> (r: String)
    ensures
        r@ == v@,
{
    v.iter().collect()
}

/// Builds a string from UTF-8 bytes.
///
/// Relies on `String::from_utf8`, which succeeds exactly on valid UTF-8
/// input and yields the string those bytes encode.
#[verifier::external_body]
pub fn string_from_utf8(v: Vec<u8>) -> (r: Option<String>)
    ensures
        r is Some <==> valid_utf8(v@),
        r matches Some(s) ==> s@ == decode_utf8(v@),
{
    String::from_utf8(v).ok()
}

/// A copy of `v[from..to]`.
pub fn subchars(v: &Vec<char>, from: usize, to: usize) -> (r: Vec<char>)
    requires
        from <= to <= v@.len(),
    ensures
        r@ == v@.subrange(from as int, to as int),
{
    let mut r: Vec<char> = Vec::new();
    let mut i: usize = from;
    while i < to
        invariant
            from <= i <= to <= v@.len(),
            r@ == v@.subrange(from as int, i as int),
        decreases to - i,
    {
        r.push(v[i]);
        i = i + 1;
        proof {
            assert(r@ =~= v@.subrange(from as int, i as int));
        }
    }
    r
}

/// Character-wise equality of two vectors.
pub fn chars_eq(a: &Vec<char>, b: &Vec<char>) -> (r: bool)
    ensures
        r <==> a@ == b@,
{
    if a.len() != b.len() {
        return false;
    }
    let mut i: usize = 0;
    while i < a.len()
        invariant
            i <= a@.len(),
            a@.len() == b@.len(),
            forall|j: int| 0 <= j < i ==> a@[j] == b@[j],
        decreases a@.len() - i,
    {
        if a[i] != b[i] {
            return false;
        }
        i = i + 1;
    }
    proof {
        assert(a@ =~= b@);
    }
    true
}

/// True when `v[at..]` starts with the characters of `lit`.
pub fn starts_with_lit(v: &Vec<char>, at: usize, lit: &str) -> (r: bool)
    requires
        at <= v@.len(),
    ensures
        r <==> (at + lit@.len() <= v@.len() && v@.subrange(
            at as int,
            at + lit@.len(),
        ) == lit@),
{
    let n = lit.unicode_len();
    let vlen = v.len();
    if n > vlen - at {
        return false;
    }
    let mut i: usize = 0;
    while i < n
        invariant
            i <= n,
            n == lit@.len(),
            vlen == v@.len(),
            at + n <= vlen,
            forall|j: int| 0 <= j < i ==> v@[at + j] == lit@[j],
        decreases n - i,
    {
        if v[at + i] != lit.get_char(i) {
            proof {
                assert(v@.subrange(at as int, at + lit@.len())[i as int] != lit@[i as int]);
            }
            return false;
        }
        i = i + 1;
    }
    proof {
        assert(v@.subrange(at as int, at + lit@.len()) =~= lit@);
    }
    true
}

/// Index of the first occurrence of `c` in `s`, or `s.len()` when absent.
pub open spec fn find_char(s: Seq<char>, c: char) -> int
    decreases s.len(),
{
    if s.len() == 0 {
        0
    } else if s[0] == c {
        0
    } else {
        1 + find_char(s.subrange(1, s.len() as int), c)
    }
}

/// What `find_char` finds: the first occurrence, within bounds.
pub proof fn lemma_find_char_props(s: Seq<char>, c: char)
    ensures
        0 <= find_char(s, c) <= s.len(),
        find_char(s, c) < s.len() ==> s[find_char(s, c)] == c,
        forall|j: int| 0 <= j < find_char(s, c) ==> s[j] != c,
    decreases s.len(),
{
    if s.len() > 0 && s[0] != c {
        let tail = s.subrange(1, s.len() as int);
        lemma_find_char_props(tail, c);
        assert forall|j: int| 0 <= j < find_char(s, c) implies s[j] != c by {
            if j > 0 {
                assert(tail[j - 1] == s[j]);
            }
        }
    }
}

/// Index of the last occurrence of `c` in `s`, or `-1` when absent.
pub open spec fn last_index_of(s: Seq<char>, c: char) -> int
    decreases s.len(),
{
    if s.len() == 0 {
        -1
    } else if s.last() == c {
        s.len() - 1
    } else {
        last_index_of(s.drop_last(), c)
    }
}

/// What `last_index_of` finds: the last occurrence, or `-1`.
pub proof fn lemma_last_index_of_props(s: Seq<char>, c: char)
    ensures
        -1 <= last_index_of(s, c) < s.len(),
        last_index_of(s, c) >= 0 ==> s[last_index_of(s, c)] == c,
        forall|j: int| last_index_of(s, c) < j < s.len() ==> s[j] != c,
    decreases s.len(),
{
    if s.len() > 0 && s.last() != c {
        let head = s.drop_last();
        lemma_last_index_of_props(head, c);
        assert forall|j: int| last_index_of(s, c) < j < s.len() implies s[j] != c by {
            if j < s.len() - 1 {
                assert(head[j] == s[j]);
            }
        }
    }
}

/// First index at or after `from` holding `c`, or `v.len()` when none does.
pub fn find_char_from(v: &Vec<char>, from: usize, c: char) -> (r: usize)
    requires
        from <= v@.len(),
    ensures
        from <= r <= v@.len(),
        r < v@.len() ==> v@[r as int] == c,
        forall|j: int| from <= j < r ==> v@[j] != c,
{
    let mut i: usize = from;
    while i < v.len()
        invariant
            from <= i <= v@.len(),
            forall|j: int| from <= j < i ==> v@[j] != c,
        decreases v@.len() - i,
    {
        if v[i] == c {
            return i;
        }
        i = i + 1;
    }
    i
}

/// True when `n` occurs as a contiguous run inside `h`.
pub open spec fn contains_seq(h: Seq<char>, n: Seq<char>) -> bool {
    exists|i: int|
        0 <= i && i + n.len() <= h.len() && #[trigger] h.subrange(i, i + n.len() as int) == n
}

/// True when the characters of `lit` occur somewhere in `v`.
pub fn contains_lit(v: &Vec<char>, lit: &str) -> (r: bool)
    ensures
        r <==> contains_seq(v@, lit@),
{
    let n = lit.unicode_len();
    let vlen = v.len();
    if n == 0 {
        proof {
            assert(v@.subrange(0, 0 + lit@.len() as int) =~= lit@);
        }
        return true;
    }
    if n > vlen {
        return false;
    }
    let mut i: usize = 0;
    while i <= vlen - n
        invariant
            1 <= n == lit@.len(),
            n <= vlen == v@.len(),
            i <= vlen - n + 1,
            forall|j: int|
                0 <= j < i ==> #[trigger] v@.subrange(j, j + lit@.len() as int) != lit@,
        decreases vlen - i,
    {
        if starts_with_lit(v, i, lit) {
            proof {
                assert(v@.subrange(i as int, i as int + lit@.len() as int) == lit@);
            }
            return true;
        }
        i = i + 1;
    }
    false
}

/// Index of the last occurrence of `c` in `v`, or `None` when absent.
pub fn rfind_char(v: &Vec<char>, c: char) -> (r: Option<usize>)
    ensures
        match r {
            Some(i) => i < v@.len() && i == last_index_of(v@, c),
            None => last_index_of(v@, c) == -1,
        },
{
    proof {
        lemma_last_index_of_props(v@, c);
    }
    let mut i: usize = v.len();
    while i > 0
        invariant
            i <= v@.len(),
            forall|j: int| i <= j < v@.len() ==> v@[j] != c,
        decreases i,
    {
        i = i - 1;
        if v[i] == c {
            proof {
                lemma_last_index_of_props(v@, c);
                let l = last_index_of(v@, c);
                if l > i as int {
                    assert(v@[l] != c);
                }
                if l < i as int {
                    assert(v@[i as int] != c);
                }
            }
            return Some(i);
        }
    }
    None
}

/// Appends the characters of `lit`.
pub fn append_lit(out: &mut Vec<char>, lit: &str)
    ensures
        final(out)@ == old(out)@ + lit@,
{
    let n = lit.unicode_len();
    let mut i: usize = 0;
    while i < n
        invariant
            i <= n,
            n == lit@.len(),
            out@ == old(out)@ + lit@.subrange(0, i as int),
        decreases n - i,
    {
        out.push(lit.get_char(i));
        i = i + 1;
        proof {
            assert(out@ =~= old(out)@ + lit@.subrange(0, i as int));
        }
    }
    proof {
        assert(lit@.subrange(0, lit@.len() as int) =~= lit@);
    }
}

/// Appends a copy of `more`.
pub fn append_chars(out: &mut Vec<char>, more: &Vec<char>)
    ensures
        final(out)@ == old(out)@ + more@,
{
    let mut i: usize = 0;
    while i < more.len()
        invariant
            i <= more@.len(),
            out@ == old(out)@ + more@.subrange(0, i as int),
        decreases more@.len() - i,
    {
        out.push(more[i]);
        i = i + 1;
        proof {
            assert(out@ =~= old(out)@ + more@.subrange(0, i as int));
        }
    }
    proof {
        assert(more@.subrange(0, more@.len() as int) =~= more@);
    }
}

/// Character-wise equality with a literal.
pub fn chars_is_lit(v: &Vec<char>, lit: &str) -> (r: bool)
    ensures
        r <==> v@ == lit@,
{
    let n = lit.unicode_len();
    if v.len() != n {
        return false;
    }
    let sw = starts_with_lit(v, 0, lit);
    proof {
        if sw {
            assert(v@.subrange(0, lit@.len() as int) =~= v@);
        } else {
            assert(v@.subrange(0 as int, 0 + lit@.len() as int) =~= v@);
        }
    }
    sw
}

/// True when `s` begins with `p`.
pub open spec fn is_prefix(s: Seq<char>, p: Seq<char>) -> bool {
    s.len() >= p.len() && s.subrange(0, p.len() as int) == p
}

/// True when `s` ends with `p`.
pub open spec fn is_suffix(s: Seq<char>, p: Seq<char>) -> bool {
    s.len() >= p.len() && s.subrange(s.len() - p.len(), s.len() as int) == p
}

/// True when the characters of `v` end with those of `lit`.
pub fn ends_with_lit(v: &Vec<char>, lit: &str) -> (r: bool)
    ensures
        r <==> is_suffix(v@, lit@),
{
    let n = lit.unicode_len();
    let vlen = v.len();
    if vlen < n {
        return false;
    }
    let base = vlen - n;
    let mut i: usize = 0;
    while i < n
        invariant
            i <= n,
            n == lit@.len(),
            base == vlen - n,
            vlen == v@.len(),
            n <= vlen,
            forall|j: int| 0 <= j < i ==> v@[base + j] == lit@[j],
        decreases n - i,
    {
        if v[base + i] != lit.get_char(i) {
            proof {
                assert(v@.subrange(v@.len() - lit@.len(), v@.len() as int)[i as int]
                    != lit@[i as int]);
            }
            return false;
        }
        i = i + 1;
    }
    proof {
        assert(v@.subrange(v@.len() - lit@.len(), v@.len() as int) =~= lit@);
    }
    true
}

/// ASCII whitespace, as headers use it.
pub open spec fn is_ws(c: char) -> bool {
    c == ' ' || c == '\t' || c == '\r' || c == '\n'
}

/// `s` without leading ASCII whitespace.
pub open spec fn trim_start(s: Seq<char>) -> Seq<char>
    decreases s.len(),
{
    if s.len() > 0 && is_ws(s[0]) {
        trim_start(s.subrange(1, s.len() as int))
    } else {
        s
    }
}

/// `s` without trailing ASCII whitespace.
pub open spec fn trim_end(s: Seq<char>) -> Seq<char>
    decreases s.len(),
{
    if s.len() > 0 && is_ws(s.last()) {
        trim_end(s.drop_last())
    } else {
        s
    }
}

/// `s` without leading and trailing ASCII whitespace.
pub open spec fn spec_trim(s: Seq<char>) -> Seq<char> {
    trim_end(trim_start(s))
}

fn char_at_is_ws(v: &Vec<char>, i: usize) -> (r: bool)
    requires
        i < v@.len(),
    ensures
        r == is_ws(v@[i as int]),
{
    let c = v[i];
    c == ' ' || c == '\t' || c == '\r' || c == '\n'
}

/// A copy of `v[from..to]` without leading and trailing ASCII whitespace.
pub fn trim_chars(v: &Vec<char>, from: usize, to: usize) -> (r: Vec<char>)
    requires
        from <= to <= v@.len(),
    ensures
        r@ == spec_trim(v@.subrange(from as int, to as int)),
{
    let ghost orig = v@.subrange(from as int, to as int);
    let mut lo: usize = from;
    while lo < to && char_at_is_ws(v, lo)
        invariant
            from <= lo <= to <= v@.len(),
            trim_start(orig) == trim_start(v@.subrange(lo as int, to as int)),
        decreases to - lo,
    {
        proof {
            let cur = v@.subrange(lo as int, to as int);
            assert(cur.subrange(1, cur.len() as int) =~= v@.subrange(lo as int + 1, to as int));
        }
        lo = lo + 1;
    }
    proof {
        assert(trim_start(orig) == v@.subrange(lo as int, to as int));
    }
    let ghost started = v@.subrange(lo as int, to as int);
    let mut hi: usize = to;
    while hi > lo && char_at_is_ws(v, hi - 1)
        invariant
            from <= lo <= hi <= to <= v@.len(),
            started == v@.subrange(lo as int, to as int),
            trim_end(started) == trim_end(v@.subrange(lo as int, hi as int)),
        decreases hi,
    {
        proof {
            let cur = v@.subrange(lo as int, hi as int);
            assert(cur.drop_last() =~= v@.subrange(lo as int, hi as int - 1));
        }
        hi = hi - 1;
    }
    proof {
        assert(trim_end(started) == v@.subrange(lo as int, hi as int));
    }
    subchars(v, lo, hi)
}

/// Parses a decimal numeral; `None` when the input is empty, holds a
/// non-digit, or does not fit in a `u64`.
pub fn parse_u64(v: &Vec<char>) -> (r: Option<u64>)
    ensures
        r is Some <==> (v@.len() > 0 && all_digits(v@) && dec_val(v@) < 0x1_0000_0000_0000_0000),
        r matches Some(n) ==> n == dec_val(v@),
{
    if v.len() == 0 {
        return None;
    }
    let mut acc: u64 = 0;
    let mut i: usize = 0;
    while i < v.len()
        invariant
            i <= v@.len(),
            v@.len() > 0,
            all_digits(v@.take(i as int)),
            acc == dec_val(v@.take(i as int)),
        decreases v@.len() - i,
    {
        let c = v[i];
        let u: u32 = c as u32;
        if !(48 <= u && u <= 57) {
            return None;
        }
        let d: u64 = (u - 48) as u64;
        proof {
            lemma_dec_val_take_succ(v@, i as int);
        }
        if acc > 1844674407370955161u64 || (acc == 1844674407370955161u64 && d > 5) {
            proof {
                lemma_dec_val_grows(v@, i as int + 1);
            }
            return None;
        }
        acc = acc * 10 + d;
        i = i + 1;
    }
    proof {
        assert(v@.take(v@.len() as int) =~= v@);
    }
    Some(acc)
}

proof fn lemma_dec_val_take_succ(s: Seq<char>, i: int)
    requires
        0 <= i < s.len(),
    ensures
        dec_val(s.take(i + 1)) == dec_val(s.take(i)) * 10 + digit_val(s[i]),
{
    assert(s.take(i + 1).drop_last() =~= s.take(i));
    assert(s.take(i + 1).last() == s[i]);
}

/// The value of a digit string is at least the value of any of its prefixes.
proof fn lemma_dec_val_grows(s: Seq<char>, i: int)
    requires
        0 <= i <= s.len(),
    ensures
        dec_val(s) >= dec_val(s.take(i)),
    decreases s.len() - i,
{
    if i < s.len() {
        lemma_dec_val_take_succ(s, i);
        lemma_dec_val_grows(s, i + 1);
    } else {
        assert(s.take(i) =~= s);
    }
}

/// Powers of ten.
pub open spec fn pow10(k: nat) -> nat
    decreases k,
{
    if k == 0 {
        1
    } else {
        10 * pow10((k - 1) as nat)
    }
}

/// The milliseconds the fractional digits denote: the first three digits,
/// padded with zeros on the right.
pub open spec fn frac_millis(fp: Seq<char>) -> nat {
    if fp.len() >= 3 {
        dec_val(fp.subrange(0, 3))
    } else {
        dec_val(fp) * pow10((3 - fp.len()) as nat)
    }
}

/// A plain decimal numeral with an optional fractional part and at least
/// one digit: digits, or digits on either side of a single dot.
pub open spec fn wf_decimal(s: Seq<char>) -> bool {
    let dot = find_char(s, '.');
    let ip = s.subrange(0, dot);
    if dot == s.len() {
        all_digits(ip) && ip.len() > 0
    } else {
        let fp = s.subrange(dot + 1, s.len() as int);
        all_digits(ip) && all_digits(fp) && ip.len() + fp.len() > 0 && find_char(fp, '.')
            == fp.len()
    }
}

/// The value of a decimal numeral, in thousandths.
pub open spec fn spec_millis(s: Seq<char>) -> nat {
    let dot = find_char(s, '.');
    let ip = s.subrange(0, dot);
    let fp = if dot == s.len() {
        Seq::<char>::empty()
    } else {
        s.subrange(dot + 1, s.len() as int)
    };
    dec_val(ip) * 1000 + frac_millis(fp)
}

/// Parses a decimal numeral (such as a seconds count) into thousandths
/// (such as milliseconds), truncating the fraction after three digits.
/// `None` when the text is not a plain decimal or the value does not fit.
#[verifier::loop_isolation(false)]
pub fn parse_millis(v: &Vec<char>) -> (r: Option<u64>)
    ensures
        r is Some <==> (wf_decimal(v@) && spec_millis(v@) < 0x1_0000_0000_0000_0000),
        r matches Some(n) ==> n == spec_millis(v@),
{
    let vlen = v.len();
    let dot = find_char_from(v, 0, '.');
    proof {
        lemma_find_char_props(v@, '.');
        assert(dot == find_char(v@, '.'));
    }
    let ip = subchars(v, 0, dot);
    let fp: Vec<char> = if dot == vlen {
        Vec::new()
    } else {
        subchars(v, dot + 1, vlen)
    };
    proof {
        if dot == vlen as int {
            assert(fp@ =~= Seq::<char>::empty());
        }
    }
    if dot < vlen {
        let dot2 = find_char_from(&fp, 0, '.');
        proof {
            lemma_find_char_props(fp@, '.');
            assert(dot2 == find_char(fp@, '.'));
        }
        if dot2 < fp.len() {
            return None;
        }
    }
    if ip.len() == 0 && fp.len() == 0 {
        return None;
    }
    let mut i: usize = 0;
    while i < fp.len()
        invariant
            i <= fp@.len(),
            all_digits(fp@.subrange(0, i as int)),
        decreases fp@.len() - i,
    {
        let c = fp[i];
        let u: u32 = c as u32;
        if !(48 <= u && u <= 57) {
            proof {
                assert(!is_digit(fp@[i as int]));
                assert(!all_digits(fp@));
            }
            return None;
        }
        i = i + 1;
        proof {
            assert(all_digits(fp@.subrange(0, i as int)));
        }
    }
    proof {
        assert(fp@.subrange(0, fp@.len() as int) =~= fp@);
        assert(all_digits(fp@));
    }
    let ip_val: u64 = if ip.len() == 0 {
        0
    } else {
        match parse_u64(&ip) {
            Some(x) => x,
            None => {
                proof {
                    if all_digits(ip@) {
                        vstd::arithmetic::mul::lemma_mul_inequality(
                            0x1_0000_0000_0000_0000,
                            dec_val(ip@) as int,
                            1000,
                        );
                    }
                }
                return None;
            },
        }
    };
    let f3: u64 = frac_part_value(&fp);
    if ip_val > 18446744073709551u64 || (ip_val == 18446744073709551u64 && f3 > 615) {
        return None;
    }
    Some(ip_val * 1000 + f3)
}

/// The milliseconds the fractional digits denote.
fn frac_part_value(fp: &Vec<char>) -> (r: u64)
    requires
        all_digits(fp@),
    ensures
        r == frac_millis(fp@),
        r <= 999,
{
    proof {
        assert(pow10(0) == 1);
        assert(pow10(1) == 10);
        assert(pow10(2) == 100);
        assert(pow10(3) == 1000);
    }
    let k: usize = if fp.len() >= 3 {
        3
    } else {
        fp.len()
    };
    let ff = subchars(fp, 0, k);
    proof {
        assert(all_digits(ff@)) by {
            assert(forall|j: int| 0 <= j < k ==> ff@[j] == fp@[j]);
        }
        lemma_dec_val_small(ff@);
        if k == fp@.len() {
            assert(ff@ =~= fp@);
        }
    }
    if k == 0 {
        proof {
            assert(dec_val(ff@) == 0);
        }
        return 0;
    }
    let x: u64 = match parse_u64(&ff) {
        Some(x) => x,
        None => {
            proof {
                assert(false);
            }
            0
        },
    };
    if k == 3 {
        x
    } else if k == 2 {
        proof {
            assert(x < 100);
        }
        x * 10
    } else {
        proof {
            assert(x < 10);
        }
        x * 100
    }
}

/// A digit string of at most three digits stays below a thousand.
proof fn lemma_dec_val_small(s: Seq<char>)
    requires
        all_digits(s),
        s.len() <= 3,
    ensures
        dec_val(s) < pow10(s.len()),
    decreases s.len(),
{
    if s.len() > 0 {
        assert(all_digits(s.drop_last())) by {
            assert(forall|i: int| 0 <= i < s.len() - 1 ==> s.drop_last()[i] == s[i]);
        }
        lemma_dec_val_small(s.drop_last());
        assert(digit_val(s.last()) <= 9);
    }
}

/// The decimal numeral of `n`, as characters.
pub fn format_u64(n: u64) -> (r: Vec<char>)
    ensures
        r@ == dec_repr(n as nat),
    decreases n,
{
    if n < 10 {
        let c: char = ((48 + n) as u8) as char;
        let mut r: Vec<char> = Vec::new();
        r.push(c);
        proof {
            assert(r@ =~= dec_repr(n as nat));
        }
        r
    } else {
        let mut r = format_u64(n / 10);
        let c: char = ((48 + n % 10) as u8) as char;
        r.push(c);
        r
    }
}

/// The upper-case hexadecimal numeral of `n`, as characters.
pub fn format_hex(n: u64) -> (r: Vec<char>)
    ensures
        r@ == hex_repr(n as nat),
    decreases n,
{
    if n < 16 {
        let d: u64 = n;
        let c: char = if d < 10 {
            ((48 + d) as u8) as char
        } else {
            ((55 + d) as u8) as char
        };
        let mut r: Vec<char> = Vec::new();
        r.push(c);
        proof {
            assert(r@ =~= hex_repr(n as nat));
        }
        r
    } else {
        let mut r = format_hex(n / 16);
        let d: u64 = n % 16;
        let c: char = if d < 10 {
            ((48 + d) as u8) as char
        } else {
            ((55 + d) as u8) as char
        };
        r.push(c);
        r
    }
}

/// A signed decimal numeral.
pub open spec fn spec_i32_repr(n: i32) -> Seq<char> {
    if n >= 0 {
        dec_repr(n as nat)
    } else {
        seq!['-'] + dec_repr((-(n as int)) as nat)
    }
}

/// Writes a signed decimal numeral.
pub fn format_i32(n: i32) -> (r: Vec<char>)
    ensures
        r@ == spec_i32_repr(n),
{
    if n >= 0 {
        format_u64(n as u64)
    } else {
        let mag: u64 = if n == i32::MIN {
            2147483648u64
        } else {
            (-n) as u64
        };
        let mut r: Vec<char> = Vec::new();
        r.push('-');
        let mut digits = format_u64(mag);
        r.append(&mut digits);
        proof {
            assert(r@ =~= spec_i32_repr(n));
        }
        r
    }
}

/// A count of thousandths written with all three fraction digits.
pub open spec fn spec_millis_repr_full(pm: u64) -> Seq<char> {
    dec_repr((pm / 1000) as nat) + seq!['.'] + dec_repr_pad((pm % 1000) as nat, 3)
}

/// Writes a count of thousandths with all three fraction digits.
pub fn format_millis_full(pm: u64) -> (r: Vec<char>)
    ensures
        r@ == spec_millis_repr_full(pm),
{
    let mut r = format_u64(pm / 1000);
    r.push('.');
    let mut frac = format_u64_pad(pm % 1000, 3);
    r.append(&mut frac);
    proof {
        assert(r@ =~= spec_millis_repr_full(pm));
    }
    r
}

/// The JSON escape of one character: quotes and backslashes escaped,
/// common control characters named, the rest of the control range in
/// `\u00..` form, everything else itself.
pub open spec fn json_escape_char(c: char) -> Seq<char> {
    if c == '"' {
        seq!['\\', '"']
    } else if c == '\\' {
        seq!['\\', '\\']
    } else if c == '\n' {
        seq!['\\', 'n']
    } else if c == '\r' {
        seq!['\\', 'r']
    } else if c == '\t' {
        seq!['\\', 't']
    } else if (c as u32) < 32 {
        seq!['\\', 'u', '0', '0', hex_digit_char((c as u32 / 16) as nat), hex_digit_char(
            (c as u32 % 16) as nat,
        )]
    } else {
        seq![c]
    }
}

/// The JSON escape of a string's characters.
pub open spec fn json_escaped(s: Seq<char>) -> Seq<char>
    decreases s.len(),
{
    if s.len() == 0 {
        Seq::<char>::empty()
    } else {
        json_escaped(s.drop_last()) + json_escape_char(s.last())
    }
}

/// A whole JSON string literal: quotes around the escaped characters.
pub open spec fn spec_json_string(s: Seq<char>) -> Seq<char> {
    seq!['"'] + json_escaped(s) + seq!['"']
}

proof fn lemma_json_escaped_take_succ(s: Seq<char>, i: int)
    requires
        0 <= i < s.len(),
    ensures
        json_escaped(s.take(i + 1)) == json_escaped(s.take(i)) + json_escape_char(s[i]),
{
    assert(s.take(i + 1).drop_last() =~= s.take(i));
    assert(s.take(i + 1).last() == s[i]);
}

/// Appends a JSON string literal holding `s`.
#[verifier::loop_isolation(false)]
pub fn append_json_string(out: &mut Vec<char>, s: &str)
    ensures
        final(out)@ == old(out)@ + spec_json_string(s@),
{
    out.push('"');
    let n = s.unicode_len();
    let mut i: usize = 0;
    while i < n
        invariant
            i <= n,
            out@ == old(out)@ + seq!['"'] + json_escaped(s@.take(i as int)),
        decreases n - i,
    {
        let c = s.get_char(i);
        let u: u32 = c as u32;
        if c == '"' {
            out.push('\\');
            out.push('"');
        } else if c == '\\' {
            out.push('\\');
            out.push('\\');
        } else if c == '\n' {
            out.push('\\');
            out.push('n');
        } else if c == '\r' {
            out.push('\\');
            out.push('r');
        } else if c == '\t' {
            out.push('\\');
            out.push('t');
        } else if u < 32 {
            out.push('\\');
            out.push('u');
            out.push('0');
            out.push('0');
            let hi: u32 = u / 16;
            let lo: u32 = u % 16;
            out.push(
                if hi < 10 {
                    ((48 + hi) as u8) as char
                } else {
                    ((55 + hi) as u8) as char
                },
            );
            out.push(
                if lo < 10 {
                    ((48 + lo) as u8) as char
                } else {
                    ((55 + lo) as u8) as char
                },
            );
        } else {
            out.push(c);
        }
        proof {
            lemma_json_escaped_take_succ(s@, i as int);
            assert(out@ =~= old(out)@ + seq!['"'] + json_escaped(s@.take(i as int + 1)));
        }
        i = i + 1;
    }
    out.push('"');
    proof {
        assert(s@.take(n as int) =~= s@);
        assert(final(out)@ =~= old(out)@ + spec_json_string(s@));
    }
}

/// A count of milliseconds written as seconds: the whole seconds, then a
/// dot and three fraction digits unless the fraction is zero.
pub open spec fn spec_secs_repr(ms: u64) -> Seq<char> {
    if ms % 1000 == 0 {
        dec_repr((ms / 1000) as nat)
    } else {
        dec_repr((ms / 1000) as nat) + seq!['.'] + dec_repr_pad((ms % 1000) as nat, 3)
    }
}

/// Writes a count of milliseconds as seconds.
pub fn format_secs(ms: u64) -> (r: Vec<char>)
    ensures
        r@ == spec_secs_repr(ms),
{
    let whole = format_u64(ms / 1000);
    if ms % 1000 == 0 {
        whole
    } else {
        let mut r = whole;
        r.push('.');
        let mut frac = format_u64_pad(ms % 1000, 3);
        r.append(&mut frac);
        proof {
            assert(r@ =~= spec_secs_repr(ms));
        }
        r
    }
}

/// Decimal numeral padded with zeros on the left to at least `width` digits.
pub open spec fn dec_repr_pad(n: nat, width: nat) -> Seq<char>
    decreases width,
{
    if dec_repr(n).len() >= width {
        dec_repr(n)
    } else {
        seq![digit_char(0)].add(dec_repr_pad(n, (width - 1) as nat))
    }
}

/// The decimal numeral of `n` padded to at least `width` digits.
pub fn format_u64_pad(n: u64, width: usize) -> (r: Vec<char>)
    ensures
        r@ == dec_repr_pad(n as nat, width as nat),
    decreases width,
{
    let digits = format_u64(n);
    if digits.len() >= width {
        digits
    } else {
        let mut r = format_u64_pad_inner(n, width, digits.len());
        r
    }
}

fn format_u64_pad_inner(n: u64, width: usize, dlen: usize) -> (r: Vec<char>)
    requires
        dlen == dec_repr(n as nat).len(),
        dlen < width,
    ensures
        r@ == dec_repr_pad(n as nat, width as nat),
    decreases width,
{
    let prefix: char = '0';
    proof {
        assert(digit_char(0) == '0');
    }
    if dlen + 1 >= width {
        let mut r: Vec<char> = Vec::new();
        r.push(prefix);
        let mut digits = format_u64(n);
        r.append(&mut digits);
        proof {
            assert(dec_repr_pad(n as nat, (width - 1) as nat) == dec_repr(n as nat));
            assert(r@ =~= dec_repr_pad(n as nat, width as nat));
        }
        r
    } else {
        let mut r: Vec<char> = Vec::new();
        r.push(prefix);
        let mut rest = format_u64_pad_inner(n, width - 1, dlen);
        r.append(&mut rest);
        proof {
            assert(r@ =~= dec_repr_pad(n as nat, width as nat));
        }
        r
    }
}

} // verus!

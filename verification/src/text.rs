//! Character and string groundwork shared by the rest of the library:
//! ASCII case mapping, the handler-name derivation for generated
//! entrypoints, and prefix/suffix tests on strings.

use vstd::prelude::*;

verus! {

/// Relies on String::push: appends exactly the given character.
#[verifier::external_body]
pub(crate) fn push_char(s: &mut String, c: char)
    ensures
        final(s)@ == old(s)@.push(c),
{
    s.push(c)
}

pub open spec fn is_ascii_lower(c: char) -> bool {
    97 <= c as u32 && c as u32 <= 122
}

pub open spec fn is_ascii_upper(c: char) -> bool {
    65 <= c as u32 && c as u32 <= 90
}

/// The ASCII uppercase counterpart of a character; anything that is not an
/// ASCII lowercase letter is left alone.
pub open spec fn upper_char(c: char) -> char {
    if is_ascii_lower(c) {
        (((c as u32) - 32) as u8) as char
    } else {
        c
    }
}

/// The ASCII lowercase counterpart of a character; anything that is not an
/// ASCII uppercase letter is left alone.
pub open spec fn lower_char(c: char) -> char {
    if is_ascii_upper(c) {
        (((c as u32) + 32) as u8) as char
    } else {
        c
    }
}

pub fn to_upper(c: char) -> (r: char)
    ensures
        r == upper_char(c),
{
    let code: u32 = c as u32;
    if 97 <= code && code <= 122 {
        ((code - 32) as u8) as char
    } else {
        c
    }
}

pub fn to_lower(c: char) -> (r: char)
    ensures
        r == lower_char(c),
{
    let code: u32 = c as u32;
    if 65 <= code && code <= 90 {
        ((code + 32) as u8) as char
    } else {
        c
    }
}

/// One pass of the handler-name derivation: a `-` is dropped and makes the
/// next character uppercase; the very first character is uppercased too.
pub open spec fn camel_rec(s: Seq<char>, cap: bool) -> Seq<char>
    decreases s.len(),
{
    if s.len() == 0 {
        Seq::<char>::empty()
    } else if s.first() == '-' {
        camel_rec(s.drop_first(), true)
    } else if cap {
        seq![upper_char(s.first())] + camel_rec(s.drop_first(), false)
    } else {
        seq![s.first()] + camel_rec(s.drop_first(), false)
    }
}

/// The generated handler name for a function: the name in CamelCase (split
/// on `-`) followed by `Handler`.
pub open spec fn spec_camel_handler(s: Seq<char>) -> Seq<char> {
    camel_rec(s, true) + "Handler"@
}

/// Derive the name of the generated HTTP handler from a function name.
pub fn to_camel_case_handler(input: &str) -> (r: String)
    ensures
        r@ == spec_camel_handler(input@),
{
    let n: usize = input.unicode_len();
    let mut out: String = String::new();
    let mut cap: bool = true;
    let mut i: usize = 0;
    proof {
        assert(input@.skip(0) =~= input@);
    }
    while i < n
        invariant
            i <= n,
            n == input@.len(),
            camel_rec(input@, true) == out@ + camel_rec(input@.skip(i as int), cap),
        decreases n - i,
    {
        let c = input.get_char(i);
        proof {
            assert(input@.skip(i as int).first() == c);
            assert(input@.skip(i as int).drop_first() =~= input@.skip(i + 1));
        }
        if c == '-' {
            cap = true;
        } else if cap {
            push_char(&mut out, to_upper(c));
            cap = false;
        } else {
            push_char(&mut out, c);
        }
        proof {
            assert(out@ + camel_rec(input@.skip(i + 1), cap) =~= camel_rec(input@, true));
        }
        i = i + 1;
    }
    proof {
        assert(input@.skip(n as int) =~= Seq::<char>::empty());
        assert(out@ =~= camel_rec(input@, true));
    }
    out.append("Handler");
    out
}

/// Every character of the sequence mapped to its ASCII lowercase form.
pub open spec fn lower_chars(s: Seq<char>) -> Seq<char> {
    s.map_values(|c: char| lower_char(c))
}

/// Lowercase a string, ASCII-wise; other characters are kept.
pub fn to_ascii_lower(s: &str) -> (r: String)
    ensures
        r@ == lower_chars(s@),
{
    let n: usize = s.unicode_len();
    let mut out: String = String::new();
    let mut i: usize = 0;
    while i < n
        invariant
            i <= n,
            n == s@.len(),
            out@ =~= lower_chars(s@.take(i as int)),
        decreases n - i,
    {
        push_char(&mut out, to_lower(s.get_char(i)));
        proof {
            assert(lower_chars(s@.take(i + 1)) =~= lower_chars(s@.take(i as int)).push(
                lower_char(s@[i as int]),
            ));
        }
        i = i + 1;
    }
    proof {
        assert(s@.take(n as int) =~= s@);
    }
    out
}

/// Whether the characters of `pat` stand in `s` at position `i`.
pub fn str_eq_at(s: &str, i: usize, pat: &str) -> (r: bool)
    requires
        i + pat@.len() <= s@.len(),
        s@.len() <= usize::MAX,
    ensures
        r == (s@.subrange(i as int, i + pat@.len()) == pat@),
{
    let m: usize = pat.unicode_len();
    let mut j: usize = 0;
    while j < m
        invariant
            j <= m,
            m == pat@.len(),
            i + m <= s@.len(),
            s@.len() <= usize::MAX,
            forall|k: int| 0 <= k < j ==> s@[i + k] == pat@[k],
        decreases m - j,
    {
        if s.get_char(i + j) != pat.get_char(j) {
            proof {
                assert(s@.subrange(i as int, i + pat@.len())[j as int] != pat@[j as int]);
            }
            return false;
        }
        j = j + 1;
    }
    proof {
        assert(s@.subrange(i as int, i + pat@.len()) =~= pat@);
    }
    true
}

/// Whether two strings hold the same characters.
pub fn str_eq(a: &str, b: &str) -> (r: bool)
    ensures
        r == (a@ == b@),
{
    let n: usize = a.unicode_len();
    let m: usize = b.unicode_len();
    if n != m {
        return false;
    }
    let r = str_eq_at(a, 0, b);
    proof {
        assert(a@.subrange(0, b@.len() as int) =~= a@);
    }
    r
}

pub open spec fn spec_starts_with(s: Seq<char>, pat: Seq<char>) -> bool {
    pat.len() <= s.len() && s.take(pat.len() as int) == pat
}

pub open spec fn spec_ends_with(s: Seq<char>, pat: Seq<char>) -> bool {
    pat.len() <= s.len() && s.skip(s.len() - pat.len()) == pat
}

pub fn str_starts_with(s: &str, pat: &str) -> (r: bool)
    ensures
        r == spec_starts_with(s@, pat@),
{
    let n: usize = s.unicode_len();
    let m: usize = pat.unicode_len();
    if m > n {
        return false;
    }
    let r = str_eq_at(s, 0, pat);
    proof {
        assert(s@.subrange(0, pat@.len() as int) =~= s@.take(pat@.len() as int));
    }
    r
}

pub fn str_ends_with(s: &str, pat: &str) -> (r: bool)
    ensures
        r == spec_ends_with(s@, pat@),
{
    let n: usize = s.unicode_len();
    let m: usize = pat.unicode_len();
    if m > n {
        return false;
    }
    let r = str_eq_at(s, n - m, pat);
    proof {
        assert(s@.subrange(n - m, n - m + pat@.len()) =~= s@.skip(s@.len() - pat@.len()));
    }
    r
}

/// `s` with every non-overlapping occurrence of `pat` replaced by `rep`,
/// scanning from the left, as `str::replace` does.
pub open spec fn spec_replace_all(s: Seq<char>, pat: Seq<char>, rep: Seq<char>) -> Seq<char>
    decreases s.len(),
    when pat.len() > 0
{
    if s.len() < pat.len() {
        s
    } else if s.take(pat.len() as int) == pat {
        rep + spec_replace_all(s.skip(pat.len() as int), pat, rep)
    } else {
        seq![s.first()] + spec_replace_all(s.drop_first(), pat, rep)
    }
}

/// Replace every occurrence of `pat` in `s` by `rep`, left to right and
/// without overlap.
pub fn replace_all(s: &str, pat: &str, rep: &str) -> (r: String)
    requires
        pat@.len() > 0,
    ensures
        r@ == spec_replace_all(s@, pat@, rep@),
{
    let n: usize = s.unicode_len();
    let m: usize = pat.unicode_len();
    let mut out: String = String::new();
    let mut i: usize = 0;
    proof {
        assert(s@.skip(0) =~= s@);
    }
    while i < n
        invariant
            i <= n,
            n == s@.len(),
            m == pat@.len(),
            m > 0,
            spec_replace_all(s@, pat@, rep@) == out@ + spec_replace_all(
                s@.skip(i as int),
                pat@,
                rep@,
            ),
        decreases n - i,
    {
        let ghost rest = s@.skip(i as int);
        if m <= n - i && str_eq_at(s, i, pat) {
            proof {
                assert(rest.take(m as int) =~= s@.subrange(i as int, i + m));
                assert(rest.skip(m as int) =~= s@.skip(i + m));
            }
            out.append(rep);
            i = i + m;
        } else {
            proof {
                if rest.len() >= m {
                    assert(rest.take(m as int) =~= s@.subrange(i as int, i + m));
                }
                assert(rest.first() == s@[i as int]);
                assert(rest.drop_first() =~= s@.skip(i + 1));
            }
            push_char(&mut out, s.get_char(i));
            i = i + 1;
        }
        proof {
            assert(out@ + spec_replace_all(s@.skip(i as int), pat@, rep@) =~= spec_replace_all(
                s@,
                pat@,
                rep@,
            ));
        }
    }
    proof {
        assert(s@.skip(n as int) =~= Seq::<char>::empty());
        assert(out@ + Seq::<char>::empty() =~= out@);
    }
    out
}

pub open spec fn is_digit_char(c: char) -> bool {
    48 <= c as u32 && c as u32 <= 57
}

pub open spec fn digit_val(c: char) -> int {
    c as u32 - 48
}

pub open spec fn all_digits(s: Seq<char>) -> bool {
    forall|i: int| 0 <= i < s.len() ==> is_digit_char(#[trigger] s[i])
}

/// The number denoted by a sequence of decimal digits, most significant
/// first.
pub open spec fn dec_val(s: Seq<char>) -> int
    decreases s.len(),
{
    if s.len() == 0 {
        0
    } else {
        dec_val(s.drop_last()) * 10 + digit_val(s.last())
    }
}

/// The digit part of an unsigned decimal literal: a single leading `+` is
/// allowed, as `str::parse` on unsigned integers allows it.
pub open spec fn unsigned_body(s: Seq<char>) -> Seq<char> {
    if s.len() > 0 && s.first() == '+' {
        s.drop_first()
    } else {
        s
    }
}

pub proof fn lemma_dec_val_nonneg(s: Seq<char>)
    requires
        all_digits(s),
    ensures
        dec_val(s) >= 0,
    decreases s.len(),
{
    if s.len() > 0 {
        assert(all_digits(s.drop_last()));
        lemma_dec_val_nonneg(s.drop_last());
    }
}

pub proof fn lemma_dec_val_prefix(s: Seq<char>, k: int)
    requires
        all_digits(s),
        0 <= k <= s.len(),
    ensures
        dec_val(s.take(k)) <= dec_val(s),
    decreases s.len() - k,
{
    if k < s.len() {
        lemma_dec_val_prefix(s, k + 1);
        assert(s.take(k + 1).drop_last() =~= s.take(k));
        assert(all_digits(s.take(k)));
        lemma_dec_val_nonneg(s.take(k));
        assert(dec_val(s.take(k + 1)) == dec_val(s.take(k)) * 10 + digit_val(s.take(k + 1).last()));
    } else {
        assert(s.take(k) =~= s);
    }
}

/// Parse an unsigned decimal string no greater than `max`, accepting an
/// optional leading `+`, exactly as `str::parse` does for unsigned integers.
fn parse_bounded(s: &str, max: u64) -> (r: Option<u64>)
    ensures
        match r {
            Some(v) => {
                &&& unsigned_body(s@).len() > 0
                &&& all_digits(unsigned_body(s@))
                &&& dec_val(unsigned_body(s@)) == v
                &&& v <= max
            },
            None => {
                let b = unsigned_body(s@);
                b.len() == 0 || !all_digits(b) || dec_val(b) > max
            },
        },
{
    let n: usize = s.unicode_len();
    let start: usize = if n > 0 && s.get_char(0) == '+' {
        1
    } else {
        0
    };
    let ghost body = unsigned_body(s@);
    proof {
        assert(body =~= s@.subrange(start as int, n as int));
    }
    if start == n {
        return None;
    }
    let mut acc: u128 = 0;
    let mut i: usize = start;
    while i < n
        invariant
            start <= i <= n,
            n == s@.len(),
            body == unsigned_body(s@),
            body =~= s@.subrange(start as int, n as int),
            all_digits(body.take(i - start)),
            acc == dec_val(body.take(i - start)),
            acc <= max,
            max <= u64::MAX,
        decreases n - i,
    {
        let c = s.get_char(i);
        let code: u32 = c as u32;
        if !(48 <= code && code <= 57) {
            proof {
                assert(body[i - start] == c);
                assert(!is_digit_char(body[i - start]));
                assert(!all_digits(body));
            }
            return None;
        }
        let d: u128 = (code - 48) as u128;
        acc = acc * 10 + d;
        proof {
            assert(body.take(i - start + 1).drop_last() =~= body.take(i - start));
            assert(body.take(i - start + 1).last() == c);
        }
        i = i + 1;
        if acc > max as u128 {
            proof {
                if all_digits(body) {
                    lemma_dec_val_prefix(body, i - start);
                    assert(body.take(body.len() as int) =~= body);
                }
            }
            return None;
        }
    }
    proof {
        assert(body.take(n - start) =~= body);
    }
    Some(acc as u64)
}

/// Parse a 16-bit port number, as `str::parse::<u16>` does.
pub fn parse_u16(s: &str) -> (r: Option<u16>)
    ensures
        match r {
            Some(v) => {
                &&& unsigned_body(s@).len() > 0
                &&& all_digits(unsigned_body(s@))
                &&& dec_val(unsigned_body(s@)) == v
            },
            None => {
                let b = unsigned_body(s@);
                b.len() == 0 || !all_digits(b) || dec_val(b) > u16::MAX
            },
        },
{
    match parse_bounded(s, 65535) {
        Some(v) => Some(v as u16),
        None => None,
    }
}

/// Parse a size in bytes, as `str::parse::<usize>` does.
pub fn parse_usize(s: &str) -> (r: Option<usize>)
    ensures
        match r {
            Some(v) => {
                &&& unsigned_body(s@).len() > 0
                &&& all_digits(unsigned_body(s@))
                &&& dec_val(unsigned_body(s@)) == v
            },
            None => {
                let b = unsigned_body(s@);
                b.len() == 0 || !all_digits(b) || dec_val(b) > usize::MAX
            },
        },
{
    match parse_bounded(s, usize::MAX as u64) {
        Some(v) => Some(v as usize),
        None => None,
    }
}

/// Whether a string parses as an unsigned decimal number no greater than
/// `max`, the way `str::parse` reads unsigned integers.
pub open spec fn spec_parses_bounded(s: Seq<char>, max: int) -> bool {
    let b = unsigned_body(s);
    b.len() > 0 && all_digits(b) && dec_val(b) <= max
}

pub open spec fn digit_char(d: int) -> char {
    ((48 + d) as u8) as char
}

/// The decimal representation of a nonnegative number, most significant
/// digit first, with no leading zeros (a single `0` for zero).
pub open spec fn dec_str_of(n: int) -> Seq<char>
    decreases n,
{
    if n < 10 {
        seq![digit_char(if n < 0 { 0 } else { n })]
    } else {
        dec_str_of(n / 10) + seq![digit_char(n % 10)]
    }
}

/// Print a 16-bit number in decimal, as `u16`'s `Display` does.
pub fn u16_to_string(v: u16) -> (r: String)
    ensures
        r@ == dec_str_of(v as int),
    decreases v,
{
    let d: u8 = 48 + (v % 10) as u8;
    if v < 10 {
        let mut s = String::new();
        push_char(&mut s, d as char);
        proof {
            assert(s@ =~= dec_str_of(v as int));
        }
        s
    } else {
        let mut s = u16_to_string(v / 10);
        push_char(&mut s, d as char);
        proof {
            assert(s@ =~= dec_str_of(v as int / 10) + seq![digit_char(v as int % 10)]);
        }
        s
    }
}

/// Print a size in decimal, as `usize`'s `Display` does.
pub fn usize_to_string(v: usize) -> (r: String)
    ensures
        r@ == dec_str_of(v as int),
    decreases v,
{
    let d: u8 = 48 + (v % 10) as u8;
    if v < 10 {
        let mut s = String::new();
        push_char(&mut s, d as char);
        proof {
            assert(s@ =~= dec_str_of(v as int));
        }
        s
    } else {
        let mut s = usize_to_string(v / 10);
        push_char(&mut s, d as char);
        proof {
            assert(s@ =~= dec_str_of(v as int / 10) + seq![digit_char(v as int % 10)]);
        }
        s
    }
}

} // verus!

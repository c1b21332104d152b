//! Building the downstream URL for a forwarded call: percent-encoding of
//! query keys and values and assembly of `http://<addr>/<name>?<query>`.

use vstd::prelude::*;

use crate::text::{digit_char, push_char};
use vstd::utf8::encode_utf8;

verus! {

/// Bytes that percent-encoding leaves as they are: ASCII alphanumerics
/// and `-`, `.`, `_`, `~`.
pub open spec fn is_url_safe_byte(b: u8) -> bool {
    ||| 48 <= b <= 57
    ||| 65 <= b <= 90
    ||| 97 <= b <= 122
    ||| b == 45
    ||| b == 46
    ||| b == 95
    ||| b == 126
}

/// The uppercase hex digit for a value below sixteen.
pub open spec fn hex_digit_upper(d: int) -> char {
    if d < 10 {
        digit_char(d)
    } else {
        ((55 + d) as u8) as char
    }
}

/// What one byte contributes to a percent-encoded string.
pub open spec fn spec_encode_byte(b: u8) -> Seq<char> {
    if is_url_safe_byte(b) {
        seq![b as char]
    } else {
        seq!['%', hex_digit_upper(b as int / 16), hex_digit_upper(b as int % 16)]
    }
}

/// Percent-encoding of a byte string: safe bytes kept, every other byte
/// written as `%` and two uppercase hex digits.
pub open spec fn spec_percent_encode(bs: Seq<u8>) -> Seq<char>
    decreases bs.len(),
{
    if bs.len() == 0 {
        Seq::<char>::empty()
    } else {
        spec_encode_byte(bs.first()) + spec_percent_encode(bs.drop_first())
    }
}

/// Percent-encoding of a string's UTF-8 bytes.
pub open spec fn spec_encoded(s: Seq<char>) -> Seq<char> {
    spec_percent_encode(encode_utf8(s))
}

fn hex_upper(d: u8) -> (r: char)
    requires
        d < 16,
    ensures
        r == hex_digit_upper(d as int),
{
    if d < 10 {
        (48 + d) as char
    } else {
        (55 + d) as char
    }
}

/// Percent-encode a string, byte by byte of its UTF-8 form, keeping only
/// ASCII alphanumerics and `-`, `.`, `_`, `~`, with uppercase hex escapes.
pub fn percent_encode(s: &str) -> (r: String)
    ensures
        r@ == spec_encoded(s@),
{
    let bytes: &[u8] = s.as_bytes();
    let n: usize = bytes.len();
    let mut out: String = String::new();
    let mut i: usize = 0;
    proof {
        assert(bytes@.skip(0) =~= bytes@);
    }
    while i < n
        invariant
            i <= n,
            n == bytes@.len(),
            bytes@ == encode_utf8(s@),
            spec_percent_encode(bytes@) == out@ + spec_percent_encode(bytes@.skip(i as int)),
        decreases n - i,
    {
        let b: u8 = bytes[i];
        proof {
            assert(bytes@.skip(i as int).first() == b);
            assert(bytes@.skip(i as int).drop_first() =~= bytes@.skip(i + 1));
        }
        let safe: bool = (48 <= b && b <= 57) || (65 <= b && b <= 90) || (97 <= b && b <= 122)
            || b == 45 || b == 46 || b == 95 || b == 126;
        if safe {
            push_char(&mut out, b as char);
        } else {
            push_char(&mut out, '%');
            push_char(&mut out, hex_upper(b / 16));
            push_char(&mut out, hex_upper(b % 16));
        }
        proof {
            assert(out@ + spec_percent_encode(bytes@.skip(i + 1)) =~= spec_percent_encode(bytes@));
        }
        i = i + 1;
    }
    proof {
        assert(bytes@.skip(n as int) =~= Seq::<u8>::empty());
        assert(out@ =~= spec_percent_encode(bytes@));
    }
    out
}

/// One key-value pair of a query string.
pub struct QueryParam {
    pub key: String,
    pub value: String,
}

/// What one parameter contributes to the query string: encoded key, `=`,
/// encoded value.
pub open spec fn spec_query_param(p: QueryParam) -> Seq<char> {
    spec_encoded(p.key@) + seq!['='] + spec_encoded(p.value@)
}

/// The encoded query parameters joined with `&`, in the order given.
pub open spec fn spec_query_string(q: Seq<QueryParam>) -> Seq<char>
    decreases q.len(),
{
    if q.len() == 0 {
        Seq::<char>::empty()
    } else if q.len() == 1 {
        spec_query_param(q[0])
    } else {
        spec_query_string(q.drop_last()) + seq!['&'] + spec_query_param(q.last())
    }
}

/// The downstream URL for a forwarded call: `http://<addr>/<name>`, with
/// `?` and the encoded query appended when any parameter is present.
pub open spec fn spec_create_url(addr: Seq<char>, name: Seq<char>, q: Seq<QueryParam>) -> Seq<
    char,
> {
    let base = "http://"@ + addr + seq!['/'] + name;
    if q.len() == 0 {
        base
    } else {
        base + seq!['?'] + spec_query_string(q)
    }
}

/// Build the URL a forwarded request is sent to, percent-encoding every
/// query key and value.
pub fn create_url(addr: &str, name: &str, query: &Vec<QueryParam>) -> (r: String)
    ensures
        r@ == spec_create_url(addr@, name@, query@),
{
    let mut out: String = "http://".to_owned();
    out.append(addr);
    push_char(&mut out, '/');
    out.append(name);
    if query.len() == 0 {
        proof {
            assert(out@ =~= spec_create_url(addr@, name@, query@));
        }
        return out;
    }
    push_char(&mut out, '?');
    let n: usize = query.len();
    let mut i: usize = 0;
    let mut qs: String = String::new();
    while i < n
        invariant
            i <= n,
            n == query@.len(),
            qs@ == spec_query_string(query@.take(i as int)),
        decreases n - i,
    {
        if i > 0 {
            push_char(&mut qs, '&');
        }
        let p = &query[i];
        qs.append(percent_encode(p.key.as_str()).as_str());
        push_char(&mut qs, '=');
        qs.append(percent_encode(p.value.as_str()).as_str());
        proof {
            assert(query@.take(i + 1).drop_last() =~= query@.take(i as int));
            assert(query@.take(i + 1).last() == query@[i as int]);
            assert(qs@ =~= spec_query_string(query@.take(i + 1)));
        }
        i = i + 1;
    }
    proof {
        assert(query@.take(n as int) =~= query@);
    }
    out.append(qs.as_str());
    proof {
        assert(out@ =~= spec_create_url(addr@, name@, query@));
    }
    out
}

} // verus!

//! Image tags and cache keys: every deployed function is addressed by
//! `<name>-<short-hash>`, where the short hash is derived from the owning
//! user's UUID. The key doubles as the image tag and the instance-cache
//! key, so two users deploying the same name never share an image.

use vstd::prelude::*;

use crate::text::push_char;

verus! {

/// The lowercase hexadecimal rendering of the MD5 digest of a string's
/// UTF-8 bytes; a function of the input alone.
pub uninterp spec fn md5_hex_of(s: Seq<char>) -> Seq<char>;

/// Relies on md5::compute and the crate's LowerHex rendering of a digest:
/// the 16 digest bytes printed as 32 lowercase hex characters, determined
/// by the input bytes alone.
#[verifier::external_body]
fn md5_hex(s: &str) -> (r: String)
    ensures
        r@ == md5_hex_of(s@),
        r@.len() == 32,
{
    format!("{:x}", md5::compute(s.as_bytes()))
}

/// The first eight hex characters of the MD5 digest of a user UUID.
pub open spec fn spec_short_hash(user_uuid: Seq<char>) -> Seq<char> {
    md5_hex_of(user_uuid).take(8)
}

/// Shorten a user's UUID to the eight-character digest prefix used in
/// image tags and container-friendly names.
pub fn short_hash(user_uuid: &str) -> (r: String)
    ensures
        r@ == spec_short_hash(user_uuid@),
{
    let h = md5_hex(user_uuid);
    let p = h.as_str().substring_char(0, 8);
    let r = p.to_owned();
    proof {
        assert(h@.subrange(0, 8) =~= md5_hex_of(user_uuid@).take(8));
    }
    r
}

/// The key a deployed function is addressed by: its name, a dash, and the
/// short hash of its owner's UUID.
pub open spec fn spec_function_key(name: Seq<char>, user_uuid: Seq<char>) -> Seq<char> {
    name + seq!['-'] + spec_short_hash(user_uuid)
}

/// Derive the image tag / cache key for a function of a given user.
pub fn function_key(name: &str, user_uuid: &str) -> (r: String)
    ensures
        r@ == spec_function_key(name@, user_uuid@),
{
    let mut out: String = name.to_owned();
    push_char(&mut out, '-');
    let h = short_hash(user_uuid);
    out.append(h.as_str());
    proof {
        assert(out@ =~= spec_function_key(name@, user_uuid@));
    }
    out
}

/// Namespacing: deploying one function name under two users gives two
/// distinct image tags and cache keys, provided the short hashes of the
/// two UUIDs differ (the digest prefix is eight hex characters, so two
/// distinct UUIDs collide only when MD5 collides on that prefix).
pub proof fn lemma_function_key_namespacing(name: Seq<char>, u1: Seq<char>, u2: Seq<char>)
    requires
        spec_short_hash(u1) != spec_short_hash(u2),
    ensures
        spec_function_key(name, u1) != spec_function_key(name, u2),
{
    let k1 = spec_function_key(name, u1);
    let k2 = spec_function_key(name, u2);
    if k1 == k2 {
        assert(k1.skip(name.len() as int + 1) =~= spec_short_hash(u1));
        assert(k2.skip(name.len() as int + 1) =~= spec_short_hash(u2));
        assert(false);
    }
}

} // verus!

//! Identifiers. The library holds a UUID as the `u128` whose big-endian bytes
//! are the UUID's bytes; text and fresh values come from the `uuid` crate.

use vstd::prelude::*;
use vstd::arithmetic::power2::pow2;

verus! {

/// The fixed user that local mode acts as (`00000000-0000-0000-0000-000000000001`).
pub const LOCAL_USER_ID: u128 = 1;

/// Lower-case hexadecimal digit for `d < 16`.
pub open spec fn hex_digit(d: nat) -> char {
    if d < 10 {
        ((48 + d) as u8) as char
    } else {
        ((87 + d) as u8) as char
    }
}

/// The `k`-th of the 32 hexadecimal digits of `id`, most significant first.
pub open spec fn uuid_nibble(id: u128, k: nat) -> nat {
    ((id as nat) / pow2((4 * (31 - k)) as nat)) % 16
}

/// The 32 lower-case hexadecimal digits of `id`, zero-padded.
pub open spec fn uuid_hex(id: u128) -> Seq<char> {
    Seq::new(32, |k: int| hex_digit(uuid_nibble(id, k as nat)))
}

/// The hyphenated lower-case text of a UUID, `xxxxxxxx-xxxx-xxxx-xxxx-xxxxxxxxxxxx`.
pub open spec fn uuid_text(id: u128) -> Seq<char> {
    let h = uuid_hex(id);
    h.subrange(0, 8) + seq!['-'] + h.subrange(8, 12) + seq!['-'] + h.subrange(12, 16) + seq!['-']
        + h.subrange(16, 20) + seq!['-'] + h.subrange(20, 32)
}

/// The version field of a UUID: the high four bits of its seventh byte.
pub open spec fn uuid_version(id: u128) -> u128 {
    (id >> 76u128) & 0xfu128
}

/// The two high bits of a UUID's ninth byte; `0b10` marks the RFC 4122 variant.
pub open spec fn uuid_variant_bits(id: u128) -> u128 {
    (id >> 62u128) & 0x3u128
}

/// A UUID of version `v` in the RFC 4122 variant.
pub open spec fn is_rfc4122_version(id: u128, v: u128) -> bool {
    uuid_version(id) == v && uuid_variant_bits(id) == 2
}

/// What `uuid::Uuid::parse_str` gives for a text, as a `u128` (it accepts the
/// simple, hyphenated, braced and URN forms, hexadecimal digits in either case).
pub uninterp spec fn uuid_parse(s: Seq<char>) -> Option<u128>;

/// The version-5 UUID that `uuid::Uuid::new_v5` derives, in the DNS namespace,
/// from the UTF-8 bytes of a name.
pub uninterp spec fn uuid_v5_dns(name: Seq<char>) -> u128;

/// The 32 hexadecimal digits of a UUID (`Display` of `uuid::Uuid::simple`, which
/// writes them in lower case, most significant first, without hyphens).
/// Trusted: the text is `uuid_hex(id)`.
#[verifier::external_body]
pub(crate) fn uuid_to_hex(id: u128) -> (s: String)
    ensures
        s@ == uuid_hex(id),
{
    uuid::Uuid::from_u128(id).simple().to_string()
}

/// Parses a UUID with `uuid::Uuid::parse_str`. Trusted: the outcome is the named
/// result `uuid_parse` of the text, and the hyphenated lower-case text of a UUID
/// (a form the crate generates, all of which it documents as accepted) reads
/// back as that UUID.
#[verifier::external_body]
pub(crate) fn parse_uuid(s: &str) -> (r: Option<u128>)
    ensures
        r == uuid_parse(s@),
        forall|id: u128| #[trigger] uuid_text(id) == s@ ==> r == Some(id),
{
    match uuid::Uuid::parse_str(s) {
        Ok(u) => Some(u.as_u128()),
        Err(_) => None,
    }
}

/// A fresh random identifier (`uuid::Uuid::new_v4`). Trusted: the value is a
/// version-4 UUID in the RFC 4122 variant (the crate sets those bits over random
/// ones); the other bits come from the random number generator and are not stated.
#[verifier::external_body]
pub(crate) fn new_random_id() -> (r: u128)
    ensures
        is_rfc4122_version(r, 4),
{
    uuid::Uuid::new_v4().as_u128()
}

/// `uuid::Uuid::new_v5` in the DNS namespace over the bytes of `name`.
/// Trusted: the value is the named result `uuid_v5_dns` of the name, and it is a
/// version-5 UUID in the RFC 4122 variant (the crate sets those bits over the
/// SHA-1 hash).
#[verifier::external_body]
pub(crate) fn uuid_v5_in_dns_namespace(name: &str) -> (r: u128)
    ensures
        r == uuid_v5_dns(name@),
        is_rfc4122_version(r, 5),
{
    uuid::Uuid::new_v5(&uuid::Uuid::NAMESPACE_DNS, name.as_bytes()).as_u128()
}

/// The identifier to store: the requested one, or a fresh random (version-4)
/// one.
pub fn resolve_id(requested: Option<u128>) -> (id: u128)
    ensures
        requested matches Some(r) ==> id == r,
        requested is None ==> is_rfc4122_version(id, 4),
{
    match requested {
        Some(r) => r,
        None => new_random_id(),
    }
}

} // verus!

//! Identifiers and URL text.
//!
//! Entity identifiers are UUIDs, held here as the 128-bit number that the
//! `uuid` crate's `Uuid::as_u128` gives; the crate itself parses and formats
//! them.

use vstd::prelude::*;
use vstd::string::StringExecFns;
use vstd::string::StringSliceAdditionalSpecFns;

verus! {

/// The lower-case hexadecimal digit for `d` (`0..16`).
pub open spec fn hex_lower(d: nat) -> char {
    if d < 10 {
        (d + 48) as char
    } else {
        (d + 87) as char
    }
}

/// The last `n` lower-case hexadecimal digits of `x`, most significant first.
pub open spec fn hex_digits(x: nat, n: nat) -> Seq<char>
    decreases n,
{
    if n == 0 {
        Seq::<char>::empty()
    } else {
        hex_digits(x / 16, (n - 1) as nat).push(hex_lower(x % 16))
    }
}

/// The hyphenated lower-case text of a UUID, such as
/// `67e55044-10b1-426f-9247-bb680e5fe0c8`.
pub open spec fn uuid_text(id: u128) -> Seq<char> {
    let h = hex_digits(id as nat, 32);
    h.subrange(0, 8) + seq!['-'] + h.subrange(8, 12) + seq!['-'] + h.subrange(12, 16) + seq!['-']
        + h.subrange(16, 20) + seq!['-'] + h.subrange(20, 32)
}

pub proof fn lemma_hex_digits_len(x: nat, n: nat)
    ensures
        hex_digits(x, n).len() == n,
    decreases n,
{
    if n > 0 {
        lemma_hex_digits_len(x / 16, (n - 1) as nat);
    }
}

pub proof fn lemma_uuid_text_len(id: u128)
    ensures
        uuid_text(id).len() == 36,
        uuid_text(id).take(8) == hex_digits(id as nat, 32).take(8),
{
    lemma_hex_digits_len(id as nat, 32);
    assert(uuid_text(id).take(8) =~= hex_digits(id as nat, 32).take(8));
}

/// The text `Uuid::parse_str` accepts for an identifier, and the identifier it
/// denotes. Beside the hyphenated form it accepts the simple, braced and URN
/// forms.
pub uninterp spec fn uuid_parse(s: Seq<char>) -> Option<u128>;

/// `uuid::Uuid::from_u128(id).to_string()`: the crate's `Display` writes the
/// hyphenated lower-case form.
#[verifier::external_body]
pub(crate) fn uuid_to_string(id: u128) -> (s: String)
    ensures
        s@ == uuid_text(id),
{
    uuid::Uuid::from_u128(id).to_string()
}

/// `uuid::Uuid::parse_str(s)`, the parsed identifier taken by
/// `Uuid::as_u128`. The result is `uuid_parse(s)`; the one fact stated of it
/// is that the hyphenated text of an identifier, which the crate documents as
/// one of its accepted formats, parses back to that identifier.
#[verifier::external_body]
pub(crate) fn uuid_parse_str(s: &str) -> (r: Option<u128>)
    ensures
        r == uuid_parse(s@),
        forall|id: u128| s@ == uuid_text(id) ==> r == Some(id),
{
    uuid::Uuid::parse_str(s).ok().map(|u| u.as_u128())
}

/// Whether a byte is left as it is by URL encoding: ASCII letters and digits
/// and `-`, `.`, `_`, `~`.
pub open spec fn is_unreserved(b: u8) -> bool {
    (48 <= b && b <= 57) || (65 <= b && b <= 90) || (97 <= b && b <= 122) || b == 45 || b == 46
        || b == 95 || b == 126
}

/// The upper-case hexadecimal digit for `d` (`0..16`).
pub open spec fn hex_upper(d: nat) -> char {
    if d < 10 {
        (d + 48) as char
    } else {
        (d + 55) as char
    }
}

/// Percent-encoding of `bytes`: unreserved bytes stay, every other byte
/// becomes `%` and two upper-case hexadecimal digits.
pub open spec fn percent_encode(bytes: Seq<u8>) -> Seq<char>
    decreases bytes.len(),
{
    if bytes.len() == 0 {
        Seq::<char>::empty()
    } else {
        let r = percent_encode(bytes.drop_last());
        let b = bytes.last();
        if is_unreserved(b) {
            r.push(b as char)
        } else {
            r + seq!['%', hex_upper((b / 16) as nat), hex_upper((b % 16) as nat)]
        }
    }
}

/// `urlencoding::encode(data)`, which percent-encodes every byte of the UTF-8
/// text except ASCII letters, digits and `-`, `_`, `.`, `~`.
#[verifier::external_body]
pub(crate) fn url_encode(data: &str) -> (r: String)
    ensures
        r@ == percent_encode(data.spec_bytes()),
{
    urlencoding::encode(data).into_owned()
}

/// The probe link that opens the embedding tester with `text` as its first
/// input: `/embed?a=` followed by the URL-encoded text.
pub fn embed_probe_href(text: &str) -> (href: String)
    ensures
        href@ == "/embed?a="@ + percent_encode(text.spec_bytes()),
{
    let mut href = String::from_str("/embed?a=");
    let enc = url_encode(text);
    href.append(enc.as_str());
    href
}

} // verus!

//! Black Magic Debug release metadata: its model, its validation, and how the cached copy is
//! named to the server.
pub mod firmware_download;
pub mod report;
pub mod structs;

use vstd::prelude::*;

use crate::error::ErrorKind;

verus! {

/// The SHA-256 digest of some bytes.
pub uninterp spec fn spec_sha256(data: Seq<u8>) -> Seq<u8>;

/// `sha2::Sha256::digest`: the SHA-256 digest of the bytes, 32 bytes long; the digest is named by
/// [`spec_sha256`].
#[verifier::external_body]
fn sha256(data: &[u8]) -> (r: Vec<u8>)
    ensures
        r@ == spec_sha256(data@),
        r@.len() == 32,
{
    <sha2::Sha256 as sha2::Digest>::digest(data).to_vec()
}

/// The lower-case character for a nibble.
pub fn hex_digit(value: u8) -> (r: char)
    requires
        value < 16,
    ensures
        r == crate::text::hex_digit_char(value as nat),
{
    let mut digit = value;
    if value > 9 {
        digit = digit + (0x61 - 0x30 - 10);
    }
    digit = digit + 0x30;
    digit as char
}

/// Two lower-case hexadecimal digits per byte.
pub open spec fn hex_bytes(d: Seq<u8>) -> Seq<char>
    decreases d.len(),
{
    if d.len() == 0 {
        seq![]
    } else {
        hex_bytes(d.drop_last()) + crate::text::hex_digits_fixed(d.last() as nat, 2)
    }
}

/// The ETag of a digest: its bytes in lower-case hexadecimal, in double quotes.
pub open spec fn spec_etag(digest: Seq<u8>) -> Seq<char> {
    "\""@ + hex_bytes(digest) + "\""@
}

/// The ETag of a digest (see [`spec_etag`]).
pub fn etag_from_digest(digest: &[u8]) -> (r: String)
    ensures
        r@ == spec_etag(digest@),
{
    let mut result = String::new();
    crate::text::string_push(&mut result, '"');
    proof {
        reveal_strlit("\"");
        assert(result@ =~= "\""@ + hex_bytes(digest@.subrange(0, 0)));
    }
    let mut k: usize = 0;
    while k < digest.len()
        invariant
            k <= digest@.len(),
            result@ == "\""@ + hex_bytes(digest@.subrange(0, k as int)),
        decreases digest@.len() - k,
    {
        let byte = digest[k];
        let hi = byte >> 4u8;
        let lo = byte & 0x0fu8;
        proof {
            assert(hi == byte / 16) by (bit_vector)
                requires
                    hi == byte >> 4u8,
            ;
            assert(lo == byte % 16) by (bit_vector)
                requires
                    lo == byte & 0x0fu8,
            ;
            reveal_with_fuel(crate::text::hex_digits_fixed, 3);
            assert(byte / 16 / 16 == 0);
        }
        crate::text::string_push(&mut result, hex_digit(hi));
        crate::text::string_push(&mut result, hex_digit(lo));
        let ghost after = digest@.subrange(0, k + 1);
        assert(after.drop_last() =~= digest@.subrange(0, k as int));
        k = k + 1;
        assert(crate::text::hex_digits_fixed(byte as nat, 2) =~= seq![
            crate::text::hex_digit_char((byte / 16) as nat),
            crate::text::hex_digit_char((byte % 16) as nat),
        ]);
    }
    let ghost before = result@;
    crate::text::string_push(&mut result, '"');
    assert(digest@.subrange(0, digest@.len() as int) =~= digest@);
    assert(result@ =~= before + "\""@);
    result
}

/// The ETag of the cached metadata file: its SHA-256 digest in lower-case hexadecimal, in
/// double quotes.
pub fn compute_etag(contents: &[u8]) -> (r: String)
    ensures
        r@ == spec_etag(spec_sha256(contents@)),
        r@.len() == 66,
{
    let digest = sha256(contents);
    proof {
        law_etag_length(digest@);
    }
    etag_from_digest(digest.as_slice())
}

/// What to do with the server's answer to a metadata request: `200 OK` brings new metadata to
/// store in the cache (`true`), `304 Not Modified` keeps the cached copy (`false`), anything
/// else means the metadata is unusable.
pub fn metadata_response_action(status: u16) -> (r: Result<bool, ErrorKind>)
    ensures
        status == 200 ==> r == Ok::<bool, ErrorKind>(true),
        status == 304 ==> r == Ok::<bool, ErrorKind>(false),
        status != 200 && status != 304 ==> r == Err::<bool, ErrorKind>(ErrorKind::ReleaseMetadataInvalid),
{
    if status == 200 {
        Ok(true)
    } else if status != 304 {
        Err(ErrorKind::ReleaseMetadataInvalid)
    } else {
        Ok(false)
    }
}

/// Fixed-width hexadecimal renderings have the width asked for.
proof fn lemma_hex_digits_fixed_len(v: nat, n: nat)
    ensures
        crate::text::hex_digits_fixed(v, n).len() == n,
    decreases n,
{
    if n > 0 {
        lemma_hex_digits_fixed_len(v / 16, (n - 1) as nat);
    }
}

/// Two hexadecimal digits per byte.
proof fn lemma_hex_bytes_len(d: Seq<u8>)
    ensures
        hex_bytes(d).len() == 2 * d.len(),
    decreases d.len(),
{
    if d.len() > 0 {
        lemma_hex_bytes_len(d.drop_last());
        lemma_hex_digits_fixed_len(d.last() as nat, 2);
    }
}

/// An ETag holds two hexadecimal digits per digest byte between its two quotes.
pub proof fn law_etag_length(digest: Seq<u8>)
    ensures
        spec_etag(digest).len() == 2 * digest.len() + 2,
{
    lemma_hex_bytes_len(digest);
    reveal_strlit("\"");
}

} // verus!

use vstd::prelude::*;

use hmac::Mac;

verus! {

/// The lowercase hexadecimal digit for a value below 16.
pub open spec fn hex_digit(n: int) -> char {
    if n < 10 {
        (48 + n) as char
    } else {
        (87 + n) as char
    }
}

/// Whether `c` is one of `0-9` or `a-f`.
pub open spec fn is_lower_hex_digit(c: char) -> bool {
    ('0' <= c <= '9') || ('a' <= c <= 'f')
}

/// Lowercase hexadecimal text of `bytes`: two digits per byte, high nibble first.
pub open spec fn hex_lower(bytes: Seq<u8>) -> Seq<char>
    decreases bytes.len(),
{
    if bytes.len() == 0 {
        Seq::empty()
    } else {
        seq![hex_digit((bytes[0] / 16) as int), hex_digit((bytes[0] % 16) as int)] + hex_lower(bytes.drop_first())
    }
}

/// The hexadecimal text of `bytes` has two characters per byte, each a
/// lowercase hexadecimal digit.
pub proof fn lemma_hex_lower_shape(bytes: Seq<u8>)
    ensures
        hex_lower(bytes).len() == 2 * bytes.len(),
        forall|i: int| 0 <= i < hex_lower(bytes).len() ==> is_lower_hex_digit(#[trigger] hex_lower(bytes)[i]),
    decreases bytes.len(),
{
    if bytes.len() > 0 {
        lemma_hex_lower_shape(bytes.drop_first());
        let head = seq![hex_digit((bytes[0] / 16) as int), hex_digit((bytes[0] % 16) as int)];
        let tail = hex_lower(bytes.drop_first());
        assert(is_lower_hex_digit(head[0]));
        assert(is_lower_hex_digit(head[1]));
        assert forall|i: int| 0 <= i < hex_lower(bytes).len() implies is_lower_hex_digit(#[trigger] hex_lower(bytes)[i]) by {
            if i >= 2 {
                assert(hex_lower(bytes)[i] == tail[i - 2]);
            }
        }
    }
}

/// The HMAC-SHA256 tag of `message` under `key`.
pub uninterp spec fn hmac_sha256(key: Seq<u8>, message: Seq<u8>) -> Seq<u8>;

/// Computes HMAC-SHA256 with `hmac::Hmac<sha2::Sha256>`: `new_from_slice`,
/// `chain_update`, `finalize`, `into_bytes`. Trusted: the tag is the value that
/// `hmac_sha256` names for these arguments, and it has the 32 bytes of a
/// SHA-256 output. `new_from_slice` accepts keys of any length for HMAC, so
/// the `expect` never fires.
#[verifier::external_body]
pub(crate) fn compute_hmac_sha256(key: &[u8], message: &[u8]) -> (tag: Vec<u8>)
    ensures
        tag@ == hmac_sha256(key@, message@),
        tag@.len() == 32,
{
    let mac = hmac::Hmac::<sha2::Sha256>::new_from_slice(key).expect("HMAC can take key of any size");
    mac.chain_update(message).finalize().into_bytes().to_vec()
}

/// Encodes bytes with `hex::encode`. Trusted: the result is the lowercase
/// hexadecimal text of the bytes, two digits per byte, high nibble first, as
/// the crate documents.
#[verifier::external_body]
pub(crate) fn hex_encode(bytes: &[u8]) -> (text: String)
    ensures
        text@ == hex_lower(bytes@),
{
    hex::encode(bytes)
}

/// The hexadecimal HMAC-SHA256 signature of the UTF-8 bytes of `data` under `key`.
pub open spec fn signature_of(data: Seq<char>, key: Seq<u8>) -> Seq<char> {
    hex_lower(hmac_sha256(key, vstd::utf8::encode_utf8(data)))
}

} // verus!

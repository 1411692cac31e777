//! The `Digest` header: a SHA-256 hash of the body, in base64.
use vstd::prelude::*;

verus! {

/// The SHA-256 hash of `data`, as `sha2` computes it.
pub uninterp spec fn sha256_of(data: Seq<u8>) -> Seq<u8>;

/// The base64 text of `data` in the standard alphabet with padding, as
/// `base64` writes it.
pub uninterp spec fn base64_of(data: Seq<u8>) -> Seq<char>;

/// Whether the base64 text of `len` bytes has a length that fits in
/// `usize`.
pub open spec fn base64_fits(len: nat) -> bool {
    len / 3 * 4 + 4 <= usize::MAX
}

/// `sha2::Sha256::digest`: the hash depends on the bytes alone and is 32
/// bytes long.
#[verifier::external_body]
pub(crate) fn sha256(data: &[u8]) -> (hash: Vec<u8>)
    ensures
        hash@ == sha256_of(data@),
        hash@.len() == 32,
{
    <sha2::Sha256 as sha2::Digest>::digest(data).to_vec()
}

/// `base64::Engine::encode` on `general_purpose::STANDARD`: the text
/// depends on the bytes alone. The call panics when the length of the
/// text does not fit in `usize`, which the precondition rules out.
#[verifier::external_body]
pub(crate) fn base64_text(data: &[u8]) -> (text: String)
    requires
        base64_fits(data@.len()),
    ensures
        text@ == base64_of(data@),
{
    base64::Engine::encode(&base64::engine::general_purpose::STANDARD, data)
}

/// The value of the `Digest` header for a body: the algorithm's name, an
/// equals sign, and the base64 text of the SHA-256 hash of the body.
pub open spec fn digest_value(body: Seq<u8>) -> Seq<char> {
    "SHA-256="@ + base64_of(sha256_of(body))
}

/// Computes the `Digest` header value over exactly the bytes given.
pub fn body_digest(body: &[u8]) -> (value: String)
    ensures
        value@ == digest_value(body@),
{
    let hash: Vec<u8> = sha256(body);
    let encoded: String = base64_text(hash.as_slice());
    let mut value: String = String::from_str("SHA-256=");
    value.append(encoded.as_str());
    value
}

} // verus!
